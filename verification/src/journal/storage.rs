//! Where the journal lives and how it is read and replaced on disk: the
//! decisions, on plain values. Reading and writing are the caller's part.

use vstd::prelude::*;
use vstd::string::StringExecFns;
use crate::journal::entry::JournalEntryView;
use crate::journal::log::{Journal, JournalError, JournalErrorView};
use crate::paths;
use crate::platform::Platform;

verus! {

impl Platform {
    /// The folder of this program below the per-user data directory.
    pub open spec fn data_folder_text(self) -> Seq<char> {
        match self {
            Platform::MacOs => "FontLift"@,
            Platform::Windows => "FontLift"@,
            _ => "fontlift"@,
        }
    }

    /// The directory used where the platform names no per-user data directory.
    pub open spec fn fallback_data_dir_text(self) -> Seq<char> {
        match self {
            Platform::Windows => "C:\\ProgramData"@,
            _ => "/tmp"@,
        }
    }

    /// The folder of this program below the per-user data directory.
    pub fn data_folder(self) -> (folder: &'static str)
        ensures
            folder@ == self.data_folder_text(),
    {
        match self {
            Platform::MacOs => "FontLift",
            Platform::Windows => "FontLift",
            _ => "fontlift",
        }
    }

    /// The directory used where the platform names no per-user data directory.
    pub fn fallback_data_dir(self) -> (dir: &'static str)
        ensures
            dir@ == self.fallback_data_dir_text(),
    {
        match self {
            Platform::Windows => "C:\\ProgramData",
            _ => "/tmp",
        }
    }
}

/// The name of the environment variable that overrides the journal's path.
pub fn journal_path_variable() -> (name: &'static str)
    ensures
        name@ == "FONTLIFT_JOURNAL_PATH"@,
{
    "FONTLIFT_JOURNAL_PATH"
}

/// The name of the environment variable that names a sandbox root, under
/// which the journal then lives.
pub fn sandbox_root_variable() -> (name: &'static str)
    ensures
        name@ == "FONTLIFT_FAKE_REGISTRY_ROOT"@,
{
    "FONTLIFT_FAKE_REGISTRY_ROOT"
}

/// The journal's path. The first of these that applies decides: the explicit
/// override, as it is; the sandbox root, joined with `journal.json`; the
/// per-user data directory (or the platform's fallback), joined with the
/// program's folder and `journal.json`.
pub open spec fn journal_path_of(
    explicit: Option<Seq<char>>,
    sandbox_root: Option<Seq<char>>,
    data_dir: Option<Seq<char>>,
    platform: Platform,
) -> Seq<char> {
    match explicit {
        Some(path) => path,
        None => match sandbox_root {
            Some(root) => paths::joined(root, "journal.json"@),
            None => {
                let base = match data_dir {
                    Some(dir) => dir,
                    None => platform.fallback_data_dir_text(),
                };
                paths::joined(paths::joined(base, platform.data_folder_text()), "journal.json"@)
            },
        },
    }
}

/// The journal's path, from what the environment holds: the value of the
/// override variable, the value of the sandbox variable, and the per-user
/// data directory of the platform, each where there is one.
pub fn journal_path(
    explicit: Option<&str>,
    sandbox_root: Option<&str>,
    data_dir: Option<&str>,
    platform: Platform,
) -> (path: String)
    ensures
        path@ == journal_path_of(
            paths::opt_str_text(explicit),
            paths::opt_str_text(sandbox_root),
            paths::opt_str_text(data_dir),
            platform,
        ),
{
    if let Some(path) = explicit {
        return String::from_str(path);
    }
    if let Some(root) = sandbox_root {
        return paths::join(root, "journal.json");
    }
    let base = match data_dir {
        Some(dir) => dir,
        None => platform.fallback_data_dir(),
    };
    let folder = paths::join(base, platform.data_folder());
    paths::join(folder.as_str(), "journal.json")
}

/// What reading the journal file gave.
#[derive(Debug)]
pub enum JournalFile {
    /// There is no file.
    Missing,
    /// The file is there and could not be read; the cause, in words.
    Unreadable(String),
    /// The file was read and is not a journal; the cause, in words.
    Malformed(String),
    /// The journal that the file holds.
    Parsed(Journal),
}

/// The journal that a run starts from, or the error that stops it: no file
/// means no operation in flight, and so the empty journal; a file that
/// cannot be read or is not a journal is an error, never an empty journal.
pub open spec fn loaded(file: JournalFile) -> Result<Seq<JournalEntryView>, JournalErrorView> {
    match file {
        JournalFile::Missing => Ok(Seq::empty()),
        JournalFile::Unreadable(cause) => Err(
            JournalErrorView::IoError("Failed to read journal: "@ + cause@),
        ),
        JournalFile::Malformed(cause) => Err(
            JournalErrorView::InvalidFormat("Failed to parse journal: "@ + cause@),
        ),
        JournalFile::Parsed(journal) => Ok(journal@),
    }
}

/// The journal that a run starts from, given what reading the file gave.
pub fn load_journal(file: JournalFile) -> (res: Result<Journal, JournalError>)
    ensures
        match res {
            Ok(journal) => loaded(file) == Ok::<Seq<JournalEntryView>, JournalErrorView>(journal@),
            Err(e) => loaded(file) == Err::<Seq<JournalEntryView>, JournalErrorView>(e@),
        },
{
    match file {
        JournalFile::Missing => Ok(Journal::new()),
        JournalFile::Unreadable(cause) => {
            let mut text = String::from_str("Failed to read journal: ");
            text.append(cause.as_str());
            Err(JournalError::IoError(text))
        },
        JournalFile::Malformed(cause) => {
            let mut text = String::from_str("Failed to parse journal: ");
            text.append(cause.as_str());
            Err(JournalError::InvalidFormat(text))
        },
        JournalFile::Parsed(journal) => Ok(journal),
    }
}

/// The paths that replacing the journal file goes through.
#[derive(Debug)]
pub struct SavePlan {
    /// The directory to create first, where the path has one.
    pub parent: Option<String>,
    /// The sibling that the new journal is written to in full.
    pub temp_path: String,
    /// The journal's path, which the sibling is then renamed to.
    pub path: String,
}

/// The steps of replacing the journal file, in their order.
#[derive(Debug, Clone, Copy, PartialEq, Eq, Structural)]
pub enum SaveStage {
    /// Creating the parent directory.
    CreateParent,
    /// Writing the journal out as text.
    Serialize,
    /// Writing the text to the temporary sibling.
    WriteTemp,
    /// Renaming the sibling to the journal's path.
    Rename,
}

/// How the journal at `path` is replaced: the new journal is written in full
/// to the sibling with the extension `json.tmp`, which is then renamed to
/// `path`, so that the file is always the old journal or the new one.
pub fn save_plan(path: &str) -> (plan: SavePlan)
    ensures
        plan.path@ == path@,
        plan.temp_path@ == paths::with_extension_of(path@, "json.tmp"@),
        crate::opt_text(plan.parent) == paths::parent_of(path@),
{
    let parent = match paths::parent(path) {
        Some(dir) => Some(String::from_str(dir)),
        None => None,
    };
    proof {
        reveal_strlit("json.tmp");
    }
    assert(paths::is_plain_extension("json.tmp"@));
    SavePlan {
        parent,
        temp_path: paths::with_extension(path, "json.tmp"),
        path: String::from_str(path),
    }
}

/// The error for a step of saving that failed with `cause`.
pub open spec fn save_failure_of(stage: SaveStage, cause: Seq<char>) -> JournalErrorView {
    match stage {
        SaveStage::CreateParent => JournalErrorView::IoError(cause),
        SaveStage::Serialize => JournalErrorView::InvalidFormat(
            "Failed to serialize journal: "@ + cause,
        ),
        SaveStage::WriteTemp => JournalErrorView::IoError(
            "Failed to write journal temp file: "@ + cause,
        ),
        SaveStage::Rename => JournalErrorView::IoError("Failed to rename journal file: "@ + cause),
    }
}

/// The error for a step of saving that failed with `cause`.
pub fn save_failure(stage: SaveStage, cause: &str) -> (err: JournalError)
    ensures
        err@ == save_failure_of(stage, cause@),
{
    match stage {
        SaveStage::CreateParent => JournalError::IoError(String::from_str(cause)),
        SaveStage::Serialize => {
            let mut text = String::from_str("Failed to serialize journal: ");
            text.append(cause);
            JournalError::InvalidFormat(text)
        },
        SaveStage::WriteTemp => {
            let mut text = String::from_str("Failed to write journal temp file: ");
            text.append(cause);
            JournalError::IoError(text)
        },
        SaveStage::Rename => {
            let mut text = String::from_str("Failed to rename journal file: ");
            text.append(cause);
            JournalError::IoError(text)
        },
    }
}

} // verus!
