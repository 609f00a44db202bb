//! One primitive step of a journalled operation.

use vstd::prelude::*;
use vstd::string::StringExecFns;
use crate::FontScope;

verus! {

/// A step that an operation records before it is carried out.
#[derive(Debug)]
pub enum JournalAction {
    /// Copy a file from `from` to `to`.
    CopyFile { from: String, to: String },
    /// Register the font at `path` with the operating system.
    RegisterFont { path: String, scope: FontScope },
    /// Unregister the font at `path` from the operating system.
    UnregisterFont { path: String, scope: FontScope },
    /// Delete the file at `path`.
    DeleteFile { path: String },
    /// Clear the font caches of `scope`.
    ClearCache { scope: FontScope },
}

/// The mathematical value of a [`JournalAction`].
pub enum JournalActionView {
    CopyFile { from: Seq<char>, to: Seq<char> },
    RegisterFont { path: Seq<char>, scope: FontScope },
    UnregisterFont { path: Seq<char>, scope: FontScope },
    DeleteFile { path: Seq<char> },
    ClearCache { scope: FontScope },
}

impl JournalActionView {
    /// The sentence that describes the action.
    pub open spec fn description(self) -> Seq<char> {
        match self {
            JournalActionView::CopyFile { from, to } => "Copy "@ + from + " to "@ + to,
            JournalActionView::RegisterFont { path, scope } => "Register "@ + path + " ("@
                + scope.name_text() + ")"@,
            JournalActionView::UnregisterFont { path, scope } => "Unregister "@ + path + " ("@
                + scope.name_text() + ")"@,
            JournalActionView::DeleteFile { path } => "Delete "@ + path,
            JournalActionView::ClearCache { scope } => "Clear caches ("@ + scope.name_text()
                + ")"@,
        }
    }
}

impl View for JournalAction {
    type V = JournalActionView;

    open spec fn view(&self) -> JournalActionView {
        match self {
            JournalAction::CopyFile { from, to } => JournalActionView::CopyFile {
                from: from@,
                to: to@,
            },
            JournalAction::RegisterFont { path, scope } => JournalActionView::RegisterFont {
                path: path@,
                scope: *scope,
            },
            JournalAction::UnregisterFont { path, scope } => JournalActionView::UnregisterFont {
                path: path@,
                scope: *scope,
            },
            JournalAction::DeleteFile { path } => JournalActionView::DeleteFile { path: path@ },
            JournalAction::ClearCache { scope } => JournalActionView::ClearCache { scope: *scope },
        }
    }
}

impl Clone for JournalAction {
    fn clone(&self) -> (res: Self)
        ensures
            res@ == self@,
    {
        match self {
            JournalAction::CopyFile { from, to } => JournalAction::CopyFile {
                from: from.clone(),
                to: to.clone(),
            },
            JournalAction::RegisterFont { path, scope } => JournalAction::RegisterFont {
                path: path.clone(),
                scope: *scope,
            },
            JournalAction::UnregisterFont { path, scope } => JournalAction::UnregisterFont {
                path: path.clone(),
                scope: *scope,
            },
            JournalAction::DeleteFile { path } => JournalAction::DeleteFile { path: path.clone() },
            JournalAction::ClearCache { scope } => JournalAction::ClearCache { scope: *scope },
        }
    }
}

impl PartialEq for JournalAction {
    fn eq(&self, other: &Self) -> (equal: bool) {
        match (self, other) {
            (
                JournalAction::CopyFile { from: from_a, to: to_a },
                JournalAction::CopyFile { from: from_b, to: to_b },
            ) => *from_a == *from_b && *to_a == *to_b,
            (
                JournalAction::RegisterFont { path: path_a, scope: scope_a },
                JournalAction::RegisterFont { path: path_b, scope: scope_b },
            ) => *path_a == *path_b && *scope_a == *scope_b,
            (
                JournalAction::UnregisterFont { path: path_a, scope: scope_a },
                JournalAction::UnregisterFont { path: path_b, scope: scope_b },
            ) => *path_a == *path_b && *scope_a == *scope_b,
            (JournalAction::DeleteFile { path: path_a }, JournalAction::DeleteFile { path: path_b }) => *path_a
                == *path_b,
            (JournalAction::ClearCache { scope: scope_a }, JournalAction::ClearCache { scope: scope_b }) => *scope_a
                == *scope_b,
            _ => false,
        }
    }
}

impl Eq for JournalAction {

}

impl vstd::std_specs::cmp::PartialEqSpecImpl for JournalAction {
    open spec fn obeys_eq_spec() -> bool {
        true
    }

    open spec fn eq_spec(&self, other: &Self) -> bool {
        self@ == other@
    }
}

impl JournalAction {
    /// A sentence that describes the action, for reports and inspection.
    pub fn description(&self) -> (text: String)
        ensures
            text@ == self@.description(),
    {
        match self {
            JournalAction::CopyFile { from, to } => {
                let mut text = String::from_str("Copy ");
                text.append(from.as_str());
                text.append(" to ");
                text.append(to.as_str());
                text
            },
            JournalAction::RegisterFont { path, scope } => {
                let mut text = String::from_str("Register ");
                text.append(path.as_str());
                text.append(" (");
                text.append(scope.name());
                text.append(")");
                text
            },
            JournalAction::UnregisterFont { path, scope } => {
                let mut text = String::from_str("Unregister ");
                text.append(path.as_str());
                text.append(" (");
                text.append(scope.name());
                text.append(")");
                text
            },
            JournalAction::DeleteFile { path } => {
                let mut text = String::from_str("Delete ");
                text.append(path.as_str());
                text
            },
            JournalAction::ClearCache { scope } => {
                let mut text = String::from_str("Clear caches (");
                text.append(scope.name());
                text.append(")");
                text
            },
        }
    }
}

} // verus!
