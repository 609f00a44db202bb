//! The action lists that the platform managers record before they touch the
//! system.

use vstd::prelude::*;
use vstd::string::StringExecFns;
use crate::journal::action::{JournalAction, JournalActionView};
use crate::journal::entry::actions_view;
use crate::text::{eq_ignore_ascii_case, same_ignoring_ascii_case};
use crate::FontScope;

verus! {

/// Whether two paths are the same but for the case of their ASCII letters.
pub fn paths_equal_case_insensitive(left: &str, right: &str) -> (same: bool)
    ensures
        same == same_ignoring_ascii_case(left@, right@),
{
    eq_ignore_ascii_case(left, right)
}

/// The steps of installing the font at `source` as `target`: the copy, unless
/// the two paths are the same but for case, then the registration.
pub open spec fn install_actions_of(
    source: Seq<char>,
    target: Seq<char>,
    scope: FontScope,
) -> Seq<JournalActionView> {
    if same_ignoring_ascii_case(source, target) {
        seq![JournalActionView::RegisterFont { path: target, scope }]
    } else {
        seq![
            JournalActionView::CopyFile { from: source, to: target },
            JournalActionView::RegisterFont { path: target, scope },
        ]
    }
}

/// The steps of removing the font installed at `target`: it is unregistered,
/// then its file is deleted.
pub open spec fn remove_actions_of(target: Seq<char>, scope: FontScope) -> Seq<JournalActionView> {
    seq![
        JournalActionView::UnregisterFont { path: target, scope },
        JournalActionView::DeleteFile { path: target },
    ]
}

/// The actions to record before installing the font at `source_path` as
/// `target_path`.
pub fn install_journal_actions(source_path: &str, target_path: &str, scope: FontScope) -> (actions:
    Vec<JournalAction>)
    ensures
        actions_view(actions@) == install_actions_of(source_path@, target_path@, scope),
{
    let mut actions: Vec<JournalAction> = Vec::new();
    if !paths_equal_case_insensitive(source_path, target_path) {
        actions.push(
            JournalAction::CopyFile {
                from: String::from_str(source_path),
                to: String::from_str(target_path),
            },
        );
    }
    actions.push(JournalAction::RegisterFont { path: String::from_str(target_path), scope });
    assert(actions_view(actions@) =~= install_actions_of(source_path@, target_path@, scope));
    actions
}

/// The actions to record before removing the font installed at `target_path`.
pub fn remove_journal_actions(target_path: &str, scope: FontScope) -> (actions: Vec<JournalAction>)
    ensures
        actions_view(actions@) == remove_actions_of(target_path@, scope),
{
    let mut actions: Vec<JournalAction> = Vec::new();
    actions.push(JournalAction::UnregisterFont { path: String::from_str(target_path), scope });
    actions.push(JournalAction::DeleteFile { path: String::from_str(target_path) });
    assert(actions_view(actions@) =~= remove_actions_of(target_path@, scope));
    actions
}

} // verus!
