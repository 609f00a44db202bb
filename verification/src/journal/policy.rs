//! How an action that an interrupted operation left undone is treated.

use vstd::prelude::*;
use crate::journal::action::{JournalAction, JournalActionView};
use crate::paths;

verus! {

/// What recovery does with an action that is not yet done.
#[derive(Debug, Clone, Copy, PartialEq, Eq, Structural)]
pub enum RecoveryPolicy {
    /// Carry the action out.
    RollForward,
    /// Undo what was done.
    RollBack,
    /// Count the action as done without carrying it out.
    Skip,
}

impl JournalActionView {
    /// The path whose presence on disk decides the policy: the destination of
    /// a copy, the file of a deletion, none for the other actions.
    pub open spec fn decisive_path(self) -> Option<Seq<char>> {
        match self {
            JournalActionView::CopyFile { from, to } => Some(to),
            JournalActionView::DeleteFile { path } => Some(path),
            _ => None,
        }
    }
}

/// The policy for `action` when its decisive path is present on disk
/// (`target_exists`) or absent. A copy whose destination is there is skipped,
/// else rolled forward; a deletion whose file is there is rolled forward, else
/// skipped; registrations are always rolled forward; cache clearing is always
/// skipped.
pub open spec fn policy_for(action: JournalActionView, target_exists: bool) -> RecoveryPolicy {
    match action {
        JournalActionView::CopyFile { .. } => if target_exists {
            RecoveryPolicy::Skip
        } else {
            RecoveryPolicy::RollForward
        },
        JournalActionView::DeleteFile { .. } => if target_exists {
            RecoveryPolicy::RollForward
        } else {
            RecoveryPolicy::Skip
        },
        JournalActionView::RegisterFont { .. } => RecoveryPolicy::RollForward,
        JournalActionView::UnregisterFont { .. } => RecoveryPolicy::RollForward,
        JournalActionView::ClearCache { .. } => RecoveryPolicy::Skip,
    }
}

/// Whether `policy` is what some state of the disk gives for `action`.
pub open spec fn policy_fits(action: JournalActionView, policy: RecoveryPolicy) -> bool {
    policy == policy_for(action, true) || policy == policy_for(action, false)
}

impl JournalAction {
    /// The path whose presence on disk decides the recovery policy.
    pub fn decisive_path(&self) -> (path: Option<&str>)
        ensures
            paths::opt_str_text(path) == self@.decisive_path(),
    {
        match self {
            JournalAction::CopyFile { from, to } => Some(to.as_str()),
            JournalAction::DeleteFile { path } => Some(path.as_str()),
            _ => None,
        }
    }
}

/// The recovery policy for `action`, given whether its decisive path is
/// present on disk.
pub fn recovery_policy_for(action: &JournalAction, target_exists: bool) -> (policy: RecoveryPolicy)
    ensures
        policy == policy_for(action@, target_exists),
{
    match action {
        JournalAction::CopyFile { .. } => if target_exists {
            RecoveryPolicy::Skip
        } else {
            RecoveryPolicy::RollForward
        },
        JournalAction::DeleteFile { .. } => if target_exists {
            RecoveryPolicy::RollForward
        } else {
            RecoveryPolicy::Skip
        },
        JournalAction::RegisterFont { .. } => RecoveryPolicy::RollForward,
        JournalAction::UnregisterFont { .. } => RecoveryPolicy::RollForward,
        JournalAction::ClearCache { .. } => RecoveryPolicy::Skip,
    }
}

/// The recovery policy for `action` as the disk stands now. The disk is only
/// looked at, for the decisive path of a copy or a deletion; whatever it
/// shows, the policy is one that [`policy_for`] gives for the action.
pub fn determine_recovery_policy(action: &JournalAction) -> (policy: RecoveryPolicy)
    ensures
        policy_fits(action@, policy),
        action@.decisive_path() is None ==> policy == policy_for(action@, false),
{
    let target_exists = match action.decisive_path() {
        Some(path) => paths::is_present(path),
        None => false,
    };
    recovery_policy_for(action, target_exists)
}

/// The policy is a function of the action and of the presence of its
/// decisive path: equal inputs give the equal policy.
pub proof fn lemma_policy_is_a_function(
    a: JournalActionView,
    a_exists: bool,
    b: JournalActionView,
    b_exists: bool,
)
    requires
        a == b,
        a_exists == b_exists,
    ensures
        policy_for(a, a_exists) == policy_for(b, b_exists),
{
}

/// For an action without a decisive path the disk does not matter.
pub proof fn lemma_policy_ignores_disk_without_decisive_path(a: JournalActionView)
    requires
        a.decisive_path() is None,
    ensures
        policy_for(a, true) == policy_for(a, false),
{
}

/// Work that is done is skipped: a copy whose destination is there and a
/// deletion whose file is gone are not carried out again.
pub proof fn lemma_done_work_is_skipped(a: JournalActionView)
    ensures
        a is CopyFile ==> policy_for(a, true) == RecoveryPolicy::Skip,
        a is DeleteFile ==> policy_for(a, false) == RecoveryPolicy::Skip,
        a is ClearCache ==> policy_for(a, true) == RecoveryPolicy::Skip && policy_for(a, false)
            == RecoveryPolicy::Skip,
{
}

/// Every action has a policy, and it is never to roll back.
pub proof fn lemma_policy_never_rolls_back(a: JournalActionView, target_exists: bool)
    ensures
        policy_for(a, target_exists) == RecoveryPolicy::RollForward || policy_for(a, target_exists)
            == RecoveryPolicy::Skip,
{
}

} // verus!
