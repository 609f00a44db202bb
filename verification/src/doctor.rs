//! The doctor: what it does for each action that recovery offers it, and how
//! it sums up a recovery.

use vstd::prelude::*;
use vstd::string::StringExecFns;
use crate::journal::action::{JournalAction, JournalActionView};
use crate::journal::policy::{policy_for, RecoveryPolicy};
use crate::journal::recovery::{attempts_view, ActionRecoveryResult, AttemptView};
use crate::text;
use crate::{FontError, FontErrorView};

verus! {

/// What the doctor does with an action.
#[derive(Debug, Clone, Copy, PartialEq, Eq, Structural)]
pub enum DoctorStep {
    /// Nothing; the action counts as done.
    Done,
    /// Nothing; the action counts as failed and is left to the user.
    Unresolved,
    /// Copy the file of the action from its source to its destination.
    Copy,
    /// Delete the file of the action.
    Delete,
}

/// What the doctor does with `action` under `policy`, given whether the
/// source of a copy and the decisive path of the action exist. Skipped
/// actions are done. A copy is done where the destination is there, made
/// where only the source is, and failed where neither is. A deletion is made
/// where the file is there and done where it is gone. Registrations are left
/// to the user, clearing caches is done, and nothing is rolled back.
pub open spec fn doctor_step_of(
    action: JournalActionView,
    policy: RecoveryPolicy,
    source_exists: bool,
    target_exists: bool,
) -> DoctorStep {
    match policy {
        RecoveryPolicy::Skip => DoctorStep::Done,
        RecoveryPolicy::RollForward => match action {
            JournalActionView::CopyFile { .. } => if target_exists {
                DoctorStep::Done
            } else if source_exists {
                DoctorStep::Copy
            } else {
                DoctorStep::Unresolved
            },
            JournalActionView::DeleteFile { .. } => if target_exists {
                DoctorStep::Delete
            } else {
                DoctorStep::Done
            },
            JournalActionView::RegisterFont { .. } => DoctorStep::Unresolved,
            JournalActionView::UnregisterFont { .. } => DoctorStep::Unresolved,
            JournalActionView::ClearCache { .. } => DoctorStep::Done,
        },
        RecoveryPolicy::RollBack => match action {
            JournalActionView::ClearCache { .. } => DoctorStep::Done,
            _ => DoctorStep::Unresolved,
        },
    }
}

/// What the doctor does with `action` under `policy`.
pub fn doctor_step(
    action: &JournalAction,
    policy: RecoveryPolicy,
    source_exists: bool,
    target_exists: bool,
) -> (step: DoctorStep)
    ensures
        step == doctor_step_of(action@, policy, source_exists, target_exists),
{
    match policy {
        RecoveryPolicy::Skip => DoctorStep::Done,
        RecoveryPolicy::RollForward => match action {
            JournalAction::CopyFile { .. } => if target_exists {
                DoctorStep::Done
            } else if source_exists {
                DoctorStep::Copy
            } else {
                DoctorStep::Unresolved
            },
            JournalAction::DeleteFile { .. } => if target_exists {
                DoctorStep::Delete
            } else {
                DoctorStep::Done
            },
            JournalAction::RegisterFont { .. } => DoctorStep::Unresolved,
            JournalAction::UnregisterFont { .. } => DoctorStep::Unresolved,
            JournalAction::ClearCache { .. } => DoctorStep::Done,
        },
        RecoveryPolicy::RollBack => match action {
            JournalAction::ClearCache { .. } => DoctorStep::Done,
            _ => DoctorStep::Unresolved,
        },
    }
}

/// The policy for `action` on a disk, the disk taken as the set of paths at
/// which something exists.
pub open spec fn policy_on(action: JournalActionView, disk: Set<Seq<char>>) -> RecoveryPolicy {
    match action.decisive_path() {
        Some(path) => policy_for(action, disk.contains(path)),
        None => policy_for(action, false),
    }
}

/// What the doctor does with `action` on a disk: the step for the policy
/// that the disk gives and for what the disk holds of the action's paths.
pub open spec fn step_on(action: JournalActionView, disk: Set<Seq<char>>) -> DoctorStep {
    doctor_step_of(
        action,
        policy_on(action, disk),
        action matches JournalActionView::CopyFile { from, to } && disk.contains(from),
        action.decisive_path() matches Some(path) && disk.contains(path),
    )
}

/// The disk after a step that went through: a copy puts something at the
/// destination, a deletion leaves nothing at the path, every other step
/// leaves the disk as it is.
pub open spec fn disk_after(
    action: JournalActionView,
    step: DoctorStep,
    disk: Set<Seq<char>>,
) -> Set<Seq<char>> {
    match (step, action) {
        (DoctorStep::Copy, JournalActionView::CopyFile { from, to }) => disk.insert(to),
        (DoctorStep::Delete, JournalActionView::DeleteFile { path }) => disk.remove(path),
        _ => disk,
    }
}

/// A skipped action is done without a step on the disk, whatever the action
/// and whatever the disk holds.
pub proof fn lemma_skipped_action_touches_nothing(
    action: JournalActionView,
    source_exists: bool,
    target_exists: bool,
    disk: Set<Seq<char>>,
)
    ensures
        doctor_step_of(action, RecoveryPolicy::Skip, source_exists, target_exists)
            == DoctorStep::Done,
        disk_after(action, DoctorStep::Done, disk) == disk,
{
}

/// A copy whose source is there and whose destination is not is made: the
/// destination is there afterwards, and the source still is. A copy whose
/// destination is there is skipped, and the disk stays as it is.
pub proof fn lemma_copy_on_disk(from: Seq<char>, to: Seq<char>, disk: Set<Seq<char>>)
    ensures
        disk.contains(from) && !disk.contains(to) ==> {
            let action = JournalActionView::CopyFile { from, to };
            &&& policy_on(action, disk) == RecoveryPolicy::RollForward
            &&& step_on(action, disk) == DoctorStep::Copy
            &&& disk_after(action, step_on(action, disk), disk).contains(to)
            &&& disk_after(action, step_on(action, disk), disk).contains(from)
        },
        disk.contains(to) ==> {
            let action = JournalActionView::CopyFile { from, to };
            &&& policy_on(action, disk) == RecoveryPolicy::Skip
            &&& step_on(action, disk) == DoctorStep::Done
            &&& disk_after(action, step_on(action, disk), disk) == disk
        },
{
}

/// What the doctor has done once need not be done again: after a step that
/// was not left unresolved, the same action on the disk that the step left
/// is done without a further step, the disk stays as it is, and a copy or a
/// deletion is then skipped by policy.
pub proof fn lemma_doctor_step_is_idempotent(action: JournalActionView, disk: Set<Seq<char>>)
    requires
        step_on(action, disk) != DoctorStep::Unresolved,
    ensures
        ({
            let after = disk_after(action, step_on(action, disk), disk);
            &&& step_on(action, after) == DoctorStep::Done
            &&& disk_after(action, step_on(action, after), after) == after
            &&& action.decisive_path() is Some ==> policy_on(action, after) == RecoveryPolicy::Skip
        }),
{
}

/// What the doctor reports of a step: done and unresolved steps at once; a
/// copy or deletion by how the file operation ended, an error of which is
/// passed on as an I/O error.
pub open spec fn step_outcome_of(step: DoctorStep, failure: Option<Seq<char>>) -> Result<
    bool,
    FontErrorView,
> {
    match step {
        DoctorStep::Done => Ok(true),
        DoctorStep::Unresolved => Ok(false),
        _ => match failure {
            Some(cause) => Err(FontErrorView::IoError(cause)),
            None => Ok(true),
        },
    }
}

/// What the doctor reports of a step, given the error of the file operation
/// where one was made and failed.
pub fn step_outcome(step: DoctorStep, failure: Option<&str>) -> (res: Result<bool, FontError>)
    ensures
        match res {
            Ok(done) => step_outcome_of(step, crate::paths::opt_str_text(failure)) == Ok::<
                bool,
                FontErrorView,
            >(done),
            Err(e) => step_outcome_of(step, crate::paths::opt_str_text(failure)) == Err::<
                bool,
                FontErrorView,
            >(e@),
        },
{
    match step {
        DoctorStep::Done => Ok(true),
        DoctorStep::Unresolved => Ok(false),
        _ => match failure {
            Some(cause) => Err(FontError::IoError(String::from_str(cause))),
            None => Ok(true),
        },
    }
}

/// How many of `attempts` succeeded.
pub open spec fn succeeded_count(attempts: Seq<AttemptView>) -> nat
    decreases attempts.len(),
{
    if attempts.len() == 0 {
        0
    } else {
        succeeded_count(attempts.drop_last()) + if attempts.last().success {
            1nat
        } else {
            0nat
        }
    }
}

/// How many attempts succeeded and how many failed.
pub fn tally(results: &Vec<ActionRecoveryResult>) -> (counts: (usize, usize))
    ensures
        counts.0 == succeeded_count(attempts_view(results@)),
        counts.0 + counts.1 == results@.len(),
{
    let mut succeeded: usize = 0;
    let mut i: usize = 0;
    let ghost attempts = attempts_view(results@);
    assert(attempts.take(0) =~= Seq::<AttemptView>::empty());
    while i < results.len()
        invariant
            i <= results.len(),
            attempts == attempts_view(results@),
            succeeded <= i,
            succeeded == succeeded_count(attempts.take(i as int)),
        decreases results.len() - i,
    {
        assert(attempts.take(i + 1).drop_last() =~= attempts.take(i as int));
        assert(attempts.take(i + 1).last() == results@[i as int]@);
        if results[i].success {
            succeeded += 1;
        }
        i += 1;
    }
    assert(attempts.take(i as int) =~= attempts);
    (succeeded, results.len() - succeeded)
}

/// The closing line of a recovery: the failures if there were any, else the
/// successes if there were any, else that nothing was to do.
pub open spec fn summary_of(succeeded: nat, failed: nat) -> Seq<char> {
    if failed > 0 {
        "⚠️  Recovery completed with "@ + text::decimal_of(succeeded) + " success, "@
            + text::decimal_of(failed) + " failure(s)"@
    } else if succeeded > 0 {
        "✅ Successfully recovered "@ + text::decimal_of(succeeded) + " action(s)"@
    } else {
        "✅ No recovery actions needed"@
    }
}

/// The closing line of a recovery.
pub fn summary(succeeded: usize, failed: usize) -> (line: String)
    ensures
        line@ == summary_of(succeeded as nat, failed as nat),
{
    if failed > 0 {
        let mut line = String::from_str("⚠️  Recovery completed with ");
        line.append(text::decimal(succeeded as u64).as_str());
        line.append(" success, ");
        line.append(text::decimal(failed as u64).as_str());
        line.append(" failure(s)");
        line
    } else if succeeded > 0 {
        let mut line = String::from_str("✅ Successfully recovered ");
        line.append(text::decimal(succeeded as u64).as_str());
        line.append(" action(s)");
        line
    } else {
        String::from_str("✅ No recovery actions needed")
    }
}

/// The line that shows how far an entry has come.
pub fn progress_line(current_step: usize, total: usize) -> (line: String)
    ensures
        line@ == "  Progress: step "@ + text::decimal_of(current_step as nat) + " of "@
            + text::decimal_of(total as nat),
{
    let mut line = String::from_str("  Progress: step ");
    line.append(text::decimal(current_step as u64).as_str());
    line.append(" of ");
    line.append(text::decimal(total as u64).as_str());
    line
}

/// The line that shows one remaining action under its step number.
pub fn action_line(step_number: usize, action: &JournalAction) -> (line: String)
    ensures
        line@ == "  ["@ + text::decimal_of(step_number as nat) + "] "@ + action@.description(),
{
    let mut line = String::from_str("  [");
    line.append(text::decimal(step_number as u64).as_str());
    line.append("] ");
    line.append(action.description().as_str());
    line
}

} // verus!
