//! The recovery executor: it walks the incomplete entries of a journal,
//! offers each remaining action to a handler under its policy, and advances
//! or halts each entry by what the handler reports.

use vstd::prelude::*;
use crate::journal::action::{JournalAction, JournalActionView};
use crate::journal::entry::{JournalEntry, JournalEntryView};
use crate::journal::log::Journal;
use crate::journal::policy::{determine_recovery_policy, policy_fits, RecoveryPolicy};
use crate::{opt_text, FontError};

verus! {

/// What became of one action during recovery.
#[derive(Debug)]
pub struct ActionRecoveryResult {
    /// The action that was offered to the handler.
    pub action: JournalAction,
    /// The policy under which it was offered.
    pub policy: RecoveryPolicy,
    /// Whether the handler reported the action as done.
    pub success: bool,
    /// The handler's error, where it returned one.
    pub message: Option<String>,
}

/// The mathematical value of an [`ActionRecoveryResult`].
pub struct AttemptView {
    pub action: JournalActionView,
    pub policy: RecoveryPolicy,
    pub success: bool,
    pub message: Option<Seq<char>>,
}

impl View for ActionRecoveryResult {
    type V = AttemptView;

    open spec fn view(&self) -> AttemptView {
        AttemptView {
            action: self.action@,
            policy: self.policy,
            success: self.success,
            message: opt_text(self.message),
        }
    }
}

/// The values of a sequence of results.
pub open spec fn attempts_view(results: Seq<ActionRecoveryResult>) -> Seq<AttemptView> {
    results.map_values(|r: ActionRecoveryResult| r@)
}

/// An action counts as done exactly when the handler returned `Ok(true)`.
pub open spec fn outcome_success(outcome: Result<bool, FontError>) -> bool {
    outcome matches Ok(done) && done
}

/// The message kept of an outcome: that of the error, if it is one.
pub open spec fn outcome_message(outcome: Result<bool, FontError>) -> Option<Seq<char>> {
    match outcome {
        Ok(_) => None,
        Err(e) => Some(e@.message()),
    }
}

impl ActionRecoveryResult {
    /// The record of one attempt: `action` was offered under `policy` and the
    /// handler returned `outcome`.
    pub fn from_outcome(
        action: JournalAction,
        policy: RecoveryPolicy,
        outcome: &Result<bool, FontError>,
    ) -> (result: Self)
        ensures
            result.action == action,
            result@ == (AttemptView {
                action: action@,
                policy,
                success: outcome_success(*outcome),
                message: outcome_message(*outcome),
            }),
    {
        match outcome {
            Ok(done) => ActionRecoveryResult { action, policy, success: *done, message: None },
            Err(e) => ActionRecoveryResult {
                action,
                policy,
                success: false,
                message: Some(e.message()),
            },
        }
    }
}

/// Whether `result` records a call of `handler`: the handler can return some
/// outcome for an action of the recorded value under the recorded policy, and
/// success and message are those of that outcome.
pub open spec fn genuine<H: Fn(&JournalAction, RecoveryPolicy) -> Result<bool, FontError>>(
    handler: H,
    result: ActionRecoveryResult,
) -> bool {
    exists|a: JournalAction, outcome: Result<bool, FontError>|
        a@ == result.action@ && #[trigger] call_ensures(handler, (&a, result.policy), outcome)
            && result.success == outcome_success(outcome) && opt_text(result.message)
            == outcome_message(outcome)
}

/// How many of `attempts` succeeded, given that only the last may have failed.
pub open spec fn successes(attempts: Seq<AttemptView>) -> nat {
    if attempts.len() > 0 && !attempts.last().success {
        (attempts.len() - 1) as nat
    } else {
        attempts.len()
    }
}

/// Whether `attempts` is what one pass makes of entry `e`: nothing for an
/// entry that is not incomplete; else its remaining actions in order, each
/// under a fitting policy, every attempt but the last a success, and short of
/// the end only where the last attempt failed.
pub open spec fn attempts_follow(e: JournalEntryView, attempts: Seq<AttemptView>) -> bool {
    if e.is_incomplete() {
        let remaining = e.remaining_actions();
        &&& attempts.len() <= remaining.len()
        &&& forall|j: int|
            0 <= j < attempts.len() ==> (#[trigger] attempts[j]).action == remaining[j]
                && policy_fits(attempts[j].action, attempts[j].policy)
        &&& forall|j: int| 0 <= j < attempts.len() - 1 ==> (#[trigger] attempts[j]).success
        &&& attempts.len() < remaining.len() ==> attempts.len() > 0 && !attempts.last().success
    } else {
        attempts.len() == 0
    }
}

/// Entry `e` after a pass that made `attempts` on it: the cursor has moved on
/// by the number of successes, and the entry is closed exactly when the
/// cursor has reached the end. An entry that was not incomplete is unchanged.
pub open spec fn entry_after(e: JournalEntryView, attempts: Seq<AttemptView>) -> JournalEntryView {
    if e.is_incomplete() {
        let step = e.current_step + successes(attempts);
        JournalEntryView { current_step: step, completed: step >= e.actions.len(), ..e }
    } else {
        e
    }
}

/// How many leading attempts of `stream` a run over `limit` remaining actions
/// takes: it goes on while attempts succeed, and takes the first failure too.
pub open spec fn run_length(limit: nat, stream: Seq<AttemptView>) -> nat
    decreases limit,
{
    if limit == 0 || stream.len() == 0 {
        0
    } else if stream[0].success {
        1 + run_length((limit - 1) as nat, stream.drop_first())
    } else {
        1
    }
}

/// How many leading attempts of `stream` belong to entry `e`.
pub open spec fn share_of(e: JournalEntryView, stream: Seq<AttemptView>) -> nat {
    if e.is_incomplete() {
        run_length(e.remaining_actions().len(), stream)
    } else {
        0
    }
}

/// Whether `stream` is the list of results of one pass over `entries`: the
/// attempts on the first entry, then those on the second, and so on, and
/// nothing more.
pub open spec fn pass_follows(entries: Seq<JournalEntryView>, stream: Seq<AttemptView>) -> bool
    decreases entries.len(),
{
    if entries.len() == 0 {
        stream.len() == 0
    } else {
        let n = share_of(entries[0], stream) as int;
        &&& attempts_follow(entries[0], stream.take(n))
        &&& pass_follows(entries.drop_first(), stream.skip(n))
    }
}

/// The journal after the pass whose results are `stream`.
pub open spec fn journal_after(
    entries: Seq<JournalEntryView>,
    stream: Seq<AttemptView>,
) -> Seq<JournalEntryView>
    decreases entries.len(),
{
    if entries.len() == 0 {
        Seq::empty()
    } else {
        let n = share_of(entries[0], stream) as int;
        seq![entry_after(entries[0], stream.take(n))] + journal_after(
            entries.drop_first(),
            stream.skip(n),
        )
    }
}

/// A run over attempts that follow an entry takes exactly those attempts,
/// whatever comes behind them in the stream.
pub proof fn lemma_run_length_of_followed(
    limit: nat,
    attempts: Seq<AttemptView>,
    rest: Seq<AttemptView>,
)
    requires
        attempts.len() <= limit,
        forall|j: int| 0 <= j < attempts.len() - 1 ==> (#[trigger] attempts[j]).success,
        attempts.len() < limit ==> attempts.len() > 0 && !attempts.last().success,
    ensures
        run_length(limit, attempts + rest) == attempts.len(),
    decreases limit,
{
    let stream = attempts + rest;
    if limit == 0 {
    } else {
        assert(attempts.len() > 0) by {
            if attempts.len() == 0 {
                assert(attempts.len() < limit);
            }
        }
        assert(stream[0] == attempts[0]);
        if attempts[0].success {
            assert(stream.drop_first() =~= attempts.drop_first() + rest);
            let tail = attempts.drop_first();
            assert forall|j: int| 0 <= j < tail.len() - 1 implies (#[trigger] tail[j]).success by {
                assert(tail[j] == attempts[j + 1]);
            }
            if tail.len() < limit - 1 {
                assert(attempts.len() < limit);
                assert(attempts.len() > 1) by {
                    if attempts.len() == 1 {
                        assert(attempts.last() == attempts[0]);
                    }
                }
                assert(tail.last() == attempts.last());
            }
            lemma_run_length_of_followed((limit - 1) as nat, tail, rest);
        } else {
            assert(attempts.len() == 1) by {
                if attempts.len() > 1 {
                    assert(attempts[0].success);
                }
            }
        }
    }
}

/// The attempts that follow entry `e` are its share of any stream that
/// begins with them.
pub proof fn lemma_share_of_followed(
    e: JournalEntryView,
    attempts: Seq<AttemptView>,
    rest: Seq<AttemptView>,
)
    requires
        attempts_follow(e, attempts),
    ensures
        share_of(e, attempts + rest) == attempts.len(),
{
    if e.is_incomplete() {
        lemma_run_length_of_followed(e.remaining_actions().len(), attempts, rest);
    }
}

/// Where each entry has attempts that follow it, the attempts of all entries
/// laid end to end are the results of one pass, and the journal after that
/// pass is entry by entry what the attempts make of it.
pub proof fn lemma_pass_of_segments(
    entries: Seq<JournalEntryView>,
    segments: Seq<Seq<AttemptView>>,
)
    requires
        segments.len() == entries.len(),
        forall|k: int| 0 <= k < entries.len() ==> attempts_follow(entries[k], #[trigger] segments[k]),
    ensures
        pass_follows(entries, segments.flatten()),
        journal_after(entries, segments.flatten()) =~= Seq::new(
            entries.len(),
            |k: int| entry_after(entries[k], segments[k]),
        ),
    decreases entries.len(),
{
    if entries.len() == 0 {
    } else {
        let stream = segments.flatten();
        let head = segments[0];
        let rest = segments.drop_first().flatten();
        assert(stream == head + rest);
        lemma_share_of_followed(entries[0], head, rest);
        assert(stream.take(head.len() as int) =~= head);
        assert(stream.skip(head.len() as int) =~= rest);
        assert forall|k: int| 0 <= k < entries.drop_first().len() implies attempts_follow(
            entries.drop_first()[k],
            #[trigger] segments.drop_first()[k],
        ) by {
            assert(segments.drop_first()[k] == segments[k + 1]);
            assert(entries.drop_first()[k] == entries[k + 1]);
        }
        lemma_pass_of_segments(entries.drop_first(), segments.drop_first());
        let expected = Seq::new(entries.len(), |k: int| entry_after(entries[k], segments[k]));
        let tail = Seq::new(
            entries.drop_first().len(),
            |k: int| entry_after(entries.drop_first()[k], segments.drop_first()[k]),
        );
        assert(seq![entry_after(entries[0], head)] + tail =~= expected);
    }
}

/// Recovers one entry. Each remaining action, in order, gets its policy and
/// is offered to the handler; a success moves the cursor behind that action,
/// anything else ends the work on this entry. The entry is closed when the
/// cursor has reached the end. The results are appended to `results`.
///
/// An entry that is not incomplete is left as it is and adds no result.
pub fn recover_entry<H: Fn(&JournalAction, RecoveryPolicy) -> Result<bool, FontError>>(
    entry: &mut JournalEntry,
    handler: &H,
    results: &mut Vec<ActionRecoveryResult>,
)
    requires
        forall|a: &JournalAction, p: RecoveryPolicy| call_requires(handler, (a, p)),
    ensures
        final(results)@.len() >= old(results)@.len(),
        final(results)@.take(old(results)@.len() as int) == old(results)@,
        attempts_follow(
            old(entry)@,
            attempts_view(final(results)@.skip(old(results)@.len() as int)),
        ),
        final(entry)@ == entry_after(
            old(entry)@,
            attempts_view(final(results)@.skip(old(results)@.len() as int)),
        ),
        forall|k: int|
            old(results)@.len() <= k < final(results)@.len() ==> genuine(
                *handler,
                #[trigger] final(results)@[k],
            ),
{
    let ghost before = entry@;
    let ghost base = results@.len() as int;
    assert(results@.take(base) =~= old(results)@);
    assert(attempts_view(results@.skip(base)) =~= Seq::<AttemptView>::empty());
    if !entry.is_incomplete() {
        return ;
    }
    let first_step = entry.current_step;
    let total = entry.actions.len();
    let remaining_len = if first_step < total {
        total - first_step
    } else {
        0
    };
    let ghost remaining = before.remaining_actions();
    let mut attempted: usize = 0;
    let mut halted = false;
    while !halted && attempted < remaining_len
        invariant
            forall|a: &JournalAction, p: RecoveryPolicy| call_requires(handler, (a, p)),
            before == old(entry)@,
            before.is_incomplete(),
            remaining == before.remaining_actions(),
            remaining.len() == remaining_len,
            total == entry.actions@.len(),
            first_step == before.current_step,
            remaining_len > 0 ==> first_step + remaining_len == total,
            attempted <= remaining_len,
            base == old(results)@.len(),
            results@.len() == base + attempted,
            results@.take(base) == old(results)@,
            halted ==> attempted > 0 && !results@[base + attempted - 1].success,
            !halted ==> forall|j: int| 0 <= j < attempted ==> (#[trigger] results@[base + j]).success,
            forall|j: int| 0 <= j < attempted - 1 ==> (#[trigger] results@[base + j]).success,
            forall|j: int|
                0 <= j < attempted ==> (#[trigger] results@[base + j]).action@ == remaining[j]
                    && policy_fits(remaining[j], results@[base + j].policy),
            forall|k: int| base <= k < results@.len() ==> genuine(*handler, #[trigger] results@[k]),
            entry@ == (JournalEntryView {
                current_step: (first_step + if halted {
                    attempted - 1
                } else {
                    attempted as int
                }) as nat,
                ..before
            }),
        decreases remaining_len - attempted + if halted { 0int } else { 1int },
    {
        let ghost earlier = results@;
        let index = first_step + attempted;
        let action = &entry.actions[index];
        assert(action@ == remaining[attempted as int]);
        let policy = determine_recovery_policy(action);
        let outcome = handler(action, policy);
        let result = ActionRecoveryResult::from_outcome(action.clone(), policy, &outcome);
        assert(genuine(*handler, result)) by {
            assert(call_ensures(*handler, (action, policy), outcome));
        }
        let success = result.success;
        results.push(result);
        assert(results@.take(base) =~= earlier.take(base));
        assert forall|k: int| base <= k < results@.len() implies genuine(
            *handler,
            #[trigger] results@[k],
        ) by {
            if k < earlier.len() {
                assert(results@[k] == earlier[k]);
            }
        }
        if success {
            entry.current_step = index + 1;
        } else {
            halted = true;
        }
        attempted += 1;
    }
    let ghost attempts = attempts_view(results@.skip(base));
    proof {
        assert(attempts.len() == attempted);
        assert forall|j: int| 0 <= j < attempts.len() implies (#[trigger] attempts[j]).action
            == remaining[j] && policy_fits(attempts[j].action, attempts[j].policy) by {
            assert(attempts[j] == results@[base + j]@);
        }
        assert forall|j: int| 0 <= j < attempts.len() - 1 implies (#[trigger] attempts[j]).success by {
            assert(attempts[j] == results@[base + j]@);
        }
        if attempts.len() > 0 {
            let last = attempted - 1;
            assert(attempts.last() == results@[base + last]@);
            if !halted {
                assert(results@[base + last].success);
            }
        }
        assert(attempts_follow(before, attempts));
        assert(successes(attempts) == if halted {
            attempted - 1
        } else {
            attempted as int
        });
    }
    if entry.current_step >= entry.actions.len() {
        entry.completed = true;
    }
}

/// Recovers the journal. Every entry that is incomplete when the pass begins
/// is recovered in journal order as [`recover_entry`] does it; a failure
/// halts only its own entry. Returns the results of all attempts, entry by
/// entry and action by action.
///
/// What the pass does is fixed by what the handler reports: the results are
/// those of one pass over the old journal ([`pass_follows`]), the new journal
/// is [`journal_after`] of the old one and the results, and every result
/// records a call of the handler.
pub fn recover_incomplete_operations<H: Fn(&JournalAction, RecoveryPolicy) -> Result<bool, FontError>>(
    journal: &mut Journal,
    handler: H,
) -> (results: Vec<ActionRecoveryResult>)
    requires
        forall|a: &JournalAction, p: RecoveryPolicy| call_requires(handler, (a, p)),
    ensures
        pass_follows(old(journal)@, attempts_view(results@)),
        final(journal)@ == journal_after(old(journal)@, attempts_view(results@)),
        forall|k: int| 0 <= k < results@.len() ==> genuine(handler, #[trigger] results@[k]),
{
    let ghost before = journal@;
    let ghost mut segments: Seq<Seq<AttemptView>> = Seq::empty();
    let mut results: Vec<ActionRecoveryResult> = Vec::new();
    let mut i: usize = 0;
    assert(attempts_view(results@) =~= segments.flatten_alt());
    while i < journal.entries.len()
        invariant
            forall|a: &JournalAction, p: RecoveryPolicy| call_requires(handler, (a, p)),
            before == old(journal)@,
            journal@.len() == before.len(),
            i <= journal.entries.len(),
            segments.len() == i,
            attempts_view(results@) == segments.flatten_alt(),
            forall|k: int| 0 <= k < i ==> attempts_follow(before[k], #[trigger] segments[k]),
            forall|k: int| 0 <= k < i ==> journal@[k] == entry_after(before[k], segments[k]),
            forall|k: int| i <= k < before.len() ==> journal@[k] == before[k],
            forall|k: int| 0 <= k < results@.len() ==> genuine(handler, #[trigger] results@[k]),
        decreases journal.entries.len() - i,
    {
        let ghost earlier = results@;
        let ghost journal_before = journal@;
        recover_entry(&mut journal.entries[i], &handler, &mut results);
        proof {
            let segment = attempts_view(results@.skip(earlier.len() as int));
            assert(journal@ =~= journal_before.update(i as int, entry_after(before[i as int], segment)));
            assert(attempts_view(results@) =~= attempts_view(earlier) + segment) by {
                assert(results@ =~= results@.take(earlier.len() as int) + results@.skip(
                    earlier.len() as int,
                ));
            }
            let longer = segments.push(segment);
            assert(longer.drop_last() =~= segments);
            assert(longer.flatten_alt() == segments.flatten_alt() + segment);
            assert forall|k: int| 0 <= k < results@.len() implies genuine(
                handler,
                #[trigger] results@[k],
            ) by {
                if k < earlier.len() {
                    assert(results@[k] == results@.take(earlier.len() as int)[k]);
                }
            }
            segments = longer;
        }
        i += 1;
    }
    proof {
        segments.lemma_flatten_and_flatten_alt_are_equivalent();
        lemma_pass_of_segments(before, segments);
        assert(journal@ =~= Seq::new(
            before.len(),
            |k: int| entry_after(before[k], segments[k]),
        ));
    }
    results
}

} // verus!
