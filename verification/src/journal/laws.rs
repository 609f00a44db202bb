//! What holds of the journal and of recovery whatever the entries, the
//! handler and the disk: each law is stated over the values of the entries
//! and proved from the definitions that the contracts use.

use vstd::prelude::*;
use crate::journal::action::JournalActionView;
use crate::journal::entry::{EntryId, JournalEntryView};
use crate::journal::log::{
    cleaned,
    closed_at,
    first_with_id,
    lemma_cleaned_at_age_zero,
    survives_cleanup,
    with_step,
};
use crate::journal::recovery::{
    attempts_follow,
    entry_after,
    journal_after,
    pass_follows,
    run_length,
    share_of,
    AttemptView,
};

verus! {

/// An entry is incomplete exactly when it is open and has at least one
/// action; an entry without actions is never incomplete, closed or not.
pub proof fn lemma_incomplete_iff_open_and_nonempty(e: JournalEntryView)
    ensures
        e.is_incomplete() <==> (!e.completed && e.actions.len() != 0),
        e.actions.len() == 0 ==> !e.is_incomplete(),
{
}

/// An entry as it is first recorded is incomplete exactly when it has
/// actions; its cursor stands before the first of them, and all of them
/// remain.
pub proof fn lemma_fresh_entry_is_pending(
    id: EntryId,
    started_at: u64,
    actions: Seq<JournalActionView>,
    description: Option<Seq<char>>,
)
    ensures
        JournalEntryView::fresh(id, started_at, actions, description).is_incomplete()
            <==> actions.len() > 0,
        JournalEntryView::fresh(id, started_at, actions, description).cursor_in_range(),
        JournalEntryView::fresh(id, started_at, actions, description).remaining_actions()
            == actions,
{
    let entry = JournalEntryView::fresh(id, started_at, actions, description);
    assert(entry.remaining_actions() =~= actions);
}

/// The remaining actions are empty when the cursor is at or past the end,
/// and the suffix from the cursor otherwise.
pub proof fn lemma_remaining_is_suffix(e: JournalEntryView)
    ensures
        e.current_step >= e.actions.len() ==> e.remaining_actions().len() == 0,
        e.current_step < e.actions.len() ==> e.remaining_actions() == e.actions.skip(
            e.current_step as int,
        ),
        e.current_step < e.actions.len() ==> e.current_action() == Some(
            e.remaining_actions()[0],
        ),
{
    if e.current_step < e.actions.len() {
        assert(e.remaining_actions() =~= e.actions.skip(e.current_step as int));
    }
}

/// Closing an entry twice is closing it once, and the second call finds the
/// same entry.
pub proof fn lemma_closing_is_idempotent(entries: Seq<JournalEntryView>, id: EntryId, i: int)
    requires
        first_with_id(entries, id, i),
    ensures
        first_with_id(closed_at(entries, i), id, i),
        closed_at(closed_at(entries, i), i) == closed_at(entries, i),
        closed_at(entries, i)[i].completed,
        !closed_at(entries, i)[i].is_incomplete(),
{
    assert(closed_at(closed_at(entries, i), i) =~= closed_at(entries, i));
}

/// Moving the cursor of an entry changes its cursor and nothing else, in
/// that entry or any other; the last of two moves is the one that counts.
pub proof fn lemma_step_moves_only_the_cursor(
    entries: Seq<JournalEntryView>,
    i: int,
    first: nat,
    second: nat,
)
    requires
        0 <= i < entries.len(),
    ensures
        with_step(entries, i, first).len() == entries.len(),
        with_step(entries, i, first)[i] == (JournalEntryView {
            current_step: first,
            ..entries[i]
        }),
        forall|j: int|
            0 <= j < entries.len() && j != i ==> with_step(entries, i, first)[j] == entries[j],
        with_step(with_step(entries, i, first), i, second) == with_step(entries, i, second),
{
    assert(with_step(with_step(entries, i, first), i, second) =~= with_step(entries, i, second));
}

/// What one pass makes of an entry that its attempts follow: the entry is
/// closed exactly when no attempt failed, the cursor never moves back, and a
/// cursor that stood within the actions still does.
pub proof fn lemma_entry_after_attempts(e: JournalEntryView, attempts: Seq<AttemptView>)
    requires
        e.is_incomplete(),
        attempts_follow(e, attempts),
    ensures
        entry_after(e, attempts).completed <==> (attempts.len() == 0 || attempts.last().success),
        entry_after(e, attempts).is_incomplete() <==> (attempts.len() > 0
            && !attempts.last().success),
        entry_after(e, attempts).current_step >= e.current_step,
        attempts.len() > 0 && !attempts.last().success ==> entry_after(e, attempts).current_step
            == e.current_step + attempts.len() - 1,
        e.cursor_in_range() ==> entry_after(e, attempts).cursor_in_range(),
{
}

/// A run takes no more attempts than there are actions left, nor more than
/// the stream holds.
pub proof fn lemma_run_length_bounds(limit: nat, stream: Seq<AttemptView>)
    ensures
        run_length(limit, stream) <= limit,
        run_length(limit, stream) <= stream.len(),
    decreases limit,
{
    if limit > 0 && stream.len() > 0 && stream[0].success {
        lemma_run_length_bounds((limit - 1) as nat, stream.drop_first());
    }
}

/// The share of an entry is no more than the stream holds.
pub proof fn lemma_share_bounds(e: JournalEntryView, stream: Seq<AttemptView>)
    ensures
        share_of(e, stream) <= stream.len(),
        share_of(e, stream) <= e.remaining_actions().len(),
{
    lemma_run_length_bounds(e.remaining_actions().len(), stream);
}

/// A pass keeps the journal's shape: as many entries, each with its
/// identifier, start time, actions and description; no cursor moves back,
/// no closed entry is opened, and an entry that was not incomplete is
/// unchanged.
pub proof fn lemma_pass_keeps_entries(entries: Seq<JournalEntryView>, stream: Seq<AttemptView>)
    ensures
        journal_after(entries, stream).len() == entries.len(),
        forall|i: int|
            0 <= i < entries.len() ==> {
                let before = entries[i];
                let after = #[trigger] journal_after(entries, stream)[i];
                &&& after.id == before.id
                &&& after.started_at == before.started_at
                &&& after.actions == before.actions
                &&& after.description == before.description
                &&& after.current_step >= before.current_step
                &&& before.completed ==> after.completed
                &&& !before.is_incomplete() ==> after == before
            },
    decreases entries.len(),
{
    if entries.len() > 0 {
        let n = share_of(entries[0], stream) as int;
        let tail = journal_after(entries.drop_first(), stream.skip(n));
        lemma_pass_keeps_entries(entries.drop_first(), stream.skip(n));
        let after = journal_after(entries, stream);
        assert(after =~= seq![entry_after(entries[0], stream.take(n))] + tail);
        assert forall|i: int| 0 <= i < entries.len() implies {
            let before = entries[i];
            let after = #[trigger] journal_after(entries, stream)[i];
            &&& after.id == before.id
            &&& after.started_at == before.started_at
            &&& after.actions == before.actions
            &&& after.description == before.description
            &&& after.current_step >= before.current_step
            &&& before.completed ==> after.completed
            &&& !before.is_incomplete() ==> after == before
        } by {
            if i > 0 {
                assert(after[i] == tail[i - 1]);
                assert(entries.drop_first()[i - 1] == entries[i]);
            }
        }
    }
}

/// A pass keeps every cursor that stood within its actions within them.
pub proof fn lemma_pass_keeps_cursors_in_range(
    entries: Seq<JournalEntryView>,
    stream: Seq<AttemptView>,
)
    requires
        pass_follows(entries, stream),
    ensures
        forall|i: int|
            0 <= i < entries.len() && entries[i].cursor_in_range() ==> (#[trigger] journal_after(
                entries,
                stream,
            )[i]).cursor_in_range(),
    decreases entries.len(),
{
    lemma_pass_keeps_entries(entries, stream);
    if entries.len() > 0 {
        let n = share_of(entries[0], stream) as int;
        let tail = journal_after(entries.drop_first(), stream.skip(n));
        lemma_pass_keeps_cursors_in_range(entries.drop_first(), stream.skip(n));
        let after = journal_after(entries, stream);
        assert(after =~= seq![entry_after(entries[0], stream.take(n))] + tail);
        assert forall|i: int|
            0 <= i < entries.len() && entries[i].cursor_in_range() implies (#[trigger] after[i]).cursor_in_range() by {
            if i > 0 {
                assert(after[i] == tail[i - 1]);
                assert(entries.drop_first()[i - 1] == entries[i]);
            } else if entries[0].is_incomplete() {
                lemma_entry_after_attempts(entries[0], stream.take(n));
            }
        }
    }
}

/// A journal without an incomplete entry gives recovery nothing to do: the
/// pass makes no attempt and leaves the journal as it is.
pub proof fn lemma_settled_journal_is_left_alone(
    entries: Seq<JournalEntryView>,
    stream: Seq<AttemptView>,
)
    requires
        forall|i: int| 0 <= i < entries.len() ==> !(#[trigger] entries[i]).is_incomplete(),
        pass_follows(entries, stream),
    ensures
        stream.len() == 0,
        journal_after(entries, stream) == entries,
    decreases entries.len(),
{
    if entries.len() > 0 {
        assert(!entries[0].is_incomplete());
        assert(stream.skip(0) =~= stream);
        assert forall|i: int| 0 <= i < entries.drop_first().len() implies !(
        #[trigger] entries.drop_first()[i]).is_incomplete() by {
            assert(entries.drop_first()[i] == entries[i + 1]);
        }
        lemma_settled_journal_is_left_alone(entries.drop_first(), stream);
        assert(journal_after(entries, stream) =~= entries);
    } else {
        assert(journal_after(entries, stream) =~= entries);
    }
}

/// After a pass in which every attempt succeeded no entry is incomplete.
pub proof fn lemma_successful_pass_settles_the_journal(
    entries: Seq<JournalEntryView>,
    stream: Seq<AttemptView>,
)
    requires
        pass_follows(entries, stream),
        forall|k: int| 0 <= k < stream.len() ==> (#[trigger] stream[k]).success,
    ensures
        journal_after(entries, stream).len() == entries.len(),
        forall|i: int|
            0 <= i < entries.len() ==> !(#[trigger] journal_after(entries, stream)[i]).is_incomplete(),
    decreases entries.len(),
{
    lemma_pass_keeps_entries(entries, stream);
    if entries.len() > 0 {
        let n = share_of(entries[0], stream) as int;
        let head = stream.take(n);
        let rest = stream.skip(n);
        let tail = journal_after(entries.drop_first(), rest);
        lemma_share_bounds(entries[0], stream);
        assert forall|k: int| 0 <= k < rest.len() implies (#[trigger] rest[k]).success by {
            assert(rest[k] == stream[k + n]);
        }
        lemma_successful_pass_settles_the_journal(entries.drop_first(), rest);
        let after = journal_after(entries, stream);
        assert(after =~= seq![entry_after(entries[0], head)] + tail);
        if entries[0].is_incomplete() {
            lemma_entry_after_attempts(entries[0], head);
            if head.len() > 0 {
                assert(head.last() == stream[head.len() - 1]);
            }
        }
        assert forall|i: int| 0 <= i < entries.len() implies !(#[trigger] after[i]).is_incomplete() by {
            if i > 0 {
                assert(after[i] == tail[i - 1]);
            }
        }
    }
}

/// Recovery run again after a pass in which every attempt succeeded makes
/// no attempt and changes nothing.
pub proof fn lemma_second_pass_after_success_is_idle(
    entries: Seq<JournalEntryView>,
    first: Seq<AttemptView>,
    second: Seq<AttemptView>,
)
    requires
        pass_follows(entries, first),
        forall|k: int| 0 <= k < first.len() ==> (#[trigger] first[k]).success,
        pass_follows(journal_after(entries, first), second),
    ensures
        second.len() == 0,
        journal_after(journal_after(entries, first), second) == journal_after(entries, first),
{
    lemma_successful_pass_settles_the_journal(entries, first);
    lemma_settled_journal_is_left_alone(journal_after(entries, first), second);
}

/// Pruning with a maximum age of zero removes every closed entry and keeps
/// every open one, in order, whatever the time and whenever the entries
/// began; in particular every incomplete entry stays.
pub proof fn lemma_cleanup_with_zero_age(entries: Seq<JournalEntryView>, now: u64)
    ensures
        cleaned(entries, now, 0) == entries.filter(|e: JournalEntryView| !e.completed),
        forall|k: int|
            0 <= k < cleaned(entries, now, 0).len() ==> !(#[trigger] cleaned(
                entries,
                now,
                0,
            )[k]).completed,
        forall|i: int|
            0 <= i < entries.len() && (#[trigger] entries[i]).is_incomplete() ==> cleaned(
                entries,
                now,
                0,
            ).contains(entries[i]),
{
    let open = |e: JournalEntryView| !e.completed;
    lemma_cleaned_at_age_zero(entries, now);
    let kept = entries.filter(open);
    assert(cleaned(entries, now, 0) == kept);
    assert forall|k: int| 0 <= k < kept.len() implies !(#[trigger] kept[k]).completed by {
        entries.lemma_filter_pred(open, k);
    }
    assert forall|i: int| 0 <= i < entries.len() && (#[trigger] entries[i]).is_incomplete() implies kept.contains(
        entries[i],
    ) by {
        assert(open(entries[i]));
        entries.lemma_filter_contains(open, i);
    }
}

/// Pruning never removes an open entry, whatever the time and the maximum
/// age, and never changes or reorders what it keeps.
pub proof fn lemma_cleanup_keeps_open_entries(
    entries: Seq<JournalEntryView>,
    now: u64,
    max_age_secs: u64,
)
    ensures
        cleaned(entries, now, max_age_secs).len() <= entries.len(),
        forall|i: int|
            0 <= i < entries.len() && !(#[trigger] entries[i]).completed ==> cleaned(
                entries,
                now,
                max_age_secs,
            ).contains(entries[i]),
        forall|k: int|
            0 <= k < cleaned(entries, now, max_age_secs).len() ==> entries.contains(
                #[trigger] cleaned(entries, now, max_age_secs)[k],
            ),
{
    let keep = |e: JournalEntryView| survives_cleanup(e, now, max_age_secs);
    let kept = cleaned(entries, now, max_age_secs);
    entries.lemma_filter_len(keep);
    assert forall|i: int| 0 <= i < entries.len() && !(#[trigger] entries[i]).completed implies kept.contains(
        entries[i],
    ) by {
        assert(keep(entries[i]));
        entries.lemma_filter_contains(keep, i);
    }
    assert forall|k: int| 0 <= k < kept.len() implies entries.contains(#[trigger] kept[k]) by {
        assert(kept.contains(kept[k]));
        entries.lemma_filter_contains_rev(keep, kept[k]);
    }
}

} // verus!
