//! Whole runs: what a sequence of events leads to.

use vstd::prelude::*;
use crate::comic::Comic;
use crate::error::SyncError;
use crate::fetch::FetchOutcome;
use crate::index::{
    cursor_of_hits,
    is_newest_answer,
    lemma_write_is_idempotent,
    lemma_write_keeps_others,
    lemma_write_overrides,
    lemma_written_numbers,
    write_batch,
};
use crate::settings::{NEWEST_FIRST, SettingsCallView, configure_calls, target_settings};
use crate::sync::{SyncActionView, SyncEventView, SyncStateView, sync_step, write_of};
use crate::text::latest_url_spec;

verus! {

/// The state that `events` lead to from `state`.
pub open spec fn sync_end(state: SyncStateView, events: Seq<SyncEventView>) -> SyncStateView
    decreases events.len(),
{
    if events.len() == 0 {
        state
    } else {
        sync_end(sync_step(state, events[0]).0, events.drop_first())
    }
}

/// The actions that answer `events` from `state`, one for each event.
pub open spec fn sync_trace(state: SyncStateView, events: Seq<SyncEventView>) -> Seq<
    SyncActionView,
>
    decreases events.len(),
{
    if events.len() == 0 {
        Seq::empty()
    } else {
        let (next, action) = sync_step(state, events[0]);
        seq![action] + sync_trace(next, events.drop_first())
    }
}

/// The events that report `outcomes`, one fetch after the other.
pub open spec fn joined(outcomes: Seq<FetchOutcome>) -> Seq<SyncEventView> {
    outcomes.map_values(|outcome: FetchOutcome| SyncEventView::Joined(outcome))
}

/// The comics that `outcomes` have found, in their order.
pub open spec fn found_items(outcomes: Seq<FetchOutcome>) -> Seq<Comic>
    decreases outcomes.len(),
{
    if outcomes.len() == 0 {
        Seq::empty()
    } else {
        match outcomes[0] {
            FetchOutcome::Found(comic) => seq![comic] + found_items(outcomes.drop_first()),
            _ => found_items(outcomes.drop_first()),
        }
    }
}

/// The error of the first of `outcomes` that failed.
pub open spec fn first_failure(outcomes: Seq<FetchOutcome>) -> Option<SyncError>
    decreases outcomes.len(),
{
    if outcomes.len() == 0 {
        None
    } else {
        match outcomes[0] {
            FetchOutcome::Failed(error) => Some(error),
            _ => first_failure(outcomes.drop_first()),
        }
    }
}

/// A finished run stays finished: whatever is reported to it, it answers
/// with its result and asks for nothing.
pub proof fn lemma_finished_run_stays_finished(
    result: Result<usize, SyncError>,
    events: Seq<SyncEventView>,
)
    ensures
        sync_end(SyncStateView::Finished(result), events) == SyncStateView::Finished(result),
        sync_trace(SyncStateView::Finished(result), events).len() == events.len(),
        forall|k: int|
            0 <= k < events.len() ==> #[trigger] sync_trace(
                SyncStateView::Finished(result),
                events,
            )[k] == SyncActionView::Finish(result),
    decreases events.len(),
{
    if events.len() > 0 {
        lemma_finished_run_stays_finished(result, events.drop_first());
    }
}

/// Fail-fast: if one of the fetches that a run waits for fails, the run
/// ends with the error of the first that failed, and at no point does it ask
/// for a write. What the other fetches found is never written.
pub proof fn lemma_failed_fetch_ends_run(
    batch: Seq<Comic>,
    pending: usize,
    outcomes: Seq<FetchOutcome>,
    i: int,
)
    requires
        0 <= i < outcomes.len(),
        i < pending,
        outcomes[i] is Failed,
    ensures
        first_failure(outcomes) is Some,
        sync_end(SyncStateView::Collecting { batch, pending }, joined(outcomes))
            == SyncStateView::Finished(Err(first_failure(outcomes)->0)),
        sync_trace(SyncStateView::Collecting { batch, pending }, joined(outcomes)).len()
            == outcomes.len(),
        forall|k: int|
            0 <= k < outcomes.len() ==> !(#[trigger] sync_trace(
                SyncStateView::Collecting { batch, pending },
                joined(outcomes),
            )[k] is Write),
    decreases outcomes.len(),
{
    let state = SyncStateView::Collecting { batch, pending };
    let events = joined(outcomes);
    let (next, action) = sync_step(state, events[0]);
    let trace = sync_trace(state, events);
    assert(events[0] == SyncEventView::Joined(outcomes[0]));
    assert(events.drop_first() =~= joined(outcomes.drop_first()));
    match outcomes[0] {
        FetchOutcome::Failed(error) => {
            lemma_finished_run_stays_finished(Err(error), events.drop_first());
            assert forall|k: int| 0 <= k < outcomes.len() implies !(
            #[trigger] trace[k] is Write) by {
                if k > 0 {
                    assert(trace[k] == sync_trace(next, events.drop_first())[k - 1]);
                }
            }
        },
        _ => {
            let grown = match outcomes[0] {
                FetchOutcome::Found(comic) => batch.push(comic),
                _ => batch,
            };
            assert(next == SyncStateView::Collecting {
                batch: grown,
                pending: (pending - 1) as usize,
            });
            lemma_failed_fetch_ends_run(
                grown,
                (pending - 1) as usize,
                outcomes.drop_first(),
                i - 1,
            );
            assert forall|k: int| 0 <= k < outcomes.len() implies !(
            #[trigger] trace[k] is Write) by {
                if k > 0 {
                    assert(trace[k] == sync_trace(next, events.drop_first())[k - 1]);
                }
            }
        },
    }
}

/// Gaps are passed over: when none of the fetches that a run waits for
/// fails, the run waits for all of them, and then asks for one write, of
/// what the batch held and of what was found, in the order in which it was
/// reported. The comics that were not there leave no trace.
pub proof fn lemma_found_comics_are_written(
    batch: Seq<Comic>,
    pending: usize,
    outcomes: Seq<FetchOutcome>,
)
    requires
        pending >= 1,
        outcomes.len() == pending,
        forall|i: int| 0 <= i < outcomes.len() ==> !(#[trigger] outcomes[i] is Failed),
    ensures
        sync_end(SyncStateView::Collecting { batch, pending }, joined(outcomes)) == write_of(
            batch + found_items(outcomes),
        ).0,
        sync_trace(SyncStateView::Collecting { batch, pending }, joined(outcomes)).len()
            == outcomes.len(),
        sync_trace(SyncStateView::Collecting { batch, pending }, joined(outcomes)).last()
            == write_of(batch + found_items(outcomes)).1,
        forall|k: int|
            0 <= k < outcomes.len() - 1 ==> #[trigger] sync_trace(
                SyncStateView::Collecting { batch, pending },
                joined(outcomes),
            )[k] == SyncActionView::AwaitJoin,
    decreases outcomes.len(),
{
    let state = SyncStateView::Collecting { batch, pending };
    let events = joined(outcomes);
    let (next, action) = sync_step(state, events[0]);
    let trace = sync_trace(state, events);
    let rest = sync_trace(next, events.drop_first());
    assert(events[0] == SyncEventView::Joined(outcomes[0]));
    assert(events.drop_first() =~= joined(outcomes.drop_first()));
    assert(!(outcomes[0] is Failed));
    let grown = match outcomes[0] {
        FetchOutcome::Found(comic) => batch.push(comic),
        _ => batch,
    };
    assert(grown + found_items(outcomes.drop_first()) =~= batch + found_items(outcomes));
    if pending == 1 {
        assert(outcomes.drop_first() =~= Seq::<FetchOutcome>::empty());
        assert(events.drop_first() =~= Seq::<SyncEventView>::empty());
        assert(grown + Seq::<Comic>::empty() =~= grown);
        assert((next, action) == write_of(grown));
        assert(sync_end(next, events.drop_first()) == next);
        assert(trace =~= seq![action]);
    } else {
        assert(next == SyncStateView::Collecting {
            batch: grown,
            pending: (pending - 1) as usize,
        });
        assert forall|i: int| 0 <= i < outcomes.drop_first().len() implies !(
        #[trigger] outcomes.drop_first()[i] is Failed) by {
            assert(outcomes.drop_first()[i] == outcomes[i + 1]);
        }
        lemma_found_comics_are_written(grown, (pending - 1) as usize, outcomes.drop_first());
        assert(trace.last() == rest.last());
        assert forall|k: int| 0 <= k < outcomes.len() - 1 implies #[trigger] trace[k]
            == SyncActionView::AwaitJoin by {
            if k > 0 {
                assert(trace[k] == rest[k - 1]);
            }
        }
    }
}

/// What is reported to a run that is configured without trouble, has its
/// cursor query answered with `hits`, and is given the head `head`.
pub open spec fn opening_events(hits: Seq<usize>, head: Comic) -> Seq<SyncEventView> {
    seq![
        SyncEventView::Begin,
        SyncEventView::Acknowledged,
        SyncEventView::Acknowledged,
        SyncEventView::Hits(hits),
        SyncEventView::Head(head),
    ]
}

/// All that a run asks for when it finds the index up to date: the two
/// settings changes, the cursor query and the head. It ends without having
/// asked for a fetch or a write.
pub open spec fn idle_trace() -> Seq<SyncActionView> {
    seq![
        SyncActionView::Configure(configure_calls(target_settings())[0]),
        SyncActionView::Configure(configure_calls(target_settings())[1]),
        SyncActionView::QueryCursor { sort: NEWEST_FIRST@, limit: 1 },
        SyncActionView::FetchHead { url: latest_url_spec() },
        SyncActionView::Finish(Ok(0)),
    ]
}

/// A run on an index that is up to date fetches no comic and writes
/// nothing.
pub proof fn lemma_up_to_date_run_is_idle(hits: Seq<usize>, head: Comic)
    requires
        cursor_of_hits(hits) == head.num,
    ensures
        sync_trace(SyncStateView::Idle, opening_events(hits, head)) == idle_trace(),
        sync_end(SyncStateView::Idle, opening_events(hits, head)) == SyncStateView::Finished(
            Ok(0),
        ),
{
    let e0 = opening_events(hits, head);
    let calls = configure_calls(target_settings());
    let s0 = SyncStateView::Idle;
    let s1 = sync_step(s0, e0[0]).0;
    let e1 = e0.drop_first();
    let s2 = sync_step(s1, e1[0]).0;
    let e2 = e1.drop_first();
    let s3 = sync_step(s2, e2[0]).0;
    let e3 = e2.drop_first();
    let s4 = sync_step(s3, e3[0]).0;
    let e4 = e3.drop_first();
    let s5 = sync_step(s4, e4[0]).0;
    let e5 = e4.drop_first();
    assert(calls.drop_first() =~= seq![calls[1]]);
    assert(calls.drop_first().drop_first() =~= Seq::<SettingsCallView>::empty());
    assert(s1 == SyncStateView::Configuring { remaining: calls.drop_first() });
    assert(s2 == SyncStateView::Configuring { remaining: calls.drop_first().drop_first() });
    assert(s3 == SyncStateView::ResolvingCursor);
    assert(s4 == SyncStateView::ResolvingHead { cursor: head.num });
    assert(s5 == SyncStateView::Finished(Ok(0)));
    assert(e5 =~= Seq::<SyncEventView>::empty());
    assert(sync_trace(s5, e5) =~= Seq::<SyncActionView>::empty());
    assert(sync_trace(s4, e4) =~= seq![SyncActionView::Finish(Ok(0))]);
    assert(sync_trace(s3, e3) =~= seq![
        SyncActionView::FetchHead { url: latest_url_spec() },
        SyncActionView::Finish(Ok(0)),
    ]);
    assert(sync_trace(s2, e2) =~= idle_trace().subrange(2, 5));
    assert(sync_trace(s1, e1) =~= idle_trace().subrange(1, 5));
    assert(sync_trace(s0, e0) =~= idle_trace());
    assert(sync_end(s5, e5) == s5);
    assert(sync_end(s4, e4) == s5);
    assert(sync_end(s3, e3) == s5);
    assert(sync_end(s2, e2) == s5);
    assert(sync_end(s1, e1) == s5);
}

/// The number of the first item of a batch is in the index after the write.
proof fn lemma_write_overrides_head(documents: Map<usize, Comic>, batch: Seq<Comic>)
    requires
        batch.len() > 0,
    ensures
        write_batch(documents, batch).contains_key(batch[0].num),
{
    lemma_write_overrides(documents, documents, batch, 0);
}

/// How the fetches of the numbers from `start` up to, not including, `end`
/// end, in the order of the numbers, where `feed` tells how the fetch of
/// each number ends.
pub open spec fn range_outcomes(feed: spec_fn(usize) -> FetchOutcome, start: usize, end: usize)
    -> Seq<FetchOutcome> {
    Seq::new((end - start) as nat, |i: int| feed((start + i) as usize))
}

/// The documents after a whole run that meets no failure: the index answers
/// the cursor query with `hits`, the feed's newest comic is `head`, and
/// `feed` tells how the fetch of each number ends.
pub open spec fn documents_after_run(
    documents: Map<usize, Comic>,
    hits: Seq<usize>,
    head: Comic,
    feed: spec_fn(usize) -> FetchOutcome,
) -> Map<usize, Comic> {
    let cursor = cursor_of_hits(hits);
    if cursor == head.num {
        documents
    } else if cursor < head.num {
        write_batch(documents, seq![head] + found_items(range_outcomes(feed, cursor, head.num)))
    } else {
        write_batch(documents, seq![head])
    }
}

/// With the cursor below the head, a run whose fetches do not fail asks for
/// the range from the cursor to the head, and in the end for one write: of
/// the head and of what was found. This is the write that
/// [`documents_after_run`] speaks of.
pub proof fn lemma_run_writes_head_and_found(
    cursor: usize,
    head: Comic,
    outcomes: Seq<FetchOutcome>,
)
    requires
        cursor < head.num,
        outcomes.len() == head.num - cursor,
        forall|i: int| 0 <= i < outcomes.len() ==> !(#[trigger] outcomes[i] is Failed),
    ensures
        sync_trace(
            SyncStateView::ResolvingHead { cursor },
            seq![SyncEventView::Head(head)] + joined(outcomes),
        )[0] == (SyncActionView::FetchRange { start: cursor, end: head.num }),
        sync_trace(
            SyncStateView::ResolvingHead { cursor },
            seq![SyncEventView::Head(head)] + joined(outcomes),
        ).last() == write_of(seq![head] + found_items(outcomes)).1,
        sync_end(
            SyncStateView::ResolvingHead { cursor },
            seq![SyncEventView::Head(head)] + joined(outcomes),
        ) == write_of(seq![head] + found_items(outcomes)).0,
{
    let state = SyncStateView::ResolvingHead { cursor };
    let events = seq![SyncEventView::Head(head)] + joined(outcomes);
    let pending = (head.num - cursor) as usize;
    let collecting = SyncStateView::Collecting { batch: seq![head], pending };
    assert(events[0] == SyncEventView::Head(head));
    assert(events.drop_first() =~= joined(outcomes));
    assert(sync_step(state, events[0]).0 == collecting);
    lemma_found_comics_are_written(seq![head], pending, outcomes);
    let rest = sync_trace(collecting, joined(outcomes));
    let trace = sync_trace(state, events);
    assert(trace =~= seq![SyncActionView::FetchRange { start: cursor, end: head.num }] + rest);
    assert(trace.last() == rest.last());
}

/// Every comic that was found is the comic of an outcome.
pub proof fn lemma_found_items_come_from_outcomes(outcomes: Seq<FetchOutcome>, j: int)
    requires
        0 <= j < found_items(outcomes).len(),
    ensures
        exists|i: int|
            0 <= i < outcomes.len() && #[trigger] outcomes[i] == FetchOutcome::Found(
                found_items(outcomes)[j],
            ),
    decreases outcomes.len(),
{
    let rest = outcomes.drop_first();
    match outcomes[0] {
        FetchOutcome::Found(comic) => {
            if j == 0 {
                assert(outcomes[0] == FetchOutcome::Found(found_items(outcomes)[j]));
            } else {
                assert(found_items(outcomes)[j] == found_items(rest)[j - 1]);
                lemma_found_items_come_from_outcomes(rest, j - 1);
                let i = choose|i: int|
                    0 <= i < rest.len() && #[trigger] rest[i] == FetchOutcome::Found(
                        found_items(rest)[j - 1],
                    );
                assert(outcomes[i + 1] == rest[i]);
            }
        },
        _ => {
            lemma_found_items_come_from_outcomes(rest, j);
            let i = choose|i: int|
                0 <= i < rest.len() && #[trigger] rest[i] == FetchOutcome::Found(
                    found_items(rest)[j],
                );
            assert(outcomes[i + 1] == rest[i]);
        },
    }
}

/// Running twice is running once. Where every comic of the feed carries the
/// number under which it is fetched, and no fetch fails, the second of two
/// runs in a row, with nothing new in the feed, leaves the index as the
/// first left it. Unless the index was ahead of the feed, the second run
/// finds the cursor at the head, and so fetches no comic and writes nothing.
pub proof fn lemma_sync_twice_is_sync_once(
    documents: Map<usize, Comic>,
    head: Comic,
    feed: spec_fn(usize) -> FetchOutcome,
    first_hits: Seq<usize>,
    second_hits: Seq<usize>,
)
    requires
        forall|num: usize| !(#[trigger] feed(num) is Failed),
        forall|num: usize| (#[trigger] feed(num)) matches FetchOutcome::Found(comic) ==> comic.num
            == num,
        is_newest_answer(documents, first_hits),
        is_newest_answer(documents_after_run(documents, first_hits, head, feed), second_hits),
    ensures
        documents_after_run(
            documents_after_run(documents, first_hits, head, feed),
            second_hits,
            head,
            feed,
        ) == documents_after_run(documents, first_hits, head, feed),
        cursor_of_hits(first_hits) <= head.num ==> cursor_of_hits(second_hits) == head.num,
        cursor_of_hits(first_hits) <= head.num ==> sync_trace(
            SyncStateView::Idle,
            opening_events(second_hits, head),
        ) == idle_trace(),
{
    if cursor_of_hits(first_hits) <= head.num {
        lemma_second_cursor_is_at_head(documents, head, feed, first_hits, second_hits);
        lemma_up_to_date_run_is_idle(second_hits, head);
    } else {
        lemma_head_alone_is_written_once(documents, head, feed, first_hits, second_hits);
    }
}

/// After a run that began with the cursor at or below the head, the cursor
/// is at the head.
proof fn lemma_second_cursor_is_at_head(
    documents: Map<usize, Comic>,
    head: Comic,
    feed: spec_fn(usize) -> FetchOutcome,
    first_hits: Seq<usize>,
    second_hits: Seq<usize>,
)
    requires
        forall|num: usize| (#[trigger] feed(num)) matches FetchOutcome::Found(comic) ==> comic.num
            == num,
        is_newest_answer(documents, first_hits),
        is_newest_answer(documents_after_run(documents, first_hits, head, feed), second_hits),
        cursor_of_hits(first_hits) <= head.num,
    ensures
        cursor_of_hits(second_hits) == head.num,
{
    let cursor = cursor_of_hits(first_hits);
    let after = documents_after_run(documents, first_hits, head, feed);
    if cursor == head.num {
        assert(after == documents);
        if documents.dom() =~= Set::<usize>::empty() {
        } else {
            assert(documents.contains_key(first_hits[0]));
            assert(documents.contains_key(second_hits[0]));
        }
    } else if cursor < head.num {
        let outcomes = range_outcomes(feed, cursor, head.num);
        let found = found_items(outcomes);
        let batch = seq![head] + found;
        assert(batch[0] == head);
        lemma_write_overrides_head(documents, batch);
        assert(after.dom().contains(head.num));
        let newest = second_hits[0];
        assert(after.contains_key(newest));
        lemma_written_numbers(documents, batch, newest);
        if documents.contains_key(newest) {
            assert(documents.dom().contains(newest));
            assert(newest <= first_hits[0]);
        } else {
            let i = choose|i: int| 0 <= i < batch.len() && (#[trigger] batch[i]).num == newest;
            if i > 0 {
                assert(batch[i] == found[i - 1]);
                lemma_found_items_come_from_outcomes(outcomes, i - 1);
                let k = choose|k: int|
                    0 <= k < outcomes.len() && #[trigger] outcomes[k] == FetchOutcome::Found(
                        found[i - 1],
                    );
                assert(outcomes[k] == feed((cursor + k) as usize));
            }
        }
        assert(newest == head.num);
    }
}

/// A run on an index that is ahead of the feed writes the head alone, and
/// a second such run changes nothing.
proof fn lemma_head_alone_is_written_once(
    documents: Map<usize, Comic>,
    head: Comic,
    feed: spec_fn(usize) -> FetchOutcome,
    first_hits: Seq<usize>,
    second_hits: Seq<usize>,
)
    requires
        is_newest_answer(documents, first_hits),
        is_newest_answer(documents_after_run(documents, first_hits, head, feed), second_hits),
        cursor_of_hits(first_hits) > head.num,
    ensures
        documents_after_run(
            documents_after_run(documents, first_hits, head, feed),
            second_hits,
            head,
            feed,
        ) == documents_after_run(documents, first_hits, head, feed),
{
    let after = documents_after_run(documents, first_hits, head, feed);
    let batch = seq![head];
    assert(batch[0] == head);
    lemma_write_overrides_head(documents, batch);
    assert(after.dom().contains(head.num));
    let newest = second_hits[0];
    assert(after.contains_key(newest));
    if documents.dom() =~= Set::<usize>::empty() {
        lemma_written_numbers(documents, batch, newest);
        assert(!documents.dom().contains(newest));
        assert(newest == head.num);
    } else {
        assert(documents.contains_key(first_hits[0]));
        assert(after.contains_key(first_hits[0])) by {
            lemma_write_keeps_others(documents, batch, first_hits[0]);
        }
        assert(first_hits[0] <= newest);
    }
    lemma_write_is_idempotent(documents, batch);
}

} // verus!
