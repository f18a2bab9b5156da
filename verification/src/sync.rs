//! One synchronisation run, as a state machine.
//!
//! A run configures the index, asks it for the newest comic it holds (the
//! cursor), asks the feed for the newest comic there is (the head), has every
//! number from the cursor up to the head fetched, and writes what was found,
//! together with the head, in one batch.
//!
//! The caller performs the actions: it talks to the index and to the feed,
//! and runs the fetches side by side. Every decision is made here. A run
//! starts in [`SyncState::Idle`] with the event [`SyncEvent::Begin`]; each
//! call of [`index_comics`] answers one event with the next state and the
//! action to perform, until the action is [`SyncAction::Finish`].

use vstd::prelude::*;
use vstd::string::*;
use crate::comic::Comic;
use crate::error::SyncError;
use crate::fetch::FetchOutcome;
use crate::index::{FIRST_COMIC, cursor_of_hits, resolve_cursor};
use crate::settings::{
    IndexSettings,
    NEWEST_FIRST,
    NUM_ATTRIBUTE,
    SettingsCall,
    SettingsCallView,
    calls_view,
    configure_calls,
    configure_index,
    target_settings,
};
use crate::text::{latest_url, latest_url_spec};

verus! {

/// The time from the start of one run to the start of the next, in seconds:
/// six hours.
pub const SYNC_PERIOD_SECS: u64 = 21_600;

/// What the caller reports.
#[derive(Debug, Clone, PartialEq, Eq)]
pub enum SyncEvent {
    /// The run is to start.
    Begin,
    /// The index has completed the change just asked for.
    Acknowledged,
    /// The index has refused the change just asked for, or failed at it.
    Rejected,
    /// The answer to the cursor query: the numbers of its hits, in order.
    Hits(Vec<usize>),
    /// The cursor query failed.
    QueryFailed,
    /// The newest comic of the feed.
    Head(Comic),
    /// The newest comic of the feed could not be had.
    HeadUnavailable,
    /// One of the fetches has ended.
    Joined(FetchOutcome),
}

/// A [`SyncEvent`] with its list as a sequence.
pub enum SyncEventView {
    Begin,
    Acknowledged,
    Rejected,
    Hits(Seq<usize>),
    QueryFailed,
    Head(Comic),
    HeadUnavailable,
    Joined(FetchOutcome),
}

impl View for SyncEvent {
    type V = SyncEventView;

    open spec fn view(&self) -> SyncEventView {
        match *self {
            SyncEvent::Begin => SyncEventView::Begin,
            SyncEvent::Acknowledged => SyncEventView::Acknowledged,
            SyncEvent::Rejected => SyncEventView::Rejected,
            SyncEvent::Hits(hits) => SyncEventView::Hits(hits@),
            SyncEvent::QueryFailed => SyncEventView::QueryFailed,
            SyncEvent::Head(head) => SyncEventView::Head(head),
            SyncEvent::HeadUnavailable => SyncEventView::HeadUnavailable,
            SyncEvent::Joined(outcome) => SyncEventView::Joined(outcome),
        }
    }
}

/// What the caller is to do next.
#[derive(Debug, PartialEq, Eq)]
pub enum SyncAction {
    /// Make this change to the index's settings, wait until the index has
    /// completed it, and report [`SyncEvent::Acknowledged`] or
    /// [`SyncEvent::Rejected`].
    Configure(SettingsCall),
    /// Search the index without a query, sorted by `sort`, for at most
    /// `limit` documents, and report the numbers of the hits.
    QueryCursor { sort: String, limit: usize },
    /// Request `url` once and report the comic that it describes.
    FetchHead { url: String },
    /// Start one fetch for every number from `start` up to, not including,
    /// `end`, and report the first that ends.
    FetchRange { start: usize, end: usize },
    /// Report the next fetch that ends.
    AwaitJoin,
    /// Add `documents` to the index, keyed by `primary_key`, wait until the
    /// index has completed the write, and report [`SyncEvent::Acknowledged`]
    /// or [`SyncEvent::Rejected`].
    Write { documents: Vec<Comic>, primary_key: String },
    /// Stop: the run has written this many comics, or has failed.
    Finish(Result<usize, SyncError>),
}

/// A [`SyncAction`] with its texts and lists as sequences.
pub enum SyncActionView {
    Configure(SettingsCallView),
    QueryCursor { sort: Seq<char>, limit: usize },
    FetchHead { url: Seq<char> },
    FetchRange { start: usize, end: usize },
    AwaitJoin,
    Write { documents: Seq<Comic>, primary_key: Seq<char> },
    Finish(Result<usize, SyncError>),
}

impl View for SyncAction {
    type V = SyncActionView;

    open spec fn view(&self) -> SyncActionView {
        match *self {
            SyncAction::Configure(call) => SyncActionView::Configure(call@),
            SyncAction::QueryCursor { sort, limit } => SyncActionView::QueryCursor {
                sort: sort@,
                limit,
            },
            SyncAction::FetchHead { url } => SyncActionView::FetchHead { url: url@ },
            SyncAction::FetchRange { start, end } => SyncActionView::FetchRange { start, end },
            SyncAction::AwaitJoin => SyncActionView::AwaitJoin,
            SyncAction::Write { documents, primary_key } => SyncActionView::Write {
                documents: documents@,
                primary_key: primary_key@,
            },
            SyncAction::Finish(result) => SyncActionView::Finish(result),
        }
    }
}

/// Where a run stands.
#[derive(Debug, PartialEq, Eq)]
pub enum SyncState {
    /// Nothing was done yet.
    Idle,
    /// A settings change is under way; `remaining` are still to be made.
    Configuring { remaining: Vec<SettingsCall> },
    /// The cursor query is under way.
    ResolvingCursor,
    /// The head is being fetched.
    ResolvingHead { cursor: usize },
    /// `pending` fetches have not ended yet; `batch` holds the head and what
    /// the others have found.
    Collecting { batch: Vec<Comic>, pending: usize },
    /// The write of `count` comics is under way.
    Writing { count: usize },
    /// The run is over.
    Finished(Result<usize, SyncError>),
}

/// A [`SyncState`] with its lists as sequences.
pub enum SyncStateView {
    Idle,
    Configuring { remaining: Seq<SettingsCallView> },
    ResolvingCursor,
    ResolvingHead { cursor: usize },
    Collecting { batch: Seq<Comic>, pending: usize },
    Writing { count: usize },
    Finished(Result<usize, SyncError>),
}

impl View for SyncState {
    type V = SyncStateView;

    open spec fn view(&self) -> SyncStateView {
        match *self {
            SyncState::Idle => SyncStateView::Idle,
            SyncState::Configuring { remaining } => SyncStateView::Configuring {
                remaining: calls_view(remaining@),
            },
            SyncState::ResolvingCursor => SyncStateView::ResolvingCursor,
            SyncState::ResolvingHead { cursor } => SyncStateView::ResolvingHead { cursor },
            SyncState::Collecting { batch, pending } => SyncStateView::Collecting {
                batch: batch@,
                pending,
            },
            SyncState::Writing { count } => SyncStateView::Writing { count },
            SyncState::Finished(result) => SyncStateView::Finished(result),
        }
    }
}

/// The end of a run with `result`.
pub open spec fn sync_finish(result: Result<usize, SyncError>) -> (SyncStateView, SyncActionView) {
    (SyncStateView::Finished(result), SyncActionView::Finish(result))
}

/// The settings change to make next, or the cursor query once all are made.
pub open spec fn next_setting(remaining: Seq<SettingsCallView>) -> (
    SyncStateView,
    SyncActionView,
) {
    if remaining.len() == 0 {
        (
            SyncStateView::ResolvingCursor,
            SyncActionView::QueryCursor { sort: NEWEST_FIRST@, limit: 1 },
        )
    } else {
        (
            SyncStateView::Configuring { remaining: remaining.drop_first() },
            SyncActionView::Configure(remaining[0]),
        )
    }
}

/// With the cursor known, the head is asked for.
pub open spec fn after_cursor(cursor: usize) -> (SyncStateView, SyncActionView) {
    (
        SyncStateView::ResolvingHead { cursor },
        SyncActionView::FetchHead { url: latest_url_spec() },
    )
}

/// The write of `batch`; an empty batch is not written, and the run ends.
pub open spec fn write_of(batch: Seq<Comic>) -> (SyncStateView, SyncActionView) {
    if batch.len() == 0 {
        sync_finish(Ok(0))
    } else {
        (
            SyncStateView::Writing { count: batch.len() as usize },
            SyncActionView::Write { documents: batch, primary_key: NUM_ATTRIBUTE@ },
        )
    }
}

/// What the head decides. With the cursor at the head the index is up to
/// date and the run ends, with no fetch and no write. With the cursor below
/// it, every number from the cursor up to the head is fetched; the head
/// itself is in the batch already. A cursor beyond the head leaves nothing
/// to fetch, and the head alone is written.
pub open spec fn plan_of(cursor: usize, head: Comic) -> (SyncStateView, SyncActionView) {
    if cursor == head.num {
        sync_finish(Ok(0))
    } else if cursor < head.num {
        (
            SyncStateView::Collecting {
                batch: seq![head],
                pending: (head.num - cursor) as usize,
            },
            SyncActionView::FetchRange { start: cursor, end: head.num },
        )
    } else {
        write_of(seq![head])
    }
}

/// After a fetch that did not fail: the batch is written once no fetch is
/// pending any more.
pub open spec fn settle(batch: Seq<Comic>, pending: usize) -> (SyncStateView, SyncActionView) {
    if pending <= 1 {
        write_of(batch)
    } else {
        (
            SyncStateView::Collecting { batch, pending: (pending - 1) as usize },
            SyncActionView::AwaitJoin,
        )
    }
}

/// What one ended fetch decides: a failure ends the run at once, an absent
/// comic is passed over, a comic found joins the batch.
pub open spec fn join_of(batch: Seq<Comic>, pending: usize, outcome: FetchOutcome) -> (
    SyncStateView,
    SyncActionView,
) {
    match outcome {
        FetchOutcome::Failed(error) => sync_finish(Err(error)),
        FetchOutcome::NotFound => settle(batch, pending),
        FetchOutcome::Found(comic) => settle(batch.push(comic), pending),
    }
}

/// The transition function of a run.
///
/// The settings are applied first, one call after the other; a refusal ends
/// the run with [`SyncError::IndexConfig`]. A failed cursor query does not
/// end it: the run goes on from the first number of the feed. Without the
/// head the run ends with [`SyncError::HeadResolution`]. A refused write
/// ends it with [`SyncError::IndexWrite`]. A finished run stays finished,
/// and an event that the state does not wait for ends the run with
/// [`SyncError::OutOfTurn`].
pub open spec fn sync_step(state: SyncStateView, event: SyncEventView) -> (
    SyncStateView,
    SyncActionView,
) {
    match (state, event) {
        (SyncStateView::Finished(result), _) => sync_finish(result),
        (SyncStateView::Idle, SyncEventView::Begin) => next_setting(
            configure_calls(target_settings()),
        ),
        (SyncStateView::Configuring { remaining }, SyncEventView::Acknowledged) => next_setting(
            remaining,
        ),
        (SyncStateView::Configuring { .. }, SyncEventView::Rejected) => sync_finish(
            Err(SyncError::IndexConfig),
        ),
        (SyncStateView::ResolvingCursor, SyncEventView::Hits(hits)) => after_cursor(
            cursor_of_hits(hits),
        ),
        (SyncStateView::ResolvingCursor, SyncEventView::QueryFailed) => after_cursor(FIRST_COMIC),
        (SyncStateView::ResolvingHead { cursor }, SyncEventView::Head(head)) => plan_of(
            cursor,
            head,
        ),
        (SyncStateView::ResolvingHead { .. }, SyncEventView::HeadUnavailable) => sync_finish(
            Err(SyncError::HeadResolution),
        ),
        (SyncStateView::Collecting { batch, pending }, SyncEventView::Joined(outcome)) => join_of(
            batch,
            pending,
            outcome,
        ),
        (SyncStateView::Writing { count }, SyncEventView::Acknowledged) => sync_finish(Ok(count)),
        (SyncStateView::Writing { .. }, SyncEventView::Rejected) => sync_finish(
            Err(SyncError::IndexWrite),
        ),
        _ => sync_finish(Err(SyncError::OutOfTurn)),
    }
}

fn finish(result: Result<usize, SyncError>) -> (next: (SyncState, SyncAction))
    ensures
        (next.0@, next.1@) == sync_finish(result),
{
    (SyncState::Finished(result), SyncAction::Finish(result))
}

fn configure_next(remaining: Vec<SettingsCall>) -> (next: (SyncState, SyncAction))
    ensures
        (next.0@, next.1@) == next_setting(calls_view(remaining@)),
{
    let mut remaining = remaining;
    if remaining.len() == 0 {
        (
            SyncState::ResolvingCursor,
            SyncAction::QueryCursor { sort: String::from_str(NEWEST_FIRST), limit: 1 },
        )
    } else {
        let ghost calls = calls_view(remaining@);
        let call = remaining.remove(0);
        assert(calls_view(remaining@) =~= calls.drop_first());
        assert(call@ == calls[0]);
        (SyncState::Configuring { remaining }, SyncAction::Configure(call))
    }
}

fn resolve_head(cursor: usize) -> (next: (SyncState, SyncAction))
    ensures
        (next.0@, next.1@) == after_cursor(cursor),
{
    (SyncState::ResolvingHead { cursor }, SyncAction::FetchHead { url: latest_url() })
}

/// Hands `comics` over to be written to the index, keyed by number; an
/// empty batch is not written, and the run ends.
pub fn add_documents(comics: Vec<Comic>) -> (next: (SyncState, SyncAction))
    ensures
        (next.0@, next.1@) == write_of(comics@),
{
    if comics.len() == 0 {
        finish(Ok(0))
    } else {
        (
            SyncState::Writing { count: comics.len() },
            SyncAction::Write { documents: comics, primary_key: String::from_str(NUM_ATTRIBUTE) },
        )
    }
}

/// Decides, with the cursor `start_num` and the head `first` known, what is
/// to be loaded: nothing when the index is up to date, else every number
/// from the cursor up to the head.
pub fn load_comics(start_num: usize, first: Comic) -> (next: (SyncState, SyncAction))
    ensures
        (next.0@, next.1@) == plan_of(start_num, first),
{
    let end_num = first.num;
    if start_num == end_num {
        finish(Ok(0))
    } else {
        let mut comics = Vec::new();
        comics.push(first);
        assert(comics@ =~= seq![first]);
        if start_num < end_num {
            (
                SyncState::Collecting { batch: comics, pending: end_num - start_num },
                SyncAction::FetchRange { start: start_num, end: end_num },
            )
        } else {
            add_documents(comics)
        }
    }
}

fn join(batch: Vec<Comic>, pending: usize, outcome: FetchOutcome) -> (next: (
    SyncState,
    SyncAction,
))
    ensures
        (next.0@, next.1@) == join_of(batch@, pending, outcome),
{
    let mut batch = batch;
    match outcome {
        FetchOutcome::Failed(error) => {
            return finish(Err(error));
        },
        FetchOutcome::NotFound => {},
        FetchOutcome::Found(comic) => {
            batch.push(comic);
        },
    }
    if pending <= 1 {
        add_documents(batch)
    } else {
        (SyncState::Collecting { batch, pending: pending - 1 }, SyncAction::AwaitJoin)
    }
}

/// Answers one event of a run: the next state, and what the caller is to
/// do.
pub fn index_comics(state: SyncState, event: SyncEvent) -> (next: (SyncState, SyncAction))
    ensures
        (next.0@, next.1@) == sync_step(state@, event@),
{
    match state {
        SyncState::Finished(result) => finish(result),
        SyncState::Idle => match event {
            SyncEvent::Begin => configure_next(configure_index(IndexSettings::target())),
            _ => finish(Err(SyncError::OutOfTurn)),
        },
        SyncState::Configuring { remaining } => match event {
            SyncEvent::Acknowledged => configure_next(remaining),
            SyncEvent::Rejected => finish(Err(SyncError::IndexConfig)),
            _ => finish(Err(SyncError::OutOfTurn)),
        },
        SyncState::ResolvingCursor => match event {
            SyncEvent::Hits(hits) => resolve_head(resolve_cursor(&hits)),
            SyncEvent::QueryFailed => resolve_head(FIRST_COMIC),
            _ => finish(Err(SyncError::OutOfTurn)),
        },
        SyncState::ResolvingHead { cursor } => match event {
            SyncEvent::Head(head) => load_comics(cursor, head),
            SyncEvent::HeadUnavailable => finish(Err(SyncError::HeadResolution)),
            _ => finish(Err(SyncError::OutOfTurn)),
        },
        SyncState::Collecting { batch, pending } => match event {
            SyncEvent::Joined(outcome) => join(batch, pending, outcome),
            _ => finish(Err(SyncError::OutOfTurn)),
        },
        SyncState::Writing { count } => match event {
            SyncEvent::Acknowledged => finish(Ok(count)),
            SyncEvent::Rejected => finish(Err(SyncError::IndexWrite)),
            _ => finish(Err(SyncError::OutOfTurn)),
        },
    }
}

} // verus!
