//! The fetch of one comic, as a state machine.
//!
//! The transport sends the requests and waits; every decision is made here.
//! A run starts in [`FetchState::new`] with the event [`FetchEvent::Begin`].
//! Each call of [`load_comic`] answers one event with the next state and the
//! action to perform, until the action is [`FetchAction::Finish`].

use vstd::prelude::*;
use crate::comic::Comic;
use crate::error::SyncError;
use crate::status::{StatusClass, classify_status, status_class};
use crate::text::{comic_url, comic_url_spec};

verus! {

/// How long a failing comic is tried again.
#[derive(Debug, Clone, Copy, PartialEq, Eq, Structural)]
pub struct RetryPolicy {
    /// How many times one comic is requested again after a transient failure.
    pub max_retries: u64,
    /// The pause before each new request, in seconds.
    pub delay_secs: u64,
}

impl Default for RetryPolicy {
    /// Three seconds between requests, and an allowance that will not run out
    /// in practice.
    fn default() -> (policy: RetryPolicy)
        ensures
            policy == (RetryPolicy { max_retries: u64::MAX, delay_secs: 3 }),
    {
        RetryPolicy { max_retries: u64::MAX, delay_secs: 3 }
    }
}

/// How one fetch ended.
#[derive(Debug, Clone, PartialEq, Eq)]
pub enum FetchOutcome {
    /// The comic is published; here it is.
    Found(Comic),
    /// No comic has this number: an expected gap.
    NotFound,
    /// The fetch cannot be completed.
    Failed(SyncError),
}

/// Where a fetch stands.
#[derive(Debug, Clone, Copy, PartialEq, Eq, Structural)]
pub enum FetchPhase {
    /// Nothing was sent yet.
    Idle,
    /// A request is out; its status is awaited.
    AwaitingStatus,
    /// The status was a success; the decoded body is awaited.
    AwaitingBody,
    /// The outcome was handed out.
    Finished,
}

/// The state of the fetch of comic `num`.
#[derive(Debug, Clone, Copy, PartialEq, Eq, Structural)]
pub struct FetchState {
    pub num: usize,
    /// The requests repeated so far.
    pub retries: u64,
    pub phase: FetchPhase,
}

/// What the transport reports.
#[derive(Debug, Clone, PartialEq, Eq)]
pub enum FetchEvent {
    /// The fetch is to start.
    Begin,
    /// An answer arrived, with this status.
    Status(u16),
    /// No answer arrived, or it broke off: a failure of the network.
    Unreachable,
    /// The body was read and is this item.
    Body(Comic),
    /// The body was read and is no item.
    Malformed,
}

/// What the transport is to do next.
#[derive(Debug, Clone, PartialEq, Eq)]
pub enum FetchAction {
    /// Request `url` and report the status.
    Get { url: String },
    /// Read the body of the answer just reported and decode it.
    ReadBody,
    /// Wait `secs` seconds, then request `url` and report the status.
    RetryAfter { secs: u64, url: String },
    /// Stop: this is the outcome.
    Finish(FetchOutcome),
}

/// A [`FetchAction`] with its texts as sequences of characters.
pub enum FetchActionView {
    Get { url: Seq<char> },
    ReadBody,
    RetryAfter { secs: u64, url: Seq<char> },
    Finish(FetchOutcome),
}

impl View for FetchAction {
    type V = FetchActionView;

    open spec fn view(&self) -> FetchActionView {
        match *self {
            FetchAction::Get { url } => FetchActionView::Get { url: url@ },
            FetchAction::ReadBody => FetchActionView::ReadBody,
            FetchAction::RetryAfter { secs, url } => FetchActionView::RetryAfter {
                secs,
                url: url@,
            },
            FetchAction::Finish(outcome) => FetchActionView::Finish(outcome),
        }
    }
}

impl FetchState {
    /// The state before anything was sent.
    pub open spec fn initial(num: usize) -> FetchState {
        FetchState { num, retries: 0, phase: FetchPhase::Idle }
    }

    /// The state of a fetch of comic `num` that has not started.
    pub fn new(num: usize) -> (state: FetchState)
        ensures
            state == FetchState::initial(num),
    {
        FetchState { num, retries: 0, phase: FetchPhase::Idle }
    }
}

/// The state and the action that end a fetch with `outcome`.
pub open spec fn fetch_finish(state: FetchState, outcome: FetchOutcome) -> (
    FetchState,
    FetchActionView,
) {
    (FetchState { phase: FetchPhase::Finished, ..state }, FetchActionView::Finish(outcome))
}

/// After a transient failure: once more, as long as the allowance lasts.
pub open spec fn fetch_retry(policy: RetryPolicy, state: FetchState) -> (
    FetchState,
    FetchActionView,
) {
    if state.retries < policy.max_retries {
        (
            FetchState {
                num: state.num,
                retries: (state.retries + 1) as u64,
                phase: FetchPhase::AwaitingStatus,
            },
            FetchActionView::RetryAfter { secs: policy.delay_secs, url: comic_url_spec(state.num) },
        )
    } else {
        fetch_finish(state, FetchOutcome::Failed(SyncError::RetriesExhausted { num: state.num }))
    }
}

/// The transition function of the fetch.
///
/// A success status asks for the body; the decoded body is the item found,
/// and a body that does not decode ends the fetch with an error at once. A
/// server error, or a failure of the network, is tried again after the
/// policy's pause until the allowance is used up. Every other status means
/// that the comic is not there. An event that the state does not wait for
/// ends the fetch with [`SyncError::OutOfTurn`].
pub open spec fn fetch_step(policy: RetryPolicy, state: FetchState, event: FetchEvent) -> (
    FetchState,
    FetchActionView,
) {
    match (state.phase, event) {
        (FetchPhase::Idle, FetchEvent::Begin) => (
            FetchState { phase: FetchPhase::AwaitingStatus, ..state },
            FetchActionView::Get { url: comic_url_spec(state.num) },
        ),
        (FetchPhase::AwaitingStatus, FetchEvent::Status(code)) => match status_class(code) {
            StatusClass::Success => (
                FetchState { phase: FetchPhase::AwaitingBody, ..state },
                FetchActionView::ReadBody,
            ),
            StatusClass::ServerError => fetch_retry(policy, state),
            StatusClass::Absent => fetch_finish(state, FetchOutcome::NotFound),
        },
        (FetchPhase::AwaitingStatus, FetchEvent::Unreachable) => fetch_retry(policy, state),
        (FetchPhase::AwaitingBody, FetchEvent::Unreachable) => fetch_retry(policy, state),
        (FetchPhase::AwaitingBody, FetchEvent::Body(comic)) => fetch_finish(
            state,
            FetchOutcome::Found(comic),
        ),
        (FetchPhase::AwaitingBody, FetchEvent::Malformed) => fetch_finish(
            state,
            FetchOutcome::Failed(SyncError::MalformedItem { num: state.num }),
        ),
        _ => fetch_finish(state, FetchOutcome::Failed(SyncError::OutOfTurn)),
    }
}

fn finish(state: FetchState, outcome: FetchOutcome) -> (next: (FetchState, FetchAction))
    ensures
        (next.0, next.1@) == fetch_finish(state, outcome),
{
    (
        FetchState { num: state.num, retries: state.retries, phase: FetchPhase::Finished },
        FetchAction::Finish(outcome),
    )
}

fn retry(policy: &RetryPolicy, state: FetchState) -> (next: (FetchState, FetchAction))
    ensures
        (next.0, next.1@) == fetch_retry(*policy, state),
{
    if state.retries < policy.max_retries {
        (
            FetchState {
                num: state.num,
                retries: state.retries + 1,
                phase: FetchPhase::AwaitingStatus,
            },
            FetchAction::RetryAfter { secs: policy.delay_secs, url: comic_url(state.num) },
        )
    } else {
        finish(state, FetchOutcome::Failed(SyncError::RetriesExhausted { num: state.num }))
    }
}

/// Answers one event of the fetch of a comic: the next state, and what the
/// transport is to do.
pub fn load_comic(policy: &RetryPolicy, state: FetchState, event: FetchEvent) -> (next: (
    FetchState,
    FetchAction,
))
    ensures
        (next.0, next.1@) == fetch_step(*policy, state, event),
{
    match state.phase {
        FetchPhase::Idle => match event {
            FetchEvent::Begin => (
                FetchState {
                    num: state.num,
                    retries: state.retries,
                    phase: FetchPhase::AwaitingStatus,
                },
                FetchAction::Get { url: comic_url(state.num) },
            ),
            _ => finish(state, FetchOutcome::Failed(SyncError::OutOfTurn)),
        },
        FetchPhase::AwaitingStatus => match event {
            FetchEvent::Status(code) => match classify_status(code) {
                StatusClass::Success => (
                    FetchState {
                        num: state.num,
                        retries: state.retries,
                        phase: FetchPhase::AwaitingBody,
                    },
                    FetchAction::ReadBody,
                ),
                StatusClass::ServerError => retry(policy, state),
                StatusClass::Absent => finish(state, FetchOutcome::NotFound),
            },
            FetchEvent::Unreachable => retry(policy, state),
            _ => finish(state, FetchOutcome::Failed(SyncError::OutOfTurn)),
        },
        FetchPhase::AwaitingBody => match event {
            FetchEvent::Unreachable => retry(policy, state),
            FetchEvent::Body(comic) => finish(state, FetchOutcome::Found(comic)),
            FetchEvent::Malformed => finish(
                state,
                FetchOutcome::Failed(SyncError::MalformedItem { num: state.num }),
            ),
            _ => finish(state, FetchOutcome::Failed(SyncError::OutOfTurn)),
        },
        FetchPhase::Finished => finish(state, FetchOutcome::Failed(SyncError::OutOfTurn)),
    }
}

/// Whether `event` reports a failure that is worth another try.
pub open spec fn is_transient(event: FetchEvent) -> bool {
    match event {
        FetchEvent::Unreachable => true,
        FetchEvent::Status(code) => status_class(code) == StatusClass::ServerError,
        _ => false,
    }
}

/// The outcome that `events` lead to from `state`: that of the first action
/// that finishes the fetch, or `None` while the fetch is still under way.
pub open spec fn fetch_outcome(policy: RetryPolicy, state: FetchState, events: Seq<FetchEvent>)
    -> Option<FetchOutcome>
    decreases events.len(),
{
    if events.len() == 0 {
        None
    } else {
        let (next, action) = fetch_step(policy, state, events[0]);
        match action {
            FetchActionView::Finish(outcome) => Some(outcome),
            _ => fetch_outcome(policy, next, events.drop_first()),
        }
    }
}

/// Transient failures within the allowance change nothing but the count of
/// retries: the fetch goes on as if it had just sent its request.
pub proof fn lemma_transient_failures_are_retried(
    policy: RetryPolicy,
    state: FetchState,
    failures: Seq<FetchEvent>,
    rest: Seq<FetchEvent>,
)
    requires
        state.phase == FetchPhase::AwaitingStatus,
        forall|i: int| 0 <= i < failures.len() ==> is_transient(#[trigger] failures[i]),
        state.retries + failures.len() <= policy.max_retries,
    ensures
        fetch_outcome(policy, state, failures + rest) == fetch_outcome(
            policy,
            FetchState { retries: (state.retries + failures.len()) as u64, ..state },
            rest,
        ),
    decreases failures.len(),
{
    if failures.len() == 0 {
        assert(failures + rest =~= rest);
    } else {
        let next = fetch_step(policy, state, failures[0]).0;
        assert(is_transient(failures[0]));
        assert((failures + rest)[0] == failures[0]);
        assert((failures + rest).drop_first() =~= failures.drop_first() + rest);
        lemma_transient_failures_are_retried(policy, next, failures.drop_first(), rest);
    }
}

/// A comic that answers with a success and a well-formed body, after any
/// number of transient failures that the allowance covers, is found.
pub proof fn lemma_retry_then_found(
    policy: RetryPolicy,
    num: usize,
    failures: Seq<FetchEvent>,
    code: u16,
    comic: Comic,
)
    requires
        forall|i: int| 0 <= i < failures.len() ==> is_transient(#[trigger] failures[i]),
        failures.len() <= policy.max_retries,
        status_class(code) == StatusClass::Success,
    ensures
        fetch_outcome(
            policy,
            FetchState::initial(num),
            seq![FetchEvent::Begin] + (failures + seq![
                FetchEvent::Status(code),
                FetchEvent::Body(comic),
            ]),
        ) == Some(FetchOutcome::Found(comic)),
{
    let tail = seq![FetchEvent::Status(code), FetchEvent::Body(comic)];
    let events = seq![FetchEvent::Begin] + (failures + tail);
    let sent = FetchState { phase: FetchPhase::AwaitingStatus, ..FetchState::initial(num) };
    assert(events[0] == FetchEvent::Begin);
    assert(events.drop_first() =~= failures + tail);
    lemma_transient_failures_are_retried(policy, sent, failures, tail);
    let retried = FetchState { retries: failures.len() as u64, ..sent };
    assert(tail.drop_first() =~= seq![FetchEvent::Body(comic)]);
    assert(tail[0] == FetchEvent::Status(code));
    assert(fetch_outcome(policy, retried, tail) == Some(FetchOutcome::Found(comic))) by {
        reveal_with_fuel(fetch_outcome, 3);
    }
}

/// A comic whose answer is neither a success nor a server error is reported
/// as not found, whatever transient failures came before.
pub proof fn lemma_absent_is_not_found(
    policy: RetryPolicy,
    num: usize,
    failures: Seq<FetchEvent>,
    code: u16,
)
    requires
        forall|i: int| 0 <= i < failures.len() ==> is_transient(#[trigger] failures[i]),
        failures.len() <= policy.max_retries,
        status_class(code) == StatusClass::Absent,
    ensures
        fetch_outcome(
            policy,
            FetchState::initial(num),
            seq![FetchEvent::Begin] + (failures + seq![FetchEvent::Status(code)]),
        ) == Some(FetchOutcome::NotFound),
{
    let tail = seq![FetchEvent::Status(code)];
    let events = seq![FetchEvent::Begin] + (failures + tail);
    let sent = FetchState { phase: FetchPhase::AwaitingStatus, ..FetchState::initial(num) };
    assert(events[0] == FetchEvent::Begin);
    assert(events.drop_first() =~= failures + tail);
    lemma_transient_failures_are_retried(policy, sent, failures, tail);
    assert(tail[0] == FetchEvent::Status(code));
}

/// A body that does not decode fails the fetch at once: it is never tried
/// again, however much of the allowance is left.
pub proof fn lemma_malformed_is_fatal(
    policy: RetryPolicy,
    state: FetchState,
    rest: Seq<FetchEvent>,
)
    requires
        state.phase == FetchPhase::AwaitingBody,
    ensures
        fetch_outcome(policy, state, seq![FetchEvent::Malformed] + rest) == Some(
            FetchOutcome::Failed(SyncError::MalformedItem { num: state.num }),
        ),
{
    assert((seq![FetchEvent::Malformed] + rest)[0] == FetchEvent::Malformed);
}

/// One transient failure more than the allowance covers fails the fetch.
pub proof fn lemma_retries_run_out(policy: RetryPolicy, num: usize, failures: Seq<FetchEvent>)
    requires
        forall|i: int| 0 <= i < failures.len() ==> is_transient(#[trigger] failures[i]),
        failures.len() == policy.max_retries + 1,
    ensures
        fetch_outcome(policy, FetchState::initial(num), seq![FetchEvent::Begin] + failures)
            == Some(FetchOutcome::Failed(SyncError::RetriesExhausted { num })),
{
    let events = seq![FetchEvent::Begin] + failures;
    let sent = FetchState { phase: FetchPhase::AwaitingStatus, ..FetchState::initial(num) };
    let covered = failures.drop_last();
    let tail = seq![failures.last()];
    assert(events[0] == FetchEvent::Begin);
    assert(events.drop_first() =~= covered + tail);
    lemma_transient_failures_are_retried(policy, sent, covered, tail);
    assert(is_transient(failures[failures.len() - 1]));
    assert(tail[0] == failures.last());
}

} // verus!
