//! What goes on once the bot is ready: the consumer of the feed, and what
//! it does next by what happened last.
//!
//! The consumer pulls one sample at a time and has it dispatched before it
//! pulls the next. When the connection ends it connects anew, and after a
//! failed attempt it waits for a fixed interval and tries again, for as
//! long as it takes. The caller pulls, dispatches, connects and waits; the
//! functions here say which of these comes next.

use vstd::prelude::*;
use crate::ws::consts::WS_TIMEOUT_FOR_RETRY;

verus! {

/// What the consumer is busy with.
#[derive(Debug, Clone, Copy, PartialEq, Eq, Structural)]
pub enum FeedState {
    /// It asks the connection for the next sample.
    Pulling,
    /// It has a sample dispatched.
    Dispatching,
    /// It tries to set up a new connection.
    Connecting,
    /// It lets the retry interval pass.
    Waiting,
}

/// What happened to the thing the consumer was busy with.
#[derive(Debug, Clone, Copy, PartialEq, Eq, Structural)]
pub enum FeedEvent {
    /// The connection gave a sample.
    Received,
    /// The connection gave nothing: it has ended.
    Ended,
    /// The sample was dispatched.
    Dispatched,
    /// The dispatch of the sample failed.
    DispatchFailed,
    /// A new connection stands.
    Connected,
    /// The attempt to connect failed.
    ConnectFailed,
    /// The retry interval has passed.
    Waited,
}

/// What the consumer is to do next.
#[derive(Debug, Clone, Copy, PartialEq, Eq, Structural)]
pub enum FeedAction {
    /// Ask the connection for the next sample.
    Pull,
    /// Have the sample that was received dispatched.
    Dispatch,
    /// Set up a new connection in place of the one that ended.
    Connect,
    /// Let this many seconds pass.
    Wait(u64),
    /// Nothing: the event is none that the consumer was waiting for.
    Ignore,
}

/// The state after an event, and the action that it calls for.
///
/// A sample is dispatched before the next is pulled, and a failed dispatch
/// does not stop the consumer. The end of the connection calls for a new
/// one; a failed attempt calls for a wait of the retry interval, and the
/// wait for another attempt. A new connection is pulled from at once.
pub open spec fn feed_step(state: FeedState, event: FeedEvent) -> (FeedState, FeedAction) {
    match (state, event) {
        (FeedState::Pulling, FeedEvent::Received) => (FeedState::Dispatching, FeedAction::Dispatch),
        (FeedState::Pulling, FeedEvent::Ended) => (FeedState::Connecting, FeedAction::Connect),
        (FeedState::Dispatching, FeedEvent::Dispatched) => (FeedState::Pulling, FeedAction::Pull),
        (FeedState::Dispatching, FeedEvent::DispatchFailed) => (
            FeedState::Pulling,
            FeedAction::Pull,
        ),
        (FeedState::Connecting, FeedEvent::Connected) => (FeedState::Pulling, FeedAction::Pull),
        (FeedState::Connecting, FeedEvent::ConnectFailed) => (
            FeedState::Waiting,
            FeedAction::Wait(WS_TIMEOUT_FOR_RETRY),
        ),
        (FeedState::Waiting, FeedEvent::Waited) => (FeedState::Connecting, FeedAction::Connect),
        _ => (state, FeedAction::Ignore),
    }
}

/// The state after a run of events, and the actions that they called for,
/// in their order.
pub open spec fn feed_run(state: FeedState, events: Seq<FeedEvent>) -> (
    FeedState,
    Seq<FeedAction>,
)
    decreases events.len(),
{
    if events.len() == 0 {
        (state, Seq::empty())
    } else {
        let before = feed_run(state, events.drop_last());
        let last = feed_step(before.0, events.last());
        (last.0, before.1.push(last.1))
    }
}

/// The end of the connection, followed by `failures` attempts that failed,
/// each with the wait after it.
pub open spec fn outage(failures: nat) -> Seq<FeedEvent>
    decreases failures,
{
    if failures == 0 {
        seq![FeedEvent::Ended]
    } else {
        outage((failures - 1) as nat).push(FeedEvent::ConnectFailed).push(FeedEvent::Waited)
    }
}

/// One attempt to connect, followed by `failures` times a wait of the retry
/// interval and another attempt.
pub open spec fn attempts(failures: nat) -> Seq<FeedAction>
    decreases failures,
{
    if failures == 0 {
        seq![FeedAction::Connect]
    } else {
        attempts((failures - 1) as nat).push(FeedAction::Wait(WS_TIMEOUT_FOR_RETRY)).push(
            FeedAction::Connect,
        )
    }
}

/// The state in which a consumer starts, with a connection that stands.
pub fn feed_start() -> (r: (FeedState, FeedAction))
    ensures
        r == (FeedState::Pulling, FeedAction::Pull),
{
    (FeedState::Pulling, FeedAction::Pull)
}

/// Takes what happened last and says what the consumer does next.
pub fn ws_event_step(state: FeedState, event: FeedEvent) -> (r: (FeedState, FeedAction))
    ensures
        r == feed_step(state, event),
{
    match (state, event) {
        (FeedState::Pulling, FeedEvent::Received) => (FeedState::Dispatching, FeedAction::Dispatch),
        (FeedState::Pulling, FeedEvent::Ended) => (FeedState::Connecting, FeedAction::Connect),
        (FeedState::Dispatching, FeedEvent::Dispatched) => (FeedState::Pulling, FeedAction::Pull),
        (FeedState::Dispatching, FeedEvent::DispatchFailed) => (
            FeedState::Pulling,
            FeedAction::Pull,
        ),
        (FeedState::Connecting, FeedEvent::Connected) => (FeedState::Pulling, FeedAction::Pull),
        (FeedState::Connecting, FeedEvent::ConnectFailed) => (
            FeedState::Waiting,
            FeedAction::Wait(WS_TIMEOUT_FOR_RETRY),
        ),
        (FeedState::Waiting, FeedEvent::Waited) => (FeedState::Connecting, FeedAction::Connect),
        _ => (state, FeedAction::Ignore),
    }
}

/// However often the attempt to connect fails after the connection has
/// ended, the consumer goes on: it has made one attempt more than have
/// failed, with one wait of the retry interval before each but the first,
/// and its last attempt is under way.
pub proof fn lemma_reconnects_until_connected(failures: nat)
    ensures
        feed_run(FeedState::Pulling, outage(failures)) == (
            FeedState::Connecting,
            attempts(failures),
        ),
    decreases failures,
{
    if failures == 0 {
        let events = outage(0);
        assert(events.drop_last() =~= Seq::<FeedEvent>::empty());
        assert(feed_run(FeedState::Pulling, events.drop_last()).1 =~= Seq::<FeedAction>::empty());
        assert(feed_run(FeedState::Pulling, events).1 =~= attempts(0));
    } else {
        lemma_reconnects_until_connected((failures - 1) as nat);
        let earlier = outage((failures - 1) as nat);
        let failed = earlier.push(FeedEvent::ConnectFailed);
        let waited = failed.push(FeedEvent::Waited);
        assert(failed.drop_last() =~= earlier);
        assert(waited.drop_last() =~= failed);
        assert(feed_run(FeedState::Pulling, failed) == (
            FeedState::Waiting,
            attempts((failures - 1) as nat).push(FeedAction::Wait(WS_TIMEOUT_FOR_RETRY)),
        ));
    }
}

/// Once an attempt to connect succeeds, the consumer pulls at once, and the
/// first sample of the new connection is dispatched like any other.
pub proof fn lemma_resumes_after_connect(failures: nat)
    ensures
        ({
            let connecting = feed_run(FeedState::Pulling, outage(failures)).0;
            let connected = feed_step(connecting, FeedEvent::Connected);
            let first = feed_step(connected.0, FeedEvent::Received);
            &&& connected == (FeedState::Pulling, FeedAction::Pull)
            &&& first == (FeedState::Dispatching, FeedAction::Dispatch)
        }),
{
    lemma_reconnects_until_connected(failures);
}

} // verus!
