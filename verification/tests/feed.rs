use pace_ping::handler::ready::{feed_start, ws_event_step, FeedAction, FeedEvent, FeedState};
use pace_ping::ws::consts::WS_TIMEOUT_FOR_RETRY;

const STATES: [FeedState; 4] =
    [FeedState::Pulling, FeedState::Dispatching, FeedState::Connecting, FeedState::Waiting];

const EVENTS: [FeedEvent; 7] = [
    FeedEvent::Received,
    FeedEvent::Ended,
    FeedEvent::Dispatched,
    FeedEvent::DispatchFailed,
    FeedEvent::Connected,
    FeedEvent::ConnectFailed,
    FeedEvent::Waited,
];

#[test]
fn consumer_starts_by_pulling() {
    assert_eq!(feed_start(), (FeedState::Pulling, FeedAction::Pull));
}

#[test]
fn sample_is_dispatched_before_the_next_pull() {
    assert_eq!(
        ws_event_step(FeedState::Pulling, FeedEvent::Received),
        (FeedState::Dispatching, FeedAction::Dispatch)
    );
    assert_eq!(
        ws_event_step(FeedState::Dispatching, FeedEvent::Dispatched),
        (FeedState::Pulling, FeedAction::Pull)
    );
}

#[test]
fn failed_dispatch_does_not_stop_the_consumer() {
    assert_eq!(
        ws_event_step(FeedState::Dispatching, FeedEvent::DispatchFailed),
        (FeedState::Pulling, FeedAction::Pull)
    );
}

#[test]
fn consumer_reconnects_until_it_succeeds() {
    let (mut state, mut action) = ws_event_step(FeedState::Pulling, FeedEvent::Ended);
    assert_eq!((state, action), (FeedState::Connecting, FeedAction::Connect));
    for _ in 0..1000 {
        (state, action) = ws_event_step(state, FeedEvent::ConnectFailed);
        assert_eq!((state, action), (FeedState::Waiting, FeedAction::Wait(WS_TIMEOUT_FOR_RETRY)));
        (state, action) = ws_event_step(state, FeedEvent::Waited);
        assert_eq!((state, action), (FeedState::Connecting, FeedAction::Connect));
    }
    (state, action) = ws_event_step(state, FeedEvent::Connected);
    assert_eq!((state, action), (FeedState::Pulling, FeedAction::Pull));
    (state, action) = ws_event_step(state, FeedEvent::Received);
    assert_eq!((state, action), (FeedState::Dispatching, FeedAction::Dispatch));
}

#[test]
fn retry_interval_is_five_seconds() {
    assert_eq!(WS_TIMEOUT_FOR_RETRY, 5);
}

#[test]
fn events_out_of_turn_change_nothing() {
    let expected = |state: FeedState, event: FeedEvent| -> bool {
        matches!(
            (state, event),
            (FeedState::Pulling, FeedEvent::Received)
                | (FeedState::Pulling, FeedEvent::Ended)
                | (FeedState::Dispatching, FeedEvent::Dispatched)
                | (FeedState::Dispatching, FeedEvent::DispatchFailed)
                | (FeedState::Connecting, FeedEvent::Connected)
                | (FeedState::Connecting, FeedEvent::ConnectFailed)
                | (FeedState::Waiting, FeedEvent::Waited)
        )
    };
    let mut ignored = 0;
    for state in STATES {
        for event in EVENTS {
            let (next, action) = ws_event_step(state, event);
            if expected(state, event) {
                assert_ne!(action, FeedAction::Ignore);
            } else {
                assert_eq!((next, action), (state, FeedAction::Ignore));
                ignored += 1;
            }
        }
    }
    assert_eq!(ignored, 21);
}
