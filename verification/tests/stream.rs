use crux_core::stream::{step_outcome, Polled, Received, StreamState};

#[test]
fn the_request_is_sent_on_the_first_poll_only() {
    let mut state = StreamState::new();
    assert!(state.begin_poll());
    assert_eq!(state.finish_poll::<u8>(Received::Empty), Polled::Pending);
    assert!(!state.begin_poll());
    assert!(!state.begin_poll());
}

#[test]
fn a_poll_yields_waits_or_ends() {
    let mut state = StreamState::new();
    state.begin_poll();
    assert_eq!(state.finish_poll(Received::Item(3u8)), Polled::Ready(Some(3)));
    assert!(!state.waker_registered);

    assert_eq!(state.finish_poll::<u8>(Received::Empty), Polled::Pending);
    assert!(state.waker_registered);

    // An answer wakes the waiting poller, once.
    assert!(state.deliver());
    assert!(!state.deliver());

    assert_eq!(state.finish_poll::<u8>(Received::Closed), Polled::Ready(None));
}

#[test]
fn an_answer_for_a_dropped_stream_finishes_the_step() {
    assert_eq!(step_outcome(true), Ok(()));
    assert_eq!(step_outcome(false), Err(()));
}
