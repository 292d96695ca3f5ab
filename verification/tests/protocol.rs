use slave_pool::oneshot::{
    blocked_step, drop_plan, first_step, must_park, notifier_stored, poll_step, receiver_releases,
    sender_releases, timeout_step, ChannelState, DropPlan, Step, CONSUMED, READY, RECV_CLOSED,
    SEND_CLOSED, UNINIT, WAKER_SET,
};
use slave_pool::JoinError;

#[test]
fn flags_are_distinct_bits() {
    assert_eq!(UNINIT, 0);
    assert_eq!(READY, 1);
    assert_eq!(WAKER_SET, 2);
    assert_eq!(SEND_CLOSED, 4);
    assert_eq!(CONSUMED, 8);
    assert_eq!(RECV_CLOSED, 16);
}

#[test]
fn first_look_prefers_consumed_then_ready_then_closed() {
    assert_eq!(first_step(CONSUMED | READY), Step::Fail(JoinError::AlreadyConsumed));
    assert_eq!(first_step(CONSUMED | SEND_CLOSED), Step::Fail(JoinError::AlreadyConsumed));
    assert_eq!(first_step(READY | SEND_CLOSED), Step::Take);
    assert_eq!(first_step(READY | WAKER_SET | RECV_CLOSED), Step::Take);
    assert_eq!(first_step(SEND_CLOSED), Step::Fail(JoinError::Disconnect));
    assert_eq!(first_step(UNINIT), Step::Wait);
    assert_eq!(first_step(WAKER_SET | RECV_CLOSED), Step::Wait);
}

#[test]
fn blocked_receive_prefers_value_over_closed_sender() {
    assert_eq!(blocked_step(READY | SEND_CLOSED), Step::Take);
    assert_eq!(blocked_step(READY | WAKER_SET), Step::Take);
    assert_eq!(blocked_step(SEND_CLOSED | WAKER_SET), Step::Fail(JoinError::Disconnect));
    assert_eq!(blocked_step(WAKER_SET), Step::Wait);
}

#[test]
fn poll_prefers_closed_sender_over_value() {
    assert_eq!(poll_step(READY | SEND_CLOSED), Step::Fail(JoinError::Disconnect));
    assert_eq!(poll_step(READY | WAKER_SET), Step::Take);
    assert_eq!(poll_step(WAKER_SET), Step::Wait);
}

#[test]
fn timed_receive_reclaims_notifier_and_times_out() {
    assert_eq!(timeout_step(WAKER_SET), (true, Step::Fail(JoinError::Timeout)));
    assert_eq!(timeout_step(WAKER_SET | SEND_CLOSED), (true, Step::Fail(JoinError::Disconnect)));
    assert_eq!(timeout_step(SEND_CLOSED), (false, Step::Fail(JoinError::Disconnect)));
    assert_eq!(timeout_step(READY | SEND_CLOSED), (false, Step::Take));
    assert_eq!(timeout_step(READY), (false, Step::Take));
    assert_eq!(timeout_step(READY | WAKER_SET), (true, Step::Take));
    assert_eq!(timeout_step(UNINIT), (false, Step::Fail(JoinError::Timeout)));
}

#[test]
fn park_and_notifier_decisions() {
    assert!(must_park(WAKER_SET));
    assert!(!must_park(READY | WAKER_SET));
    assert!(notifier_stored(WAKER_SET | READY));
    assert!(!notifier_stored(READY | SEND_CLOSED));
}

#[test]
fn last_side_to_close_releases() {
    assert!(sender_releases(RECV_CLOSED | READY));
    assert!(!sender_releases(READY | WAKER_SET));
    assert!(receiver_releases(SEND_CLOSED));
    assert!(!receiver_releases(READY | CONSUMED));
}

#[test]
fn payload_drops_untaken_value_and_stored_notifier() {
    assert_eq!(drop_plan(READY), DropPlan { drop_value: true, drop_notifier: false });
    assert_eq!(
        drop_plan(READY | CONSUMED | WAKER_SET),
        DropPlan { drop_value: false, drop_notifier: true }
    );
    assert_eq!(
        drop_plan(SEND_CLOSED | RECV_CLOSED),
        DropPlan { drop_value: false, drop_notifier: false }
    );
}

#[test]
fn channel_receive_after_look() {
    let state = ChannelState::new();
    assert_eq!(state.first_look(), (UNINIT, Step::Wait));
    assert_eq!(state.mark_ready(), (UNINIT, false));
    assert_eq!(state.first_look(), (READY, Step::Take));
    state.mark_consumed();
    assert_eq!(state.first_look(), (READY | CONSUMED, Step::Fail(JoinError::AlreadyConsumed)));
}

#[test]
fn channel_send_wakes_stored_notifier() {
    let state = ChannelState::new();
    assert_eq!(state.register_notifier(), UNINIT);
    assert_eq!(state.mark_ready(), (WAKER_SET, true));
    state.clear_notifier();
    assert_eq!(state.observe(), READY);
}

#[test]
fn channel_receiver_closes_first_sender_releases() {
    let state = ChannelState::new();
    assert_eq!(state.close_receiver(), (UNINIT, false));
    let closing = state.begin_sender_close();
    assert_eq!(closing.observed, RECV_CLOSED);
    assert!(!closing.take_notifier);
    assert_eq!(state.finish_sender_close(false), (RECV_CLOSED, true));
}

#[test]
fn channel_sender_closes_first_receiver_releases() {
    let state = ChannelState::new();
    assert_eq!(state.register_notifier(), UNINIT);
    let closing = state.begin_sender_close();
    assert_eq!(closing.observed, WAKER_SET);
    assert!(closing.take_notifier);
    assert_eq!(state.finish_sender_close(true), (WAKER_SET, false));
    assert_eq!(state.observe(), SEND_CLOSED);
    assert_eq!(state.first_look(), (SEND_CLOSED, Step::Fail(JoinError::Disconnect)));
    assert_eq!(state.close_receiver(), (SEND_CLOSED, true));
    assert_eq!(state.observe_exclusive(), SEND_CLOSED | RECV_CLOSED);
}

#[test]
fn channel_timed_wait_without_value() {
    let state = ChannelState::new();
    assert_eq!(state.register_notifier(), UNINIT);
    assert_eq!(
        state.withdraw_notifier(),
        (WAKER_SET, (true, Step::Fail(JoinError::Timeout)))
    );
    assert_eq!(state.observe(), UNINIT);
    assert_eq!(state.mark_ready(), (UNINIT, false));
    assert_eq!(state.withdraw_notifier(), (READY, (false, Step::Take)));
}

#[test]
fn channel_value_left_after_sender_closes() {
    let state = ChannelState::new();
    state.mark_ready();
    let closing = state.begin_sender_close();
    assert!(!closing.take_notifier);
    assert_eq!(state.finish_sender_close(false), (READY, false));
    assert_eq!(state.first_look().1, Step::Take);
    assert_eq!(
        drop_plan(state.observe_exclusive()),
        DropPlan { drop_value: true, drop_notifier: false }
    );
}
