//! The state protocol of the one-shot channel that carries a job's result
//! from the worker (the sender side) to the job handle (the receiver side).
//!
//! Both sides share one byte of flags. Every decision either side takes is a
//! function of the byte it observed; this module computes those decisions
//! and performs the atomic operations; `protocol` proves what holds of their
//! interleavings: some laws of every interleaving, the others of the runs
//! that keep a stated discipline.

use vstd::prelude::*;

use core::sync::atomic::AtomicU8;

use crate::protocol::{releases, Event};
use crate::JoinError;

verus! {

/// No flag set: nothing sent, nobody waiting, both sides alive.
pub const UNINIT: u8 = 0b00000;
/// The value has been written by the sender.
pub const READY: u8 = 0b00001;
/// The receiver has stored a notifier that the sender must wake.
pub const WAKER_SET: u8 = 0b00010;
/// The sender is gone.
pub const SEND_CLOSED: u8 = 0b00100;
/// The receiver has taken the value out.
pub const CONSUMED: u8 = 0b01000;
/// The receiver is gone.
pub const RECV_CLOSED: u8 = 0b10000;

/// `bit` is set in `state`.
pub open spec fn is_set(state: u8, bit: u8) -> bool {
    state & bit == bit
}

/// What a receiving operation does next with the state it observed.
#[derive(Debug, Clone, Copy, PartialEq, Eq, Structural)]
pub enum Step {
    /// Take the value out of the channel.
    Take,
    /// Give up with this error.
    Fail(JoinError),
    /// Nothing to take yet: wait (or report that nothing is there).
    Wait,
}

/// First look of every receiving operation: an earlier take wins over
/// everything, then a ready value, then a closed sender.
pub open spec fn first_step_of(state: u8) -> Step {
    if is_set(state, CONSUMED) {
        Step::Fail(JoinError::AlreadyConsumed)
    } else if is_set(state, READY) {
        Step::Take
    } else if is_set(state, SEND_CLOSED) {
        Step::Fail(JoinError::Disconnect)
    } else {
        Step::Wait
    }
}

/// Blocking receive, after the notifier is registered or after a wake-up:
/// a ready value wins over a closed sender.
pub open spec fn blocked_step_of(state: u8) -> Step {
    if is_set(state, READY) {
        Step::Take
    } else if is_set(state, SEND_CLOSED) {
        Step::Fail(JoinError::Disconnect)
    } else {
        Step::Wait
    }
}

/// Polling, after the waker is in place: a closed sender wins over a
/// ready value.
pub open spec fn poll_step_of(state: u8) -> Step {
    if is_set(state, SEND_CLOSED) {
        Step::Fail(JoinError::Disconnect)
    } else if is_set(state, READY) {
        Step::Take
    } else {
        Step::Wait
    }
}

/// Timed receive, given the state from before the receiver cleared its
/// notifier flag: the value if it is there, else `Disconnect` if the sender
/// went away without sending (the job was aborted), else a timeout (the job
/// continues).
pub open spec fn timeout_step_of(state: u8) -> Step {
    if is_set(state, READY) {
        Step::Take
    } else if is_set(state, SEND_CLOSED) {
        Step::Fail(JoinError::Disconnect)
    } else {
        Step::Fail(JoinError::Timeout)
    }
}

/// What to dispose of when the shared payload itself goes away.
#[derive(Debug, Clone, Copy, PartialEq, Eq, Structural)]
pub struct DropPlan {
    /// A value was written and never taken: it must be dropped.
    pub drop_value: bool,
    /// A notifier is still stored: it must be dropped without waking.
    pub drop_notifier: bool,
}

/// The first look of every receiving operation (`try_recv`, `recv`,
/// `recv_timeout`, `poll`).
pub fn first_step(state: u8) -> (r: Step)
    ensures
        r == first_step_of(state),
{
    if state & CONSUMED == CONSUMED {
        Step::Fail(JoinError::AlreadyConsumed)
    } else if state & READY == READY {
        Step::Take
    } else if state & SEND_CLOSED == SEND_CLOSED {
        Step::Fail(JoinError::Disconnect)
    } else {
        Step::Wait
    }
}

/// The decision of a blocking receive once its notifier is registered, and
/// after each wake-up.
pub fn blocked_step(state: u8) -> (r: Step)
    ensures
        r == blocked_step_of(state),
{
    if state & READY == READY {
        Step::Take
    } else if state & SEND_CLOSED == SEND_CLOSED {
        Step::Fail(JoinError::Disconnect)
    } else {
        Step::Wait
    }
}

/// The decision of a poll once its waker is in place.
pub fn poll_step(state: u8) -> (r: Step)
    ensures
        r == poll_step_of(state),
{
    if state & SEND_CLOSED == SEND_CLOSED {
        Step::Fail(JoinError::Disconnect)
    } else if state & READY == READY {
        Step::Take
    } else {
        Step::Wait
    }
}

/// The decision of a timed receive after its wait, from the state seen when
/// it cleared its notifier flag. The first component says whether the
/// receiver must take its own notifier back (the sender did not take it).
pub fn timeout_step(prev: u8) -> (r: (bool, Step))
    ensures
        r.0 == is_set(prev, WAKER_SET),
        r.1 == timeout_step_of(prev),
{
    let reclaim = prev & WAKER_SET == WAKER_SET;
    if prev & READY == READY {
        (reclaim, Step::Take)
    } else if prev & SEND_CLOSED == SEND_CLOSED {
        (reclaim, Step::Fail(JoinError::Disconnect))
    } else {
        (reclaim, Step::Fail(JoinError::Timeout))
    }
}

/// Whether a notifier is stored in the observed state: the sender must take
/// and wake it, a poll must not store a second one.
pub fn notifier_stored(state: u8) -> (r: bool)
    ensures
        r == is_set(state, WAKER_SET),
{
    state & WAKER_SET == WAKER_SET
}

/// Whether a timed receive has to park after registering its notifier: only
/// while the value is not there.
pub fn must_park(state: u8) -> (r: bool)
    ensures
        r == !is_set(state, READY),
{
    state & READY != READY
}

/// Whether the side that just closed, having seen `prev` from its closing
/// operation, is the last one and must free the shared payload.
pub fn sender_releases(prev: u8) -> (r: bool)
    ensures
        r == is_set(prev, RECV_CLOSED),
{
    prev & RECV_CLOSED == RECV_CLOSED
}

/// Whether the closing receiver, having seen `prev` from its closing
/// operation, is the last one and must free the shared payload.
pub fn receiver_releases(prev: u8) -> (r: bool)
    ensures
        r == is_set(prev, SEND_CLOSED),
{
    prev & SEND_CLOSED == SEND_CLOSED
}

/// What the payload must dispose of when it is freed in `state`.
pub fn drop_plan(state: u8) -> (r: DropPlan)
    ensures
        r.drop_value == (is_set(state, READY) && !is_set(state, CONSUMED)),
        r.drop_notifier == is_set(state, WAKER_SET),
{
    DropPlan {
        drop_value: state & READY == READY && state & CONSUMED != CONSUMED,
        drop_notifier: state & WAKER_SET == WAKER_SET,
    }
}

/// The byte of flags that the two sides of one channel share. Each method
/// performs one atomic operation of the protocol on it and returns what it
/// observed, together with the decision taken on that observation.
///
/// The other side may change the byte at any moment, so what a method
/// observes is not known in advance: its contract ties the decision to the
/// observation, whatever the observation is. Each operation that changes the
/// byte is one `Event` of the model in `protocol`, where the laws of their
/// interleavings are proved.
pub struct ChannelState {
    state: AtomicU8,
}

/// What the sender observed when it started to close, and whether it must
/// take the stored notifier before it publishes that it is gone.
pub struct SenderClosing {
    /// The state the sender observed.
    pub observed: u8,
    /// A notifier is stored and the sender must take it and wake it.
    pub take_notifier: bool,
}

impl ChannelState {
    /// A fresh channel: nothing sent, nobody waiting, both sides alive.
    pub fn new() -> (r: ChannelState) {
        ChannelState { state: AtomicU8::new(UNINIT) }
    }

    /// Reads the flags (acquire).
    pub fn observe(&self) -> u8 {
        self.state.load(core::sync::atomic::Ordering::Acquire)
    }

    /// Reads the flags when nobody else can touch them any more (relaxed).
    pub fn observe_exclusive(&self) -> u8 {
        self.state.load(core::sync::atomic::Ordering::Relaxed)
    }

    /// The first look of a receiving operation: reads the flags and decides.
    pub fn first_look(&self) -> (r: (u8, Step))
        ensures
            r.1 == first_step_of(r.0),
    {
        let state = self.observe();
        (state, first_step(state))
    }

    /// The receiver publishes that its notifier is stored; returns the flags
    /// from before.
    pub fn register_notifier(&self) -> u8 {
        self.state.fetch_or(WAKER_SET, core::sync::atomic::Ordering::AcqRel)
    }

    /// The sender publishes that the value is written; returns the flags from
    /// before and whether a stored notifier must be taken and woken.
    pub fn mark_ready(&self) -> (r: (u8, bool))
        ensures
            r.1 == is_set(r.0, WAKER_SET),
    {
        let prev = self.state.fetch_or(READY, core::sync::atomic::Ordering::AcqRel);
        (prev, notifier_stored(prev))
    }

    /// The sender publishes that it took the stored notifier.
    pub fn clear_notifier(&self) {
        self.state.fetch_and(!WAKER_SET, core::sync::atomic::Ordering::Release);
    }

    /// A timed receive, back from waiting, withdraws its notifier flag and
    /// decides: whether it must take its notifier back, and what it returns.
    pub fn withdraw_notifier(&self) -> (r: (u8, (bool, Step)))
        ensures
            r.1.0 == is_set(r.0, WAKER_SET),
            r.1.1 == timeout_step_of(r.0),
    {
        let prev = self.state.fetch_and(!WAKER_SET, core::sync::atomic::Ordering::AcqRel);
        (prev, timeout_step(prev))
    }

    /// The receiver publishes that it took the value.
    pub fn mark_consumed(&self) {
        self.state.fetch_or(CONSUMED, core::sync::atomic::Ordering::Release);
    }

    /// First half of the sender's closing: reads the flags and decides
    /// whether a stored notifier must be taken first.
    pub fn begin_sender_close(&self) -> (r: SenderClosing)
        ensures
            r.take_notifier == is_set(r.observed, WAKER_SET),
    {
        let observed = self.observe();
        SenderClosing { observed, take_notifier: notifier_stored(observed) }
    }

    /// Second half of the sender's closing: publishes that the sender is gone
    /// (clearing the notifier flag if it took the notifier) and returns the
    /// flags from before and whether the sender must free the payload.
    pub fn finish_sender_close(&self, took_notifier: bool) -> (r: (u8, bool))
        ensures
            r.1 == releases(
                r.0,
                if took_notifier {
                    Event::CloseSenderTaking
                } else {
                    Event::CloseSender
                },
            ),
    {
        let prev = if took_notifier {
            self.state.fetch_xor(WAKER_SET | SEND_CLOSED, core::sync::atomic::Ordering::AcqRel)
        } else {
            self.state.fetch_or(SEND_CLOSED, core::sync::atomic::Ordering::AcqRel)
        };
        (prev, sender_releases(prev))
    }

    /// The receiver publishes that it is gone; returns the flags from before
    /// and whether the receiver must free the payload.
    pub fn close_receiver(&self) -> (r: (u8, bool))
        ensures
            r.1 == releases(r.0, Event::CloseReceiver),
    {
        let prev = self.state.fetch_or(RECV_CLOSED, core::sync::atomic::Ordering::AcqRel);
        (prev, receiver_releases(prev))
    }
}

} // verus!
