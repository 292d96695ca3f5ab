//! The model of the one-shot channel's flag byte: the atomic operations
//! that change it, and what holds of their interleavings. Some laws hold of
//! every interleaving; the others hold of the runs that keep a stated
//! discipline, and their documentation says which runs do not.

use vstd::prelude::*;

use crate::oneshot::{
    blocked_step_of, first_step_of, is_set, poll_step_of, timeout_step_of, Step, CONSUMED,
    READY, RECV_CLOSED, SEND_CLOSED, UNINIT, WAKER_SET,
};

verus! {

/// One atomic operation on the shared flags, as `ChannelState` performs it.
/// A run is any sequence of them: the two sides' operations in whatever
/// order they interleave.
#[derive(Debug, Clone, Copy, PartialEq, Eq, Structural)]
pub enum Event {
    /// The sender publishes the written value (`mark_ready`).
    MarkReady,
    /// A side clears the notifier flag after taking the notifier out
    /// (`clear_notifier`, `withdraw_notifier`).
    ClearNotifier,
    /// The receiver publishes its stored notifier (`register_notifier`).
    RegisterNotifier,
    /// The receiver publishes that it took the value (`mark_consumed`).
    MarkConsumed,
    /// The sender publishes that it is gone (`finish_sender_close` without
    /// the notifier).
    CloseSender,
    /// The sender publishes that it is gone and that it took the notifier
    /// out (`finish_sender_close` with the notifier).
    CloseSenderTaking,
    /// The receiver publishes that it is gone (`close_receiver`).
    CloseReceiver,
}

/// The flags after `event`, from `state`.
pub open spec fn next(state: u8, event: Event) -> u8 {
    match event {
        Event::MarkReady => state | READY,
        Event::ClearNotifier => state & !WAKER_SET,
        Event::RegisterNotifier => state | WAKER_SET,
        Event::MarkConsumed => state | CONSUMED,
        Event::CloseSender => state | SEND_CLOSED,
        Event::CloseSenderTaking => state ^ (WAKER_SET | SEND_CLOSED),
        Event::CloseReceiver => state | RECV_CLOSED,
    }
}

/// `event`, from `state`, tells its side to free the shared payload.
pub open spec fn releases(state: u8, event: Event) -> bool {
    match event {
        Event::CloseSender => is_set(state, RECV_CLOSED),
        Event::CloseSenderTaking => is_set(state, RECV_CLOSED),
        Event::CloseReceiver => is_set(state, SEND_CLOSED),
        _ => false,
    }
}

/// The flags after the whole run `events`, from `state`.
pub open spec fn run(state: u8, events: Seq<Event>) -> u8
    decreases events.len(),
{
    if events.len() == 0 {
        state
    } else {
        run(next(state, events[0]), events.drop_first())
    }
}

/// How often `event` occurs in `events`.
pub open spec fn count(events: Seq<Event>, event: Event) -> nat
    decreases events.len(),
{
    if events.len() == 0 {
        0
    } else {
        (if events[0] == event { 1nat } else { 0nat }) + count(events.drop_first(), event)
    }
}

/// How often the sender closes in `events`, either way.
pub open spec fn sender_closes(events: Seq<Event>) -> nat {
    count(events, Event::CloseSender) + count(events, Event::CloseSenderTaking)
}

/// How many events of the run, from `state`, free the shared payload.
pub open spec fn release_count(state: u8, events: Seq<Event>) -> nat
    decreases events.len(),
{
    if events.len() == 0 {
        0
    } else {
        (if releases(state, events[0]) { 1nat } else { 0nat }) + release_count(
            next(state, events[0]),
            events.drop_first(),
        )
    }
}

/// In the run, from `state`, the receiver marks the value taken only when
/// it is written and not yet taken. The receiver marks it taken only after a
/// decision to take it, within an operation whose first look found it
/// untaken; `law_decided_take_may_consume` proves that such a mark meets
/// this condition, whatever the sender does meanwhile.
pub open spec fn consumes_when_ready(state: u8, events: Seq<Event>) -> bool
    decreases events.len(),
{
    events.len() == 0 || ((events[0] == Event::MarkConsumed ==> is_set(state, READY) && !is_set(
        state,
        CONSUMED,
    )) && consumes_when_ready(next(state, events[0]), events.drop_first()))
}

/// In the run, from `state`, a notifier is stored only while none is, and
/// the notifier flag is cleared (its notifier taken out) only while it is
/// set.
///
/// The two sides' operations do not always keep this. Runs that break it:
/// a timed receive withdraws its flag after the sender's `MarkReady` saw it
/// set and before the sender's `ClearNotifier` (both sides then take the
/// notifier out); the receiver stores a notifier after the sender's first
/// look in closing found none, so the sender closes without taking it and
/// wakes nobody; a timed or blocking receive stores a notifier while a
/// pending poll's is still stored.
pub open spec fn notifier_discipline(state: u8, events: Seq<Event>) -> bool
    decreases events.len(),
{
    events.len() == 0 || ((events[0] == Event::RegisterNotifier ==> !is_set(state, WAKER_SET))
        && ((events[0] == Event::ClearNotifier || events[0] == Event::CloseSenderTaking)
        ==> is_set(state, WAKER_SET)) && notifier_discipline(
        next(state, events[0]),
        events.drop_first(),
    ))
}

/// A written value that nobody took is still in the channel.
pub open spec fn value_left(state: u8) -> bool {
    is_set(state, READY) && !is_set(state, CONSUMED)
}

proof fn lemma_set_bit(s: u8, b: u8, c: u8)
    by (bit_vector)
    requires
        b == READY || b == WAKER_SET || b == SEND_CLOSED || b == CONSUMED || b == RECV_CLOSED,
        c == READY || c == WAKER_SET || c == SEND_CLOSED || c == CONSUMED || c == RECV_CLOSED,
    ensures
        ((s | b) & c == c) == (b == c || s & c == c),
{
}

proof fn lemma_clear_bit(s: u8, b: u8, c: u8)
    by (bit_vector)
    requires
        b == READY || b == WAKER_SET || b == SEND_CLOSED || b == CONSUMED || b == RECV_CLOSED,
        c == READY || c == WAKER_SET || c == SEND_CLOSED || c == CONSUMED || c == RECV_CLOSED,
    ensures
        ((s & !b) & c == c) == (b != c && s & c == c),
{
}

proof fn lemma_flip_close(s: u8, c: u8)
    by (bit_vector)
    requires
        c == READY || c == WAKER_SET || c == SEND_CLOSED || c == CONSUMED || c == RECV_CLOSED,
    ensures
        ((s ^ (WAKER_SET | SEND_CLOSED)) & c == c) == (if c == WAKER_SET || c == SEND_CLOSED {
            !(s & c == c)
        } else {
            s & c == c
        }),
{
}

proof fn lemma_next_flag(s: u8, e: Event, c: u8)
    requires
        c == READY || c == WAKER_SET || c == SEND_CLOSED || c == CONSUMED || c == RECV_CLOSED,
    ensures
        is_set(next(s, e), c) == match e {
            Event::MarkReady => c == READY || is_set(s, c),
            Event::ClearNotifier => c != WAKER_SET && is_set(s, c),
            Event::RegisterNotifier => c == WAKER_SET || is_set(s, c),
            Event::MarkConsumed => c == CONSUMED || is_set(s, c),
            Event::CloseSender => c == SEND_CLOSED || is_set(s, c),
            Event::CloseSenderTaking => if c == WAKER_SET || c == SEND_CLOSED {
                !is_set(s, c)
            } else {
                is_set(s, c)
            },
            Event::CloseReceiver => c == RECV_CLOSED || is_set(s, c),
        },
{
    match e {
        Event::MarkReady => lemma_set_bit(s, READY, c),
        Event::ClearNotifier => lemma_clear_bit(s, WAKER_SET, c),
        Event::RegisterNotifier => lemma_set_bit(s, WAKER_SET, c),
        Event::MarkConsumed => lemma_set_bit(s, CONSUMED, c),
        Event::CloseSender => lemma_set_bit(s, SEND_CLOSED, c),
        Event::CloseSenderTaking => lemma_flip_close(s, c),
        Event::CloseReceiver => lemma_set_bit(s, RECV_CLOSED, c),
    }
}

/// All five flags after one event.
proof fn lemma_next(s: u8, e: Event)
    ensures
        is_set(next(s, e), READY) == (e == Event::MarkReady || is_set(s, READY)),
        is_set(next(s, e), CONSUMED) == (e == Event::MarkConsumed || is_set(s, CONSUMED)),
        is_set(next(s, e), WAKER_SET) == (if e == Event::RegisterNotifier {
            true
        } else if e == Event::ClearNotifier {
            false
        } else if e == Event::CloseSenderTaking {
            !is_set(s, WAKER_SET)
        } else {
            is_set(s, WAKER_SET)
        }),
        is_set(next(s, e), SEND_CLOSED) == (if e == Event::CloseSender {
            true
        } else if e == Event::CloseSenderTaking {
            !is_set(s, SEND_CLOSED)
        } else {
            is_set(s, SEND_CLOSED)
        }),
        is_set(next(s, e), RECV_CLOSED) == (e == Event::CloseReceiver || is_set(s, RECV_CLOSED)),
{
    lemma_next_flag(s, e, READY);
    lemma_next_flag(s, e, WAKER_SET);
    lemma_next_flag(s, e, SEND_CLOSED);
    lemma_next_flag(s, e, CONSUMED);
    lemma_next_flag(s, e, RECV_CLOSED);
}

proof fn lemma_initial()
    ensures
        !is_set(UNINIT, READY),
        !is_set(UNINIT, WAKER_SET),
        !is_set(UNINIT, SEND_CLOSED),
        !is_set(UNINIT, CONSUMED),
        !is_set(UNINIT, RECV_CLOSED),
{
    assert(UNINIT & READY != READY) by (bit_vector);
    assert(UNINIT & WAKER_SET != WAKER_SET) by (bit_vector);
    assert(UNINIT & SEND_CLOSED != SEND_CLOSED) by (bit_vector);
    assert(UNINIT & CONSUMED != CONSUMED) by (bit_vector);
    assert(UNINIT & RECV_CLOSED != RECV_CLOSED) by (bit_vector);
}

proof fn lemma_release_count(s: u8, events: Seq<Event>)
    requires
        (if is_set(s, SEND_CLOSED) { 1nat } else { 0nat }) + sender_closes(events) == 1,
        (if is_set(s, RECV_CLOSED) { 1nat } else { 0nat }) + count(events, Event::CloseReceiver)
            == 1,
    ensures
        release_count(s, events) == (if is_set(s, SEND_CLOSED) && is_set(s, RECV_CLOSED) {
            0nat
        } else {
            1nat
        }),
    decreases events.len(),
{
    if events.len() > 0 {
        lemma_next(s, events[0]);
        lemma_release_count(next(s, events[0]), events.drop_first());
    }
}

/// The shared payload is freed exactly once: in every run from a fresh
/// channel in which each side closes once, in whatever order the two sides'
/// operations interleave, exactly one of the two closing operations is told
/// to free it (the later one).
pub proof fn law_payload_freed_once(events: Seq<Event>)
    requires
        sender_closes(events) == 1,
        count(events, Event::CloseReceiver) == 1,
    ensures
        release_count(UNINIT, events) == 1,
{
    lemma_initial();
    lemma_release_count(UNINIT, events);
}

/// A written value stays written, a taken value stays taken, an untaken
/// value stays untaken while the receiver marks nothing taken, a gone
/// receiver stays gone, and a gone sender stays gone (it closes only once),
/// whatever operations follow.
pub proof fn law_flags_persist(state: u8, events: Seq<Event>)
    ensures
        is_set(state, READY) ==> is_set(run(state, events), READY),
        is_set(state, CONSUMED) ==> is_set(run(state, events), CONSUMED),
        !is_set(state, CONSUMED) && count(events, Event::MarkConsumed) == 0 ==> !is_set(
            run(state, events),
            CONSUMED,
        ),
        is_set(state, RECV_CLOSED) ==> is_set(run(state, events), RECV_CLOSED),
        is_set(state, SEND_CLOSED) && sender_closes(events) == 0 ==> is_set(
            run(state, events),
            SEND_CLOSED,
        ),
    decreases events.len(),
{
    if events.len() > 0 {
        lemma_next(state, events[0]);
        law_flags_persist(next(state, events[0]), events.drop_first());
    }
}

/// Once the value has been taken, every later first look of a receiving
/// operation reports `AlreadyConsumed`, whatever happens meanwhile.
pub proof fn law_taken_stays_taken(state: u8, events: Seq<Event>)
    requires
        is_set(state, CONSUMED),
    ensures
        first_step_of(run(state, events)) == Step::Fail(crate::JoinError::AlreadyConsumed),
{
    law_flags_persist(state, events);
}

/// Once the sender has published its value or its absence, no receiving
/// decision says to wait any more, and a timed receive no longer reports a
/// timeout, whatever else happens (the sender closes only once).
pub proof fn law_no_wait_after_sender(state: u8, events: Seq<Event>)
    requires
        is_set(state, READY) || is_set(state, SEND_CLOSED),
        sender_closes(events) == 0,
    ensures
        first_step_of(run(state, events)) != Step::Wait,
        blocked_step_of(run(state, events)) != Step::Wait,
        poll_step_of(run(state, events)) != Step::Wait,
        timeout_step_of(run(state, events)) != Step::Fail(crate::JoinError::Timeout),
{
    law_flags_persist(state, events);
}

/// A take that a receiving operation decides keeps the discipline of
/// `consumes_when_ready`: if the operation's first look found the value
/// untaken, one of its decisions, on a state reached after that look, says
/// to take it, and the receiver marks nothing taken in between, then at the
/// moment it marks the value taken the value is written and not yet taken,
/// whatever the sender did meanwhile.
pub proof fn law_decided_take_may_consume(first: u8, before: Seq<Event>, after: Seq<Event>)
    requires
        !is_set(first, CONSUMED),
        first_step_of(run(first, before)) == Step::Take || blocked_step_of(run(first, before))
            == Step::Take || poll_step_of(run(first, before)) == Step::Take || timeout_step_of(
            run(first, before),
        ) == Step::Take,
        count(before, Event::MarkConsumed) == 0,
        count(after, Event::MarkConsumed) == 0,
    ensures
        is_set(run(run(first, before), after), READY),
        !is_set(run(run(first, before), after), CONSUMED),
{
    law_flags_persist(first, before);
    law_flags_persist(run(first, before), after);
}

/// The operations publish what they are for: the value, the sender's
/// absence (on its first close), a taken-out notifier, a stored notifier,
/// the taken value and the receiver's absence.
pub proof fn law_operations_publish(state: u8)
    ensures
        is_set(next(state, Event::MarkReady), READY),
        is_set(next(state, Event::CloseSender), SEND_CLOSED),
        !is_set(state, SEND_CLOSED) ==> is_set(next(state, Event::CloseSenderTaking), SEND_CLOSED),
        is_set(state, WAKER_SET) ==> !is_set(next(state, Event::CloseSenderTaking), WAKER_SET),
        !is_set(next(state, Event::ClearNotifier), WAKER_SET),
        is_set(next(state, Event::RegisterNotifier), WAKER_SET),
        is_set(next(state, Event::MarkConsumed), CONSUMED),
        is_set(next(state, Event::CloseReceiver), RECV_CLOSED),
{
    lemma_next(state, Event::MarkReady);
    lemma_next(state, Event::CloseSender);
    lemma_next(state, Event::CloseSenderTaking);
    lemma_next(state, Event::ClearNotifier);
    lemma_next(state, Event::RegisterNotifier);
    lemma_next(state, Event::MarkConsumed);
    lemma_next(state, Event::CloseReceiver);
}

proof fn lemma_value_accounting(s: u8, events: Seq<Event>)
    requires
        is_set(s, CONSUMED) ==> is_set(s, READY),
        (if is_set(s, READY) { 1nat } else { 0nat }) + count(events, Event::MarkReady) <= 1,
        consumes_when_ready(s, events),
    ensures
        count(events, Event::MarkConsumed) + (if value_left(run(s, events)) { 1nat } else { 0nat })
            == (if value_left(s) { 1nat } else { 0nat }) + count(events, Event::MarkReady),
    decreases events.len(),
{
    if events.len() > 0 {
        lemma_next(s, events[0]);
        lemma_value_accounting(next(s, events[0]), events.drop_first());
    }
}

/// No value is lost and none is disposed of twice: in every run from a
/// fresh channel in which the sender writes at most once and the receiver
/// marks the value taken only when it is written and not yet taken, the
/// number of takes, plus one if the value is still left for the payload to
/// drop at the end, equals the number of writes. In particular the value is
/// taken at most once.
pub proof fn law_value_taken_or_dropped(events: Seq<Event>)
    requires
        count(events, Event::MarkReady) <= 1,
        consumes_when_ready(UNINIT, events),
    ensures
        count(events, Event::MarkConsumed) + (if value_left(run(UNINIT, events)) {
            1nat
        } else {
            0nat
        }) == count(events, Event::MarkReady),
        count(events, Event::MarkConsumed) <= 1,
{
    lemma_initial();
    lemma_value_accounting(UNINIT, events);
}

proof fn lemma_notifier_accounting(s: u8, events: Seq<Event>)
    requires
        notifier_discipline(s, events),
    ensures
        count(events, Event::ClearNotifier) + count(events, Event::CloseSenderTaking) + (if is_set(
            run(s, events),
            WAKER_SET,
        ) {
            1nat
        } else {
            0nat
        }) == (if is_set(s, WAKER_SET) { 1nat } else { 0nat }) + count(
            events,
            Event::RegisterNotifier,
        ),
    decreases events.len(),
{
    if events.len() > 0 {
        lemma_next(s, events[0]);
        lemma_notifier_accounting(next(s, events[0]), events.drop_first());
    }
}

/// Every stored notifier is taken out exactly once, in the runs that keep
/// `notifier_discipline` (its documentation names runs that do not): in
/// every run from a fresh channel in which a notifier is stored only while
/// none is and the flag is cleared only while it is set, the notifiers taken out (by the
/// sender to wake them, or by the receiver to have them back), plus one if a
/// notifier is still stored for the payload to drop at the end, equal the
/// notifiers stored.
pub proof fn law_notifier_taken_once(events: Seq<Event>)
    requires
        notifier_discipline(UNINIT, events),
    ensures
        count(events, Event::ClearNotifier) + count(events, Event::CloseSenderTaking) + (if is_set(
            run(UNINIT, events),
            WAKER_SET,
        ) {
            1nat
        } else {
            0nat
        }) == count(events, Event::RegisterNotifier),
{
    lemma_initial();
    lemma_notifier_accounting(UNINIT, events);
}

/// Every receiving path takes only a written value, and the first look only
/// one that was not taken before.
pub proof fn law_takes_only_written_value(state: u8)
    ensures
        first_step_of(state) == Step::Take ==> is_set(state, READY) && !is_set(state, CONSUMED),
        blocked_step_of(state) == Step::Take ==> is_set(state, READY),
        poll_step_of(state) == Step::Take ==> is_set(state, READY) && !is_set(
            state,
            SEND_CLOSED,
        ),
        timeout_step_of(state) == Step::Take ==> is_set(state, READY),
{
}

/// What each receiving decision answers, in terms of the flags it saw: a
/// first look fails only on an earlier take or, with nothing written, on a
/// gone sender, and waits exactly while nothing is written, taken or
/// closed; a blocking receive fails only with `Disconnect` on a gone sender
/// with nothing written, and waits exactly while nothing is written and the
/// sender lives; a poll fails only with `Disconnect` on a gone sender, and
/// waits exactly while nothing is written and the sender lives; a timed
/// receive never waits, takes exactly a written value, reports
/// `Disconnect` exactly on a gone sender with nothing written, and reports
/// `Timeout` only while nothing is written and the sender lives.
pub proof fn law_receive_answers(state: u8)
    ensures
        first_step_of(state) == Step::Take <==> is_set(state, READY) && !is_set(state, CONSUMED),
        first_step_of(state) == Step::Wait <==> !is_set(state, READY) && !is_set(state, CONSUMED)
            && !is_set(state, SEND_CLOSED),
        first_step_of(state) == Step::Fail(crate::JoinError::AlreadyConsumed) <==> is_set(
            state,
            CONSUMED,
        ),
        first_step_of(state) == Step::Fail(crate::JoinError::Disconnect) <==> is_set(
            state,
            SEND_CLOSED,
        ) && !is_set(state, READY) && !is_set(state, CONSUMED),
        first_step_of(state) != Step::Fail(crate::JoinError::Timeout),
        blocked_step_of(state) == Step::Take <==> is_set(state, READY),
        blocked_step_of(state) == Step::Wait <==> !is_set(state, READY) && !is_set(
            state,
            SEND_CLOSED,
        ),
        blocked_step_of(state) matches Step::Fail(error) ==> error == crate::JoinError::Disconnect
            && is_set(state, SEND_CLOSED) && !is_set(state, READY),
        poll_step_of(state) == Step::Take <==> is_set(state, READY) && !is_set(state, SEND_CLOSED),
        poll_step_of(state) == Step::Wait <==> !is_set(state, READY) && !is_set(
            state,
            SEND_CLOSED,
        ),
        poll_step_of(state) matches Step::Fail(error) ==> error == crate::JoinError::Disconnect
            && is_set(state, SEND_CLOSED),
        timeout_step_of(state) != Step::Wait,
        timeout_step_of(state) == Step::Take <==> is_set(state, READY),
        timeout_step_of(state) == Step::Fail(crate::JoinError::Disconnect) <==> is_set(
            state,
            SEND_CLOSED,
        ) && !is_set(state, READY),
        timeout_step_of(state) == Step::Fail(crate::JoinError::Timeout) ==> !is_set(state, READY)
            && !is_set(state, SEND_CLOSED),
        timeout_step_of(state) != Step::Fail(crate::JoinError::AlreadyConsumed),
{
}

} // verus!
