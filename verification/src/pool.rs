//! The pool's bookkeeping: the queue of messages to the workers, how a
//! change of the thread count is carried out, and how worker threads are
//! configured.

use vstd::prelude::*;

use crossbeam_channel::{Receiver, Sender};

verus! {

#[verifier::external_type_specification]
#[verifier::external_body]
#[verifier::reject_recursive_types(T)]
pub struct ExSender<T>(Sender<T>);

#[verifier::external_type_specification]
#[verifier::external_body]
#[verifier::reject_recursive_types(T)]
pub struct ExReceiver<T>(Receiver<T>);

/// Creates an unbounded channel (`crossbeam_channel::unbounded`). Nothing is
/// claimed of the pair beyond its types.
#[verifier::external_body]
fn unbounded_channel<T>() -> (Sender<T>, Receiver<T>) {
    crossbeam_channel::unbounded()
}

/// Blocks until a message arrives or every sender is gone
/// (`crossbeam_channel::Receiver::recv`), giving `None` in the latter case.
/// What arrives depends on other threads, so nothing is claimed of it.
#[verifier::external_body]
fn receive_message<T>(receiver: &Receiver<T>) -> Option<T> {
    receiver.recv().ok()
}

/// Another handle on the same channel (`Clone` of
/// `crossbeam_channel::Receiver`). Nothing is claimed beyond its type.
#[verifier::external_body]
fn clone_receiver<T>(receiver: &Receiver<T>) -> Receiver<T> {
    receiver.clone()
}

/// A message to the workers.
pub enum Message<J> {
    /// Run this job.
    Execute(J),
    /// One worker is to stop.
    Shutdown,
}

/// What a worker does with what it received: the job to run, or `None` to
/// stop (told to, or every sender is gone).
pub open spec fn job_of<J>(received: Option<Message<J>>) -> Option<J> {
    match received {
        Some(Message::Execute(job)) => Some(job),
        _ => None,
    }
}

/// The queue through which the pool hands messages to its workers.
#[verifier::reject_recursive_types(J)]
pub struct JobQueue<J> {
    send: Sender<Message<J>>,
    recv: Receiver<Message<J>>,
}

/// Queues a message on the queue's own channel
/// (`crossbeam_channel::Sender::send`). The contract claims that the send
/// succeeds. The source shows that a send fails only once the channel is
/// marked disconnected, which happens only when its last sender or its last
/// receiver is dropped; the queue keeps one of each, taken from the one
/// `unbounded` call in `JobQueue::new`, and the borrow keeps them alive for
/// the whole call. An unbounded channel never waits for room.
#[verifier::external_body]
fn send_on_queue<J>(queue: &JobQueue<J>, message: Message<J>) -> (r: Result<(), Message<J>>)
    ensures
        r is Ok,
{
    queue.send.send(message).map_err(|error| error.0)
}

impl<J> JobQueue<J> {
    /// An empty, unbounded queue.
    pub fn new() -> (r: JobQueue<J>) {
        let (send, recv) = unbounded_channel();
        JobQueue { send, recv }
    }

    /// Queues a job; returns whether it was queued, which it always is: the
    /// queue keeps its channel connected.
    pub fn post(&self, job: J) -> (queued: bool)
        ensures
            queued,
    {
        match send_on_queue(self, Message::Execute(job)) {
            Ok(()) => true,
            Err(_) => false,
        }
    }

    /// Tells `count` workers to stop, one message each, stopping early if a
    /// message cannot be queued; returns how many were queued, which is all
    /// of them: the queue keeps its channel connected.
    pub fn post_shutdowns(&self, count: u16) -> (sent: u16)
        ensures
            sent == count,
    {
        let mut sent: u16 = 0;
        while sent < count
            invariant_except_break
                sent <= count,
            ensures
                sent == count,
            decreases count - sent,
        {
            match send_on_queue(self, Message::Shutdown) {
                Ok(()) => {
                    sent = sent + 1;
                },
                Err(_) => {
                    break ;
                },
            }
        }
        sent
    }

    /// A receiving end for a new worker.
    pub fn worker_receiver(&self) -> Receiver<Message<J>> {
        clone_receiver(&self.recv)
    }
}

/// What a worker does with what it received.
pub fn next_job_of<J>(received: Option<Message<J>>) -> (r: Option<J>)
    ensures
        r == job_of(received),
{
    match received {
        Some(Message::Execute(job)) => Some(job),
        _ => None,
    }
}

/// A worker waits for its next message and returns the job to run, or
/// `None` when it is to stop (told to, or the pool is gone).
pub fn next_job<J>(receiver: &Receiver<Message<J>>) -> (r: Option<J>) {
    next_job_of(receive_message(receiver))
}

/// How a change of the thread count is carried out.
#[derive(Debug, Clone, Copy, PartialEq, Eq, Structural)]
pub enum Resize {
    /// Stop this many workers.
    Shrink(u16),
    /// Start this many workers.
    Grow(u16),
    /// Nothing to do.
    Keep,
}

/// The change from `old` workers to `new` workers.
pub open spec fn resize_of(old: u16, new: u16) -> Resize {
    if old > new {
        Resize::Shrink((old - new) as u16)
    } else if new > old {
        Resize::Grow((new - old) as u16)
    } else {
        Resize::Keep
    }
}

/// A planned change carries the count from `old` to exactly `new`: it stops
/// or starts the difference, in the right direction, and does nothing only
/// when the counts agree.
pub proof fn law_resize_reaches_request(old: u16, new: u16)
    ensures
        resize_of(old, new) matches Resize::Shrink(stopped) ==> old > new && old - stopped == new,
        resize_of(old, new) matches Resize::Grow(started) ==> old < new && old + started == new,
        resize_of(old, new) == Resize::Keep <==> old == new,
{
}

/// Plans the change from `old` workers to `new` workers.
pub fn plan_resize(old: u16, new: u16) -> (r: Resize)
    ensures
        r == resize_of(old, new),
{
    if old > new {
        Resize::Shrink(old - new)
    } else if new > old {
        Resize::Grow(new - old)
    } else {
        Resize::Keep
    }
}

/// The thread count to record after growing from `old` towards `requested`
/// stopped because the worker numbered `failed_at` (counting from zero)
/// could not be started: the workers started before it.
pub fn count_after_failed_start(old: u16, requested: u16, failed_at: u16) -> (r: u16)
    requires
        old < requested,
        failed_at < requested - old,
    ensures
        r == old + failed_at,
        old <= r < requested,
{
    old + failed_at
}

/// The name to give a new worker thread: none for the empty name.
pub fn thread_name(name: &str) -> (r: Option<String>)
    ensures
        name@.len() == 0 ==> r is None,
        name@.len() != 0 ==> (r matches Some(owned) && owned@ == name@),
{
    if name.is_empty() {
        None
    } else {
        Some(name.to_owned())
    }
}

/// The stack size to ask for a new worker thread: none (the standard
/// library's default) for zero.
pub fn stack_size_setting(stack_size: usize) -> (r: Option<usize>)
    ensures
        r == (if stack_size == 0 { None } else { Some(stack_size) }),
{
    if stack_size == 0 {
        None
    } else {
        Some(stack_size)
    }
}

} // verus!
