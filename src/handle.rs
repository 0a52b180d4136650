//! The close-request channel: a handle that another thread may hold pushes
//! requests into a bounded single-producer single-consumer ring buffer, and the
//! frame loop drains it at the start of each frame.
use vstd::prelude::*;

verus! {

#[verifier::external_type_specification]
#[verifier::external_body]
#[verifier::reject_recursive_types(T)]
pub struct ExProducer<T>(rtrb::Producer<T>);

#[verifier::external_type_specification]
#[verifier::external_body]
#[verifier::reject_recursive_types(T)]
pub struct ExConsumer<T>(rtrb::Consumer<T>);

/// A message from a handle to the frame loop.
#[derive(Clone, Copy, Debug, PartialEq, Eq, Structural)]
pub enum HandleMessage {
    CloseRequested,
}

/// The request could not be queued: the ring buffer holds as many messages as
/// it has room for, and the frame loop has not drained them yet.
#[derive(Clone, Copy, Debug, PartialEq, Eq, Structural)]
pub struct QueueFull;

/// What the frame loop does with the frame it is about to run.
#[derive(Clone, Copy, Debug, PartialEq, Eq, Structural)]
pub enum FrameAction {
    /// A close was requested: the frame is cut short.
    Close,
    /// Nothing was requested: the frame runs.
    Run,
}

/// The messages pushed through producer `p` since its ring buffer was made.
pub uninterp spec fn sent_of(p: rtrb::Producer<HandleMessage>) -> Seq<HandleMessage>;

/// The messages popped through consumer `c` since its ring buffer was made.
pub uninterp spec fn received_of(c: rtrb::Consumer<HandleMessage>) -> Seq<HandleMessage>;

/// The number of slots of the ring buffer that producer `p` writes into.
pub uninterp spec fn capacity_of(p: rtrb::Producer<HandleMessage>) -> nat;

/// Relies on rtrb::RingBuffer::new: a fresh, empty ring buffer of `capacity`
/// slots, split into its producer and consumer halves. Positions run up to
/// twice the capacity, which must fit in a `usize`.
#[verifier::external_body]
fn ring_buffer(capacity: usize) -> (r: (rtrb::Producer<HandleMessage>, rtrb::Consumer<HandleMessage>))
    requires
        capacity <= usize::MAX / 2,
    ensures
        sent_of(r.0) == Seq::<HandleMessage>::empty(),
        received_of(r.1) == Seq::<HandleMessage>::empty(),
        capacity_of(r.0) == capacity,
{
    rtrb::RingBuffer::new(capacity)
}

/// Relies on rtrb::Producer::push: the message is written when a slot is free
/// and returned as `Full` otherwise. Only this producer fills slots, so fewer
/// pushes than slots means a free slot, and a full buffer means at least as
/// many pushes as slots.
#[verifier::external_body]
fn push_message(tx: &mut rtrb::Producer<HandleMessage>, m: HandleMessage) -> (pushed: bool)
    ensures
        capacity_of(*final(tx)) == capacity_of(*old(tx)),
        pushed ==> sent_of(*final(tx)) == sent_of(*old(tx)).push(m),
        !pushed ==> sent_of(*final(tx)) == sent_of(*old(tx)),
        sent_of(*old(tx)).len() < capacity_of(*old(tx)) ==> pushed,
        !pushed ==> sent_of(*old(tx)).len() >= capacity_of(*old(tx)),
{
    tx.push(m).is_ok()
}

/// Relies on rtrb::Consumer::pop: the oldest queued message, or `None` when the
/// buffer is empty.
#[verifier::external_body]
fn pop_message(rx: &mut rtrb::Consumer<HandleMessage>) -> (r: Option<HandleMessage>)
    ensures
        r matches Some(m) ==> received_of(*final(rx)) == received_of(*old(rx)).push(m),
        r is None ==> received_of(*final(rx)) == received_of(*old(rx)),
{
    rx.pop().ok()
}

/// The action for a frame, given the first message drained at its start.
pub fn frame_action(message: Option<HandleMessage>) -> (r: FrameAction)
    ensures
        r == (if message.is_some() {
            FrameAction::Close
        } else {
            FrameAction::Run
        }),
{
    match message {
        Some(HandleMessage::CloseRequested) => FrameAction::Close,
        None => FrameAction::Run,
    }
}

/// Number of close requests that can wait in the channel before a frame
/// drains it.
pub const QUEUE_SIZE: usize = 10;

/// The producer side of the channel, handed to whoever may ask the window to
/// close.
pub struct Handle {
    handle_tx: rtrb::Producer<HandleMessage>,
}

/// The consumer side of the channel, kept by the frame loop.
pub struct CloseReceiver {
    handle_rx: rtrb::Consumer<HandleMessage>,
}

/// A connected handle and receiver, with room for `QUEUE_SIZE` requests and
/// nothing sent or received yet.
pub fn close_channel() -> (r: (Handle, CloseReceiver))
    ensures
        r.0.capacity() == QUEUE_SIZE,
        r.0.sent() == Seq::<HandleMessage>::empty(),
        r.1.received() == Seq::<HandleMessage>::empty(),
{
    let (tx, rx) = ring_buffer(QUEUE_SIZE);
    (Handle::new(tx), CloseReceiver { handle_rx: rx })
}

impl Handle {
    /// The requests this handle has queued so far.
    pub closed spec fn sent(&self) -> Seq<HandleMessage> {
        sent_of(self.handle_tx)
    }

    /// How many requests the channel holds.
    pub closed spec fn capacity(&self) -> nat {
        capacity_of(self.handle_tx)
    }

    pub(crate) fn new(handle_tx: rtrb::Producer<HandleMessage>) -> (r: Handle)
        ensures
            r.sent() == sent_of(handle_tx),
            r.capacity() == capacity_of(handle_tx),
    {
        Handle { handle_tx }
    }

    /// Asks the window to close. Fails with `QueueFull` when the channel
    /// already holds as many undrained requests as it has room for; it always
    /// succeeds while fewer requests than that have ever been queued.
    pub fn request_window_close(&mut self) -> (r: Result<(), QueueFull>)
        ensures
            final(self).capacity() == old(self).capacity(),
            r is Ok ==> final(self).sent() == old(self).sent().push(HandleMessage::CloseRequested),
            r is Err ==> final(self).sent() == old(self).sent(),
            old(self).sent().len() < old(self).capacity() ==> r is Ok,
            r is Err ==> old(self).sent().len() >= old(self).capacity(),
    {
        if push_message(&mut self.handle_tx, HandleMessage::CloseRequested) {
            Ok(())
        } else {
            Err(QueueFull)
        }
    }
}

impl CloseReceiver {
    /// The requests drained so far.
    pub closed spec fn received(&self) -> Seq<HandleMessage> {
        received_of(self.handle_rx)
    }

    /// Drains the channel at the start of a frame: the frame closes if a
    /// request was waiting, and runs otherwise.
    pub fn poll(&mut self) -> (r: FrameAction)
        ensures
            r == FrameAction::Close ==> final(self).received() == old(self).received().push(
                HandleMessage::CloseRequested,
            ),
            r == FrameAction::Run ==> final(self).received() == old(self).received(),
    {
        let message = pop_message(&mut self.handle_rx);
        frame_action(message)
    }
}

} // verus!
