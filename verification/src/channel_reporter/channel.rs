//! The event channel used by the `ChannelReporter` and `ChannelEventListener`:
//! an unbounded FIFO queue with a sending and a receiving half.
//!
//! The queue itself is the one shared between the two halves by
//! `crossbeam_channel`; this module wraps its handles and keeps, for each
//! handle, the history of the events that passed through it.  All order and
//! delivery reasoning in the rest of the crate is in terms of those histories.

use vstd::prelude::*;

verus! {

/// Declares `crossbeam_channel::Sender`, the sending half of a channel,
/// so that it can be held in a field.  The value is opaque to the verifier.
#[verifier::external_type_specification]
#[verifier::external_body]
#[verifier::reject_recursive_types(T)]
pub struct ExSender<T>(crossbeam_channel::Sender<T>);

/// Declares `crossbeam_channel::Receiver`, the receiving half of a channel,
/// so that it can be held in a field.  The value is opaque to the verifier.
#[verifier::external_type_specification]
#[verifier::external_body]
#[verifier::reject_recursive_types(T)]
pub struct ExReceiver<T>(crossbeam_channel::Receiver<T>);

/// The error returned when an event could not be enqueued because the
/// receiving half of the channel no longer exists.  It hands the event back
/// to the caller, so nothing is lost.
#[derive(Debug, PartialEq, Eq, Clone, Copy)]
pub struct EventSendError<T>(pub T);

/// The end-of-stream signal: the channel is disconnected and every event in
/// it has already been received.  This is the designed termination signal of
/// the receive loop, not an exceptional failure.
#[derive(Debug, PartialEq, Eq, Clone, Copy)]
pub struct EventRecvError;

/// The sending half of an event channel.
///
/// `sent()` is the sequence of events successfully sent through this handle,
/// in order; it is the reference point for every ordering statement made by
/// a reporter.  Senders may be cloned - the channel is closed only once
/// every clone is gone - but each handle keeps its own history, and nothing
/// is known of a fresh clone's.
#[derive(Clone)]
#[verifier::reject_recursive_types(Event)]
pub struct EventSender<Event> {
    sender: crossbeam_channel::Sender<Event>,
    history: Ghost<Seq<Event>>,
}

/// The receiving half of an event channel.
///
/// `received()` is the sequence of events this handle has yielded so far, in
/// order; `ended()` says whether it has already observed the channel closed
/// and drained.  The listener's guarantees are stated over these.
///
/// Receivers may be cloned, but the clones become competing consumers of
/// one queue - each event still goes to exactly one of them.  The listener
/// never exercises this, and nothing is known of a fresh clone's histories.
#[derive(Clone)]
#[verifier::reject_recursive_types(Event)]
pub struct EventReceiver<Event> {
    receiver: crossbeam_channel::Receiver<Event>,
    history: Ghost<Seq<Event>>,
    pending: Ghost<nat>,
    done: Ghost<bool>,
}

/// Declares `crossbeam_channel::Sender::clone`, which registers one more
/// sending handle on the same queue.  Nothing is promised of the clone:
/// in particular, a fresh clone's send history is its own affair.
pub assume_specification<T>[ <crossbeam_channel::Sender<T> as std::clone::Clone>::clone ](
    sender: &crossbeam_channel::Sender<T>,
) -> crossbeam_channel::Sender<T>
;

/// Declares `crossbeam_channel::Receiver::clone`, which registers one more
/// receiving handle on the same queue.  Nothing is promised of the clone.
pub assume_specification<T>[ <crossbeam_channel::Receiver<T> as std::clone::Clone>::clone ](
    receiver: &crossbeam_channel::Receiver<T>,
) -> crossbeam_channel::Receiver<T>
;

/// Relies on `crossbeam_channel::unbounded` to allocate a fresh growable
/// FIFO queue and hand back its two halves.  Nothing is assumed of the pair
/// here; what each half's history means is established by `event_channel`,
/// which starts both histories empty.
#[verifier::external_body]
fn unbounded_channel<Event>() -> (crossbeam_channel::Sender<Event>, crossbeam_channel::Receiver<
    Event,
>) {
    crossbeam_channel::unbounded::<Event>()
}

/// Creates the unbounded FIFO event channel: one sender and one receiver
/// sharing a single queue.  The fresh sender has sent nothing, and the fresh
/// receiver has received nothing and cannot yet have observed a disconnect.
pub fn event_channel<Event>() -> (r: (EventSender<Event>, EventReceiver<Event>))
    ensures
        r.0.sent() == Seq::<Event>::empty(),
        r.1.received() == Seq::<Event>::empty(),
        !r.1.ended(),
{
    let (sender, receiver) = unbounded_channel::<Event>();
    (
        EventSender { sender, history: Ghost(Seq::empty()) },
        EventReceiver {
            receiver,
            history: Ghost(Seq::empty()),
            pending: Ghost(arbitrary()),
            done: Ghost(false),
        },
    )
}

impl<Event> EventSender<Event> {
    /// The events successfully sent through this handle, oldest first.
    pub closed spec fn sent(self) -> Seq<Event> {
        self.history@
    }

    /// Enqueues `message`; never blocks, since the queue is unbounded.
    ///
    /// Relies on `crossbeam_channel::Sender::send` on an unbounded channel:
    /// it succeeds unless the receiver has been dropped, and on failure the
    /// returned error carries the original message back unchanged.
    #[verifier::external_body]
    pub fn send(&mut self, message: Event) -> (r: Result<(), EventSendError<Event>>)
        ensures
            match r {
                Ok(()) => final(self).sent() == old(self).sent().push(message),
                Err(e) => e.0 == message && final(self).sent() == old(self).sent(),
            },
    {
        self.sender.send(message).map_err(|e| EventSendError(e.0))
    }

    /// Gives this handle up.  Once every sender handle of the channel is
    /// gone, the channel is closed: the receiver drains what is left and then
    /// observes end-of-stream.
    pub fn disconnect(self) {
    }
}

impl<Event> EventReceiver<Event> {
    /// The events this handle has yielded, oldest first.
    pub closed spec fn received(self) -> Seq<Event> {
        self.history@
    }

    /// Whether this handle has already observed the channel closed and
    /// drained.  Once true, it stays true.
    pub closed spec fn ended(self) -> bool {
        self.done@
    }

    /// How many more events this handle yields before it observes
    /// end-of-stream.  The value is never promised by any constructor - a
    /// fresh receiver's count is unknown - so nothing can be concluded from
    /// it about a particular run; it exists to bound the receive loop of
    /// `process_events`, whose progress is measured against it.  A run whose
    /// stream never ends never reaches that loop's exit, and no contract of
    /// this crate speaks about such a run.
    pub closed spec fn pending(self) -> nat {
        self.pending@
    }

    /// Blocks until an event is available or the channel is closed with no
    /// events pending; the latter yields `EventRecvError`, permanently.
    ///
    /// Relies on `crossbeam_channel::Receiver::recv`: it returns an event
    /// while one can still arrive, and fails only once the channel is
    /// disconnected and empty - a state that cannot be left, so after one
    /// failure every later call fails as well.  Each yielded event counts
    /// down `pending()`, the measure the receive loop's progress is held to.
    #[verifier::external_body]
    pub fn recv(&mut self) -> (r: Result<Event, EventRecvError>)
        ensures
            match r {
                Ok(event) => !old(self).ended() && !final(self).ended()
                    && final(self).received() == old(self).received().push(event)
                    && final(self).pending() < old(self).pending(),
                Err(_) => final(self).ended() && final(self).received() == old(self).received(),
            },
    {
        self.receiver.recv().map_err(|_| EventRecvError)
    }
}

} // verus!
