//! A reporter which transmits its events over the unbounded event channel.

use crate::channel_reporter::channel::EventSendError;
use crate::channel_reporter::channel::EventSender;
use crate::reporter::Reporter;
use vstd::prelude::*;

verus! {

/// A specialized reporter which uses a channel to transmit messages.
///
/// It owns the sending half of an event channel created by
/// [`event_channel`](crate::event_channel); the matching receiving half
/// belongs to a [`ChannelEventListener`](crate::ChannelEventListener).
/// `sent()` is the sequence of events successfully sent, oldest first.
///
/// [`Reporter::disconnect`] consumes the reporter and gives the sending half
/// up, which is what lets the listener's receive loop observe end-of-stream.
/// To wait until the already-sent events have actually been processed, use
/// the [`FinishProcessing`](crate::FinishProcessing) handle that the listener
/// returned.
#[verifier::reject_recursive_types(Event)]
pub struct ChannelReporter<Event> {
    event_sender: EventSender<Event>,
}

/// The ways reporting can fail: the listener side is already gone, so the
/// event cannot ever be consumed.  The event travels back inside the error,
/// so the caller may log it, resend it elsewhere, or drop it knowingly.
#[derive(Debug)]
pub enum EventReporterError<Event> {
    SendError(EventSendError<Event>),
}

impl<Event> ChannelReporter<Event> {
    /// Set up a reporter over the sending half of an event channel.
    pub fn new(event_sender: EventSender<Event>) -> (r: Self)
        ensures
            r.sent() == event_sender.sent(),
    {
        ChannelReporter { event_sender }
    }
}

impl<Event> Reporter for ChannelReporter<Event> {
    type Event = Event;

    type Err = EventReporterError<Event>;

    closed spec fn sent(&self) -> Seq<Event> {
        self.event_sender.sent()
    }

    /// Forwards the event to the channel.  It fails only when the receiving
    /// half of the channel has already been dropped, and the error then
    /// carries the event back to the caller unchanged.
    fn report_event(&mut self, event: Event) -> (r: Result<(), EventReporterError<Event>>)
        ensures
            match r {
                Ok(()) => final(self).sent() == old(self).sent().push(event),
                Err(EventReporterError::SendError(e)) => e.0 == event && final(self).sent() == old(
                    self,
                ).sent(),
            },
    {
        match self.event_sender.send(event) {
            Ok(()) => Ok(()),
            Err(e) => Err(EventReporterError::SendError(e)),
        }
    }

    /// Disconnects the sender: after this, the listener's next receive on a
    /// drained channel reports end-of-stream instead of blocking.  Closing a
    /// channel cannot fail, so the result is always `Ok`.
    fn disconnect(self) -> (r: Result<(), EventReporterError<Event>>)
        ensures
            r is Ok,
    {
        self.event_sender.disconnect();
        Ok(())
    }
}

} // verus!
