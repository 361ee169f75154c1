//! A listener which drains the event channel through a verified
//! receive/handle loop.

use crate::channel_reporter::channel::EventReceiver;
use crate::handler::EventHandler;
use vstd::prelude::*;

verus! {

/// A listener which owns the receiving half of an event channel created by
/// [`event_channel`](crate::event_channel).
///
/// The reporter associated with this listener is the
/// [`ChannelReporter`](crate::ChannelReporter), which owns the matching
/// sending half.  `process_events` is the listener's receive/handle loop; an
/// embedding application that wants the loop off its own thread runs it on a
/// background thread and joins that thread through a
/// [`FinishProcessing`](crate::FinishProcessing) handle.
#[verifier::reject_recursive_types(Event)]
pub struct ChannelEventListener<Event> {
    event_receiver: EventReceiver<Event>,
}

impl<Event> ChannelEventListener<Event> {
    /// The events the listener's receiving half has already yielded.
    pub closed spec fn received(self) -> Seq<Event> {
        self.event_receiver.received()
    }

    /// Whether the listener's receiving half has already observed
    /// end-of-stream.
    pub closed spec fn ended(self) -> bool {
        self.event_receiver.ended()
    }

    /// Create a new channel-based event listener over the receiving half of
    /// an event channel.
    pub fn new(event_receiver: EventReceiver<Event>) -> (r: Self)
        ensures
            r.received() == event_receiver.received(),
            r.ended() == event_receiver.ended(),
    {
        ChannelEventListener { event_receiver }
    }

    /// The receive/handle loop of a processing run.
    ///
    /// Repeatedly receives on the listener's receiving half; each event is
    /// handed to `handler.handle` as it arrives, and when the receiver
    /// observes end-of-stream - the channel disconnected and drained -
    /// `handler.finish` is run, exactly once, and the loop terminates.
    ///
    /// The contract is the ordering and completeness guarantee of a run: the
    /// handler reacted to exactly the events the receiver yielded during the
    /// run, in delivery order, and the single finalize step came after all
    /// of them.  If the channel is never disconnected, the loop blocks in
    /// `recv` forever and this point is never reached; that liveness
    /// condition is the caller's (documented) obligation.
    pub fn process_events<H: EventHandler<Event = Event>>(&mut self, handler: &mut H)
        ensures
            final(self).ended(),
            old(self).received().is_prefix_of(final(self).received()),
            final(handler).handled() == old(handler).handled() + final(self).received().skip(
                old(self).received().len() as int,
            ),
            final(handler).finish_count() == old(handler).finish_count() + 1,
    {
        let receiver = &mut self.event_receiver;
        let ghost r0 = *receiver;
        let ghost h0 = *handler;
        loop
            invariant_except_break
                handler.finish_count() == h0.finish_count(),
            invariant
                r0.received().is_prefix_of(receiver.received()),
                handler.handled() == h0.handled() + receiver.received().skip(
                    r0.received().len() as int,
                ),
            ensures
                receiver.ended(),
                r0.received().is_prefix_of(receiver.received()),
                handler.handled() == h0.handled() + receiver.received().skip(
                    r0.received().len() as int,
                ),
                handler.finish_count() == h0.finish_count() + 1,
            decreases receiver.pending(),
        {
            match receiver.recv() {
                Ok(event) => {
                    handler.handle(event);
                },
                Err(_) => {
                    handler.finish();
                    break;
                },
            }
        }
    }
}

} // verus!
