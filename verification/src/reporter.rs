//! The producer-side interface: sending events and initiating shutdown.

use vstd::prelude::*;

verus! {

/// A reporter (a type of transmitter) which sends events (the message to be
/// transmitted) to a listener (a type of receiver).
///
/// `sent()` is the sequence of events this reporter has successfully sent,
/// oldest first.  A reporter is consumed by `disconnect`, so it signals
/// end-of-stream at most once, and no event can be reported after it.
pub trait Reporter: Sized {
    /// The type of message sent from a reporter to some listener.
    type Event;

    /// The type of error which occurs on a failure to report an event or to
    /// disconnect.
    type Err;

    /// The events successfully sent so far, oldest first.
    spec fn sent(&self) -> Seq<Self::Event>;

    /// Send an event to the listener.  On success the event is appended to
    /// the send history; on failure the history is unchanged.
    fn report_event(&mut self, event: Self::Event) -> (r: Result<(), Self::Err>)
        ensures
            r is Ok ==> final(self).sent() == old(self).sent().push(event),
            r is Err ==> final(self).sent() == old(self).sent(),
    ;

    /// Disconnect the reporter from the listener, signalling that no more
    /// events will follow.
    fn disconnect(self) -> (r: Result<(), Self::Err>);
}

} // verus!
