//! The capability interface a caller supplies to react to events.

use vstd::prelude::*;

verus! {

/// Caller-supplied reaction logic: react to one event at a time, and react
/// once to the end of the stream.  Implementations can be anything - a
/// progress display, a line printer, a counter, or a composite that fans
/// every call out to several handlers in order.
///
/// An implementation exposes its observations through two ghost projections:
/// `handled()` is the sequence of events it has reacted to, oldest first, and
/// `finish_count()` is how many times its finalize step has run.  The
/// contracts of `handle` and `finish` pin down how each call moves those
/// projections, which is what lets a listener prove that a handler saw every
/// delivered event, in delivery order, followed by exactly one finalize.
///
/// A handler must not block indefinitely inside `handle` or `finish`, or
/// the whole pipeline stalls behind it; and an embedding that runs its
/// handler on a background thread also needs the handler to be `Send`.
pub trait EventHandler: Sized {
    /// The type of event to be handled.  Usually the same type as a
    /// [`Reporter`](crate::Reporter) sends to an
    /// [`EventListener`](crate::EventListener).
    type Event;

    /// The events this handler has reacted to, oldest first.
    spec fn handled(&self) -> Seq<Self::Event>;

    /// How many times the finalize step has run.
    spec fn finish_count(&self) -> nat;

    /// Act upon one received event.
    fn handle(&mut self, event: Self::Event)
        ensures
            final(self).handled() == old(self).handled().push(event),
            final(self).finish_count() == old(self).finish_count(),
    ;

    /// A final action to perform once no more events will be received, for
    /// example because the event channel has been disconnected.  It is up to
    /// the [`EventListener`](crate::EventListener) to call this, exactly once,
    /// after the last `handle` call.
    fn finish(&mut self)
        ensures
            final(self).handled() == old(self).handled(),
            final(self).finish_count() == old(self).finish_count() + 1,
    ;
}

/// The observation guarantee of one complete processing run, spelled out.
///
/// A run moves a handler from `pre` to `post` by appending the delivered
/// events to its history and running its finalize step exactly once - the
/// contract of
/// [`ChannelEventListener::process_events`](crate::ChannelEventListener::process_events).
/// Whenever that holds, the handler reacted to every delivered event exactly
/// once and in delivery order, its earlier history untouched, and its
/// finalize step has run.
pub proof fn lemma_run_observations<H: EventHandler>(pre: H, post: H, delivered: Seq<H::Event>)
    requires
        post.handled() == pre.handled() + delivered,
        post.finish_count() == pre.finish_count() + 1,
    ensures
        post.handled().len() == pre.handled().len() + delivered.len(),
        forall|i: int|
            0 <= i < delivered.len() ==> post.handled()[pre.handled().len() + i] == delivered[i],
        forall|i: int| 0 <= i < pre.handled().len() ==> post.handled()[i] == pre.handled()[i],
        post.finish_count() > 0,
{
}

} // verus!
