//! Ready-made event handlers: a recorder, a counter, a summer, and two
//! composites that fan events out to several handlers in order.
//!
//! Beyond being useful on their own - the recorder and the counter are the
//! natural handlers for observing a pipeline in tests - these implementations
//! demonstrate how the [`EventHandler`](crate::EventHandler) contract is met:
//! each keeps whatever run-time state it is for, together with the ghost
//! observation history the contract is stated over.

use crate::handler::EventHandler;
use vstd::prelude::*;

verus! {

/// `n`, capped at what a `u64` can hold.  The exec-mode counters below
/// saturate instead of overflowing; this says what a saturated value means.
pub open spec fn capped_u64(n: nat) -> nat {
    if n > u64::MAX as nat {
        u64::MAX as nat
    } else {
        n
    }
}

/// The sum of a sequence of numbers.
pub open spec fn sum_of(s: Seq<u64>) -> nat
    decreases s.len(),
{
    if s.len() == 0 {
        0
    } else {
        sum_of(s.drop_last()) + s.last() as nat
    }
}

/// A handler which collects every event it receives, in order, for later
/// inspection - the natural handler for observing a pipeline in tests.
#[verifier::reject_recursive_types(Event)]
pub struct RecordingHandler<Event> {
    events: Vec<Event>,
    finishes: Ghost<nat>,
    did_finish: bool,
}

impl<Event> RecordingHandler<Event> {
    #[verifier::type_invariant]
    spec fn inv(self) -> bool {
        self.did_finish ==> self.finishes@ > 0
    }

    /// A recorder that has seen nothing yet.
    pub fn new() -> (r: Self)
        ensures
            r.handled() == Seq::<Event>::empty(),
            r.finish_count() == 0,
    {
        RecordingHandler { events: Vec::new(), finishes: Ghost(0), did_finish: false }
    }

    /// The recorded events, oldest first.
    pub fn events(&self) -> (r: &Vec<Event>)
        ensures
            r@ == self.handled(),
    {
        &self.events
    }

    /// Whether the finalize step has run.
    pub fn has_finished(&self) -> (r: bool)
        ensures
            r ==> self.finish_count() > 0,
    {
        proof {
            use_type_invariant(&self);
        }
        self.did_finish
    }
}

impl<Event> EventHandler for RecordingHandler<Event> {
    type Event = Event;

    closed spec fn handled(&self) -> Seq<Event> {
        self.events@
    }

    closed spec fn finish_count(&self) -> nat {
        self.finishes@
    }

    fn handle(&mut self, event: Event) {
        proof {
            use_type_invariant(&*self);
        }
        let mut events: Vec<Event> = Vec::new();
        core::mem::swap(&mut events, &mut self.events);
        events.push(event);
        *self = RecordingHandler {
            events,
            finishes: self.finishes,
            did_finish: self.did_finish,
        };
    }

    fn finish(&mut self) {
        proof {
            use_type_invariant(&*self);
        }
        self.finishes = Ghost(self.finishes@ + 1);
        self.did_finish = true;
    }
}

/// A handler which only counts the events it receives.  The count saturates
/// rather than overflowing, so `count()` reports the number of handled
/// events capped at `u64::MAX`.
#[verifier::reject_recursive_types(Event)]
pub struct CountingHandler<Event> {
    count: u64,
    log: Ghost<Seq<Event>>,
    finishes: Ghost<nat>,
}

impl<Event> CountingHandler<Event> {
    #[verifier::type_invariant]
    spec fn inv(self) -> bool {
        self.count as nat == capped_u64(self.log@.len())
    }

    /// A counter at zero.
    pub fn new() -> (r: Self)
        ensures
            r.handled() == Seq::<Event>::empty(),
            r.finish_count() == 0,
    {
        CountingHandler { count: 0, log: Ghost(Seq::empty()), finishes: Ghost(0) }
    }

    /// How many events were handled, capped at `u64::MAX`.
    pub fn count(&self) -> (r: u64)
        ensures
            r as nat == capped_u64(self.handled().len()),
    {
        proof {
            use_type_invariant(&self);
        }
        self.count
    }
}

impl<Event> EventHandler for CountingHandler<Event> {
    type Event = Event;

    closed spec fn handled(&self) -> Seq<Event> {
        self.log@
    }

    closed spec fn finish_count(&self) -> nat {
        self.finishes@
    }

    fn handle(&mut self, event: Event) {
        proof {
            use_type_invariant(&*self);
        }
        let c = if self.count < u64::MAX {
            self.count + 1
        } else {
            u64::MAX
        };
        *self = CountingHandler {
            count: c,
            log: Ghost(self.log@.push(event)),
            finishes: self.finishes,
        };
    }

    fn finish(&mut self) {
        proof {
            use_type_invariant(&*self);
        }
        self.finishes = Ghost(self.finishes@ + 1);
    }
}

/// A handler which adds up the numeric events it receives.  The total
/// saturates rather than overflowing, so `total()` reports the sum of the
/// handled events capped at `u64::MAX`.
pub struct SummingHandler {
    total: u64,
    log: Ghost<Seq<u64>>,
    finishes: Ghost<nat>,
}

impl SummingHandler {
    #[verifier::type_invariant]
    spec fn inv(self) -> bool {
        self.total as nat == capped_u64(sum_of(self.log@))
    }

    /// A summer at zero.
    pub fn new() -> (r: Self)
        ensures
            r.handled() == Seq::<u64>::empty(),
            r.finish_count() == 0,
    {
        SummingHandler { total: 0, log: Ghost(Seq::empty()), finishes: Ghost(0) }
    }

    /// The sum of the handled events, capped at `u64::MAX`.
    pub fn total(&self) -> (r: u64)
        ensures
            r as nat == capped_u64(sum_of(self.handled())),
    {
        proof {
            use_type_invariant(&self);
        }
        self.total
    }
}

impl EventHandler for SummingHandler {
    type Event = u64;

    closed spec fn handled(&self) -> Seq<u64> {
        self.log@
    }

    closed spec fn finish_count(&self) -> nat {
        self.finishes@
    }

    fn handle(&mut self, event: u64) {
        proof {
            use_type_invariant(&*self);
            assert(self.log@.push(event).drop_last() =~= self.log@);
        }
        let t = if event <= u64::MAX - self.total {
            self.total + event
        } else {
            u64::MAX
        };
        *self = SummingHandler {
            total: t,
            log: Ghost(self.log@.push(event)),
            finishes: self.finishes,
        };
    }

    fn finish(&mut self) {
        proof {
            use_type_invariant(&*self);
        }
        self.finishes = Ghost(self.finishes@ + 1);
    }
}

/// A composite handler which holds an ordered collection of handlers of one
/// type and forwards every `handle` and `finish` call to each of them, in
/// order.  The events must be `Copy`, since each sub-handler receives its
/// own copy of every event.
pub struct MultiHandler<H: EventHandler> where H::Event: Copy {
    handlers: Vec<H>,
    log: Ghost<Seq<H::Event>>,
    finishes: Ghost<nat>,
}

impl<H: EventHandler> MultiHandler<H> where H::Event: Copy {
    /// The sub-handlers, in the order calls are forwarded to them.
    pub closed spec fn members(self) -> Seq<H> {
        self.handlers@
    }

    /// An empty composite: handling an event forwards it to no one.
    pub fn new() -> (r: Self)
        ensures
            r.members() == Seq::<H>::empty(),
            r.handled() == Seq::<H::Event>::empty(),
            r.finish_count() == 0,
    {
        MultiHandler { handlers: Vec::new(), log: Ghost(Seq::empty()), finishes: Ghost(0) }
    }

    /// Append a sub-handler; it will receive every call forwarded from now
    /// on, after all the handlers already present.
    pub fn add_handler(&mut self, handler: H)
        ensures
            final(self).members() == old(self).members().push(handler),
            final(self).handled() == old(self).handled(),
            final(self).finish_count() == old(self).finish_count(),
    {
        self.handlers.push(handler);
    }

    /// The sub-handlers, for inspection once a run is over.
    pub fn handlers(&self) -> (r: &Vec<H>)
        ensures
            r@ == self.members(),
    {
        &self.handlers
    }
}

impl<H: EventHandler> EventHandler for MultiHandler<H> where H::Event: Copy {
    type Event = H::Event;

    closed spec fn handled(&self) -> Seq<H::Event> {
        self.log@
    }

    closed spec fn finish_count(&self) -> nat {
        self.finishes@
    }

    /// Forwards the event to every sub-handler, in order.
    fn handle(&mut self, event: H::Event)
        ensures
            final(self).members().len() == old(self).members().len(),
            forall|k: int|
                0 <= k < old(self).members().len() ==> (#[trigger] final(self).members()[k]).handled()
                    == old(self).members()[k].handled().push(event) && final(self).members()[k].finish_count()
                    == old(self).members()[k].finish_count(),
    {
        let ghost m0 = self.handlers@;
        let ghost log0 = self.log@;
        let ghost fin0 = self.finishes@;
        let n = self.handlers.len();
        let mut i: usize = 0;
        while i < n
            invariant
                i <= n,
                n == m0.len(),
                self.handlers@.len() == m0.len(),
                self.log@ == log0,
                self.finishes@ == fin0,
                forall|k: int|
                    0 <= k < i ==> (#[trigger] self.handlers@[k]).handled() == m0[k].handled().push(
                        event,
                    ) && self.handlers@[k].finish_count() == m0[k].finish_count(),
                forall|k: int| i <= k < n ==> self.handlers@[k] == m0[k],
            decreases n - i,
        {
            let h = &mut self.handlers[i];
            h.handle(event);
            i = i + 1;
        }
        self.log = Ghost(self.log@.push(event));
    }

    /// Forwards the finalize step to every sub-handler, in order.
    fn finish(&mut self)
        ensures
            final(self).members().len() == old(self).members().len(),
            forall|k: int|
                0 <= k < old(self).members().len() ==> (#[trigger] final(self).members()[k]).handled()
                    == old(self).members()[k].handled() && final(self).members()[k].finish_count()
                    == old(self).members()[k].finish_count() + 1,
    {
        let ghost m0 = self.handlers@;
        let ghost log0 = self.log@;
        let ghost fin0 = self.finishes@;
        let n = self.handlers.len();
        let mut i: usize = 0;
        while i < n
            invariant
                i <= n,
                n == m0.len(),
                self.handlers@.len() == m0.len(),
                self.log@ == log0,
                self.finishes@ == fin0,
                forall|k: int|
                    0 <= k < i ==> (#[trigger] self.handlers@[k]).handled() == m0[k].handled()
                        && self.handlers@[k].finish_count() == m0[k].finish_count() + 1,
                forall|k: int| i <= k < n ==> self.handlers@[k] == m0[k],
            decreases n - i,
        {
            let h = &mut self.handlers[i];
            h.finish();
            i = i + 1;
        }
        self.finishes = Ghost(self.finishes@ + 1);
    }
}

/// A composite handler over exactly two handlers, which may be of different
/// types; every `handle` and `finish` call goes to `first`, then to
/// `second`.  The events must be `Copy`, since both receive every event.
pub struct PairHandler<A, B> {
    /// The sub-handler that receives every call first.
    pub first: A,
    /// The sub-handler that receives every call second.
    pub second: B,
}

impl<A, B> PairHandler<A, B> {
    /// A composite over `first` and `second`.
    pub fn new(first: A, second: B) -> (r: Self)
        ensures
            r.first == first,
            r.second == second,
    {
        PairHandler { first, second }
    }
}

impl<A: EventHandler, B: EventHandler<Event = A::Event>> EventHandler for PairHandler<
    A,
    B,
> where A::Event: Copy {
    type Event = A::Event;

    open spec fn handled(&self) -> Seq<A::Event> {
        self.first.handled()
    }

    open spec fn finish_count(&self) -> nat {
        self.first.finish_count()
    }

    /// Forwards the event to `first`, then to `second`.
    fn handle(&mut self, event: A::Event)
        ensures
            final(self).second.handled() == old(self).second.handled().push(event),
            final(self).second.finish_count() == old(self).second.finish_count(),
    {
        self.first.handle(event);
        self.second.handle(event);
    }

    /// Forwards the finalize step to `first`, then to `second`.
    fn finish(&mut self)
        ensures
            final(self).second.handled() == old(self).second.handled(),
            final(self).second.finish_count() == old(self).second.finish_count() + 1,
    {
        self.first.finish();
        self.second.finish();
    }
}

} // verus!
