//! The queue of decoded events and the sinks it is drained into.

use vstd::prelude::*;
use std::collections::VecDeque;
use crate::event::CacheMonitorValue;

verus! {

/// A consumer of events.
///
/// What a sink does with an event is its own business; what it has been
/// handed so far, and in which order, is what `received` stands for.
pub trait EventSink {
    /// The events handed to this sink so far, oldest first.
    spec fn received(&self) -> Seq<CacheMonitorValue>;

    /// The sink is in order: it takes any event whatever, and has dealt with
    /// each event that it has received. It stays so however many events it
    /// is handed.
    spec fn willing(&self) -> bool;

    /// Hands one event to the sink.
    fn accept(&mut self, event: CacheMonitorValue)
        requires
            old(self).willing(),
        ensures
            final(self).received() == old(self).received().push(event),
            final(self).willing(),
    ;
}

/// A vector is a sink that keeps what it is handed.
impl EventSink for Vec<CacheMonitorValue> {
    open spec fn received(&self) -> Seq<CacheMonitorValue> {
        self@
    }

    open spec fn willing(&self) -> bool {
        true
    }

    fn accept(&mut self, event: CacheMonitorValue) {
        self.push(event);
    }
}

/// A sink that calls a function with each event it is handed.
pub struct FnSink<F: FnMut(CacheMonitorValue)> {
    callback: F,
    handed: Ghost<Seq<CacheMonitorValue>>,
}

impl<F: FnMut(CacheMonitorValue)> FnSink<F> {
    /// The sink that calls `callback`, which has been handed nothing so far.
    /// The function must be one that can be called with any event.
    pub fn new(callback: F) -> (sink: FnSink<F>)
        requires
            forall|event: CacheMonitorValue| call_requires(callback, (event,)),
        ensures
            sink.function() == callback,
            sink.received() == Seq::<CacheMonitorValue>::empty(),
            sink.willing(),
    {
        FnSink { callback, handed: Ghost(Seq::empty()) }
    }

    /// The function that this sink calls.
    pub closed spec fn function(&self) -> F {
        self.callback
    }

    /// Gives the function back.
    pub fn into_inner(self) -> (callback: F)
        ensures
            callback == self.function(),
    {
        self.callback
    }

    /// Whatever a sink has received, its function has been called with and
    /// has returned from.
    pub proof fn lemma_received_went_through_function(&self)
        requires
            self.willing(),
        ensures
            forall|event: CacheMonitorValue| call_requires(self.function(), (event,)),
            forall|i: int|
                0 <= i < self.received().len() ==> call_ensures(
                    self.function(),
                    (#[trigger] self.received()[i],),
                    (),
                ),
    {
    }
}

impl<F: FnMut(CacheMonitorValue)> EventSink for FnSink<F> {
    closed spec fn received(&self) -> Seq<CacheMonitorValue> {
        self.handed@
    }

    closed spec fn willing(&self) -> bool {
        &&& forall|event: CacheMonitorValue| call_requires(self.callback, (event,))
        &&& forall|i: int|
            0 <= i < self.handed@.len() ==> call_ensures(
                self.callback,
                (#[trigger] self.handed@[i],),
                (),
            )
    }

    /// Calls the function with `event`.
    fn accept(&mut self, event: CacheMonitorValue) {
        (self.callback)(event);
        proof {
            self.handed@ = self.handed@.push(event);
        }
    }
}

/// Decoded events in the order of their arrival.
///
/// The queue has one owner, who both appends and drains.
pub struct EventQueue {
    events: VecDeque<CacheMonitorValue>,
}

impl View for EventQueue {
    type V = Seq<CacheMonitorValue>;

    closed spec fn view(&self) -> Seq<CacheMonitorValue> {
        self.events@
    }
}

impl EventQueue {
    /// What is queued after [`push`](Self::push) of `event` onto a queue that
    /// held `queued`: the same, with `event` behind.
    pub open spec fn after_push(queued: Seq<CacheMonitorValue>, event: CacheMonitorValue) -> Seq<
        CacheMonitorValue,
    > {
        queued.push(event)
    }

    /// What is queued after [`consume`](Self::consume) on a queue that held
    /// `queued`: nothing.
    pub open spec fn after_consume(queued: Seq<CacheMonitorValue>) -> Seq<CacheMonitorValue> {
        Seq::empty()
    }

    /// What a sink that had received `received` has received after
    /// [`consume`](Self::consume) on a queue that held `queued`: what it had,
    /// and behind it what was queued, oldest first.
    pub open spec fn handed_over(
        received: Seq<CacheMonitorValue>,
        queued: Seq<CacheMonitorValue>,
    ) -> Seq<CacheMonitorValue> {
        received + queued
    }

    /// A queue that holds nothing.
    pub fn new() -> (queue: EventQueue)
        ensures
            queue@ == Seq::<CacheMonitorValue>::empty(),
    {
        EventQueue { events: VecDeque::new() }
    }

    /// The number of events that wait to be consumed.
    pub fn len(&self) -> (n: usize)
        ensures
            n == self@.len(),
    {
        self.events.len()
    }

    /// Whether no event waits to be consumed.
    pub fn is_empty(&self) -> (empty: bool)
        ensures
            empty == (self@.len() == 0),
    {
        self.events.len() == 0
    }

    /// Appends `event` behind everything that is queued.
    pub fn push(&mut self, event: CacheMonitorValue)
        ensures
            final(self)@ == Self::after_push(old(self)@, event),
    {
        self.events.push_back(event);
    }

    /// Hands every queued event to `sink`, oldest first, and leaves the queue
    /// empty.
    ///
    /// The sink is handed exactly the queued events, each once; on an empty
    /// queue it is handed nothing.
    pub fn consume<S: EventSink + ?Sized>(&mut self, sink: &mut S)
        requires
            old(sink).willing(),
        ensures
            final(self)@ == Self::after_consume(old(self)@),
            final(sink).received() == Self::handed_over(old(sink).received(), old(self)@),
            old(self)@.len() == 0 ==> final(sink).received() == old(sink).received(),
            final(sink).willing(),
    {
        let ghost queued = self@;
        let ghost before = sink.received();
        let ghost mut handed: nat = 0;
        loop
            invariant
                sink.willing(),
                handed <= queued.len(),
                self.events@ == queued.subrange(handed as int, queued.len() as int),
                sink.received() == before + queued.subrange(0, handed as int),
            ensures
                sink.willing(),
                self.events@ == Seq::<CacheMonitorValue>::empty(),
                sink.received() == before + queued,
            decreases queued.len() - handed,
        {
            match self.events.pop_front() {
                Some(event) => {
                    sink.accept(event);
                    proof {
                        handed = handed + 1;
                    }
                },
                None => {
                    break ;
                },
            }
        }
    }
}

/// What is queued once `events` have been pushed, one after the other, onto
/// a queue that holds `queued`.
pub open spec fn appended(queued: Seq<CacheMonitorValue>, events: Seq<CacheMonitorValue>) -> Seq<
    CacheMonitorValue,
>
    decreases events.len(),
{
    if events.len() == 0 {
        queued
    } else {
        EventQueue::after_push(appended(queued, events.drop_last()), events.last())
    }
}

/// Pushing keeps what is queued in front and the newcomers in their order.
pub proof fn lemma_appended_is_concatenation(
    queued: Seq<CacheMonitorValue>,
    events: Seq<CacheMonitorValue>,
)
    ensures
        appended(queued, events) == queued + events,
    decreases events.len(),
{
    if events.len() > 0 {
        lemma_appended_is_concatenation(queued, events.drop_last());
    }
}

/// After `events` have been pushed onto an empty queue, one call of
/// `consume` hands the sink exactly these events, as many and in the same
/// order, behind what it had received before. The call leaves the queue
/// empty, and a second call on what it leaves hands the sink nothing.
///
/// The law is stated over what `EventQueue::push` and `EventQueue::consume`
/// promise: `after_push`, `after_consume` and `handed_over`.
pub proof fn lemma_consume_hands_over_once_in_order(
    received: Seq<CacheMonitorValue>,
    events: Seq<CacheMonitorValue>,
)
    ensures
        ({
            let queued = appended(Seq::empty(), events);
            let after_first = EventQueue::handed_over(received, queued);
            let left = EventQueue::after_consume(queued);
            let after_second = EventQueue::handed_over(after_first, left);
            &&& after_first.len() == received.len() + events.len()
            &&& forall|i: int| 0 <= i < received.len() ==> after_first[i] == received[i]
            &&& forall|i: int|
                0 <= i < events.len() ==> after_first[received.len() + i] == events[i]
            &&& left.len() == 0
            &&& after_second == after_first
            &&& EventQueue::after_consume(left) == left
        }),
{
    lemma_appended_is_concatenation(Seq::empty(), events);
}

} // verus!
