//! Native objects that live inside interpreter objects.
//!
//! A native struct handed to the interpreter sits in a slot that the
//! collector manages. Over the slot's life the collector traces it any number
//! of times and reclaims it once; [`SlotState::step`] says which hook each of
//! those events calls for. While tracing, the struct's mark hook has to report
//! every interpreter value the struct holds: a [`Marker`] takes the reports,
//! and [`exhaustive`] says when none is missing.

use vstd::prelude::*;
use crate::value::Value;

verus! {

/// Where a native object stands in its life.
#[derive(Clone, Copy, Debug, PartialEq, Eq, Structural)]
pub enum SlotState {
    /// Built by the host, not yet handed to the interpreter.
    Unregistered,
    /// Stored behind a slot of the interpreter, not yet traced.
    Registered,
    /// Traced at least once since it was registered.
    Marked,
    /// Reclaimed. The slot and the struct are gone for good.
    Finalized,
}

/// What the interpreter does to a slot.
#[derive(Clone, Copy, Debug, PartialEq, Eq, Structural)]
pub enum CollectorEvent {
    /// The allocation call takes the struct over.
    Allocate,
    /// The collector reaches the slot while tracing.
    Trace,
    /// The collector has found the slot unreachable.
    Reclaim,
}

/// A hook of the native struct.
#[derive(Clone, Copy, Debug, PartialEq, Eq, Structural)]
pub enum Hook {
    /// Report the interpreter values that the struct holds.
    Mark,
    /// Release what the struct holds outside the interpreter.
    Free,
}

impl SlotState {
    /// Whether the slot holds a struct that may be accessed.
    pub open spec fn is_live(self) -> bool {
        self == SlotState::Registered || self == SlotState::Marked
    }

    /// The state after `event`, or `None` where the event cannot happen to a
    /// slot in this state.
    pub open spec fn next(self, event: CollectorEvent) -> Option<SlotState> {
        match event {
            CollectorEvent::Allocate => if self == SlotState::Unregistered {
                Some(SlotState::Registered)
            } else {
                None
            },
            CollectorEvent::Trace => if self.is_live() {
                Some(SlotState::Marked)
            } else {
                None
            },
            CollectorEvent::Reclaim => if self.is_live() {
                Some(SlotState::Finalized)
            } else {
                None
            },
        }
    }

    /// The hook that `event` calls for on a slot in this state, if any.
    pub open spec fn hook(self, event: CollectorEvent) -> Option<Hook> {
        if !self.is_live() {
            None
        } else {
            match event {
                CollectorEvent::Allocate => None,
                CollectorEvent::Trace => Some(Hook::Mark),
                CollectorEvent::Reclaim => Some(Hook::Free),
            }
        }
    }

    /// Takes one event: returns the state that follows and the hook to run,
    /// or `None` where the event cannot happen to a slot in this state.
    pub fn step(self, event: CollectorEvent) -> (res: Option<(SlotState, Option<Hook>)>)
        ensures
            res is Some <==> self.next(event) is Some,
            res is Some ==> res.unwrap().0 == self.next(event).unwrap(),
            res is Some ==> res.unwrap().1 == self.hook(event),
    {
        match (self, event) {
            (SlotState::Unregistered, CollectorEvent::Allocate) => Some(
                (SlotState::Registered, None),
            ),
            (SlotState::Registered, CollectorEvent::Trace) => Some(
                (SlotState::Marked, Some(Hook::Mark)),
            ),
            (SlotState::Marked, CollectorEvent::Trace) => Some(
                (SlotState::Marked, Some(Hook::Mark)),
            ),
            (SlotState::Registered, CollectorEvent::Reclaim) => Some(
                (SlotState::Finalized, Some(Hook::Free)),
            ),
            (SlotState::Marked, CollectorEvent::Reclaim) => Some(
                (SlotState::Finalized, Some(Hook::Free)),
            ),
            _ => None,
        }
    }

    /// The state after a run of events, or `None` if one of them could not
    /// happen when its turn came.
    pub open spec fn run(self, events: Seq<CollectorEvent>) -> Option<SlotState>
        decreases events.len(),
    {
        if events.len() == 0 {
            Some(self)
        } else {
            match self.next(events[0]) {
                Some(state) => state.run(events.drop_first()),
                None => None,
            }
        }
    }

    /// How often a run of events calls for `hook`, up to the first event that
    /// cannot happen.
    pub open spec fn calls(self, events: Seq<CollectorEvent>, hook: Hook) -> nat
        decreases events.len(),
    {
        if events.len() == 0 {
            0
        } else {
            match self.next(events[0]) {
                Some(state) => {
                    let here: nat = if self.hook(events[0]) == Some(hook) {
                        1
                    } else {
                        0
                    };
                    here + state.calls(events.drop_first(), hook)
                },
                None => 0,
            }
        }
    }

    /// Nothing happens to a finalized slot: no event is accepted and no hook
    /// runs.
    pub proof fn finalized_is_terminal(event: CollectorEvent)
        ensures
            SlotState::Finalized.next(event) is None,
            SlotState::Finalized.hook(event) is None,
    {
    }

    /// Over any run of events the free hook runs at most once: exactly once
    /// if the run finalizes a slot that was not finalized before, else never.
    pub proof fn freed_exactly_once(self, events: Seq<CollectorEvent>)
        requires
            self.run(events) is Some,
        ensures
            self.calls(events, Hook::Free) == if self.run(events).unwrap() == SlotState::Finalized
                && self != SlotState::Finalized {
                1nat
            } else {
                0nat
            },
        decreases events.len(),
    {
        if events.len() > 0 {
            let state = self.next(events[0]).unwrap();
            state.freed_exactly_once(events.drop_first());
            if state == SlotState::Finalized {
                Self::stays_finalized(events.drop_first());
            }
        }
    }

    /// A run that a finalized slot accepts is the empty one.
    proof fn stays_finalized(events: Seq<CollectorEvent>)
        requires
            SlotState::Finalized.run(events) is Some,
        ensures
            events.len() == 0,
    {
    }

    /// Every trace of a live slot runs the mark hook: over a run the hook is
    /// called as often as the run holds a trace.
    pub proof fn marked_on_every_trace(self, events: Seq<CollectorEvent>)
        requires
            self.run(events) is Some,
        ensures
            self.calls(events, Hook::Mark) == events.filter(
                |e: CollectorEvent| e == CollectorEvent::Trace,
            ).len(),
        decreases events.len(),
    {
        let is_trace = |e: CollectorEvent| e == CollectorEvent::Trace;
        if events.len() == 0 {
            assert(events.filter(is_trace).len() == 0) by {
                reveal(Seq::filter);
            }
        } else {
            let state = self.next(events[0]).unwrap();
            state.marked_on_every_trace(events.drop_first());
            let head = seq![events[0]];
            assert(events =~= head + events.drop_first());
            Seq::filter_distributes_over_add(head, events.drop_first(), is_trace);
            assert(head.filter(is_trace).len() == if events[0] == CollectorEvent::Trace {
                1nat
            } else {
                0nat
            }) by {
                reveal_with_fuel(Seq::filter, 2);
                assert(head.drop_last() =~= Seq::<CollectorEvent>::empty());
            }
        }
    }
}

/// Whether `reported` leaves out none of the values in `held`.
pub open spec fn exhaustive(held: Seq<Value>, reported: Seq<Value>) -> bool {
    forall|i: int| 0 <= i < held.len() ==> reported.contains(#[trigger] held[i])
}

/// Takes the reports of a mark hook during one trace.
///
/// A value that is reported is kept alive by the collector, and traced in
/// turn. A value that the struct holds and does not report may be reclaimed
/// while the struct still refers to it.
#[derive(Debug)]
pub struct Marker {
    reported: Vec<Value>,
}

impl View for Marker {
    type V = Seq<Value>;

    closed spec fn view(&self) -> Seq<Value> {
        self.reported@
    }
}

impl Marker {
    /// A marker with no reports.
    pub fn new() -> (marker: Self)
        ensures
            marker@ == Seq::<Value>::empty(),
    {
        Marker { reported: Vec::new() }
    }

    /// Reports one value.
    pub fn mark(&mut self, val: Value)
        ensures
            final(self)@ == old(self)@.push(val),
    {
        self.reported.push(val);
    }

    /// Reports every value in `held`, in order: the mark hook of a struct
    /// whose interpreter values are exactly those.
    pub fn mark_all(&mut self, held: &[Value])
        ensures
            final(self)@ == old(self)@ + held@,
            exhaustive(held@, final(self)@),
    {
        let mut i: usize = 0;
        while i < held.len()
            invariant
                i <= held.len(),
                self@ == old(self)@ + held@.subrange(0, i as int),
            decreases held.len() - i,
        {
            self.reported.push(held[i]);
            i += 1;
            assert(self@ =~= old(self)@ + held@.subrange(0, i as int));
        }
        assert(held@.subrange(0, i as int) =~= held@);
        proof {
            Self::appended_is_exhaustive(old(self)@, held@);
        }
    }

    /// Whether `val` has been reported.
    pub fn reports(&self, val: Value) -> (found: bool)
        ensures
            found == self@.contains(val),
    {
        let mut i: usize = 0;
        while i < self.reported.len()
            invariant
                i <= self@.len(),
                forall|j: int| 0 <= j < i ==> self@[j] != val,
            decreases self@.len() - i,
        {
            if self.reported[i] == val {
                return true;
            }
            i += 1;
        }
        false
    }

    /// Whether every value in `held` has been reported.
    pub fn covers(&self, held: &[Value]) -> (all: bool)
        ensures
            all == exhaustive(held@, self@),
    {
        let mut i: usize = 0;
        while i < held.len()
            invariant
                i <= held.len(),
                forall|j: int| 0 <= j < i ==> self@.contains(#[trigger] held@[j]),
            decreases held.len() - i,
        {
            if !self.reports(held[i]) {
                return false;
            }
            i += 1;
        }
        true
    }

    /// Hands the reports over, in the order they were made.
    pub fn into_reported(self) -> (reported: Vec<Value>)
        ensures
            reported@ == self@,
    {
        self.reported
    }

    /// Reports are never lost: what was exhaustive stays so when more is
    /// reported.
    pub proof fn more_reports_keep_exhaustive(
        held: Seq<Value>,
        reported: Seq<Value>,
        more: Seq<Value>,
    )
        requires
            exhaustive(held, reported),
        ensures
            exhaustive(held, reported + more),
    {
        assert forall|i: int| 0 <= i < held.len() implies (reported + more).contains(
            #[trigger] held[i],
        ) by {
            let at = choose|at: int| 0 <= at < reported.len() && reported[at] == held[i];
            assert((reported + more)[at] == held[i]);
        }
    }

    /// Reporting all of `held` is exhaustive for `held`, whatever was reported
    /// before.
    pub proof fn appended_is_exhaustive(before: Seq<Value>, held: Seq<Value>)
        ensures
            exhaustive(held, before + held),
    {
        assert forall|i: int| 0 <= i < held.len() implies (before + held).contains(
            #[trigger] held[i],
        ) by {
            assert((before + held)[before.len() + i] == held[i]);
        }
    }

    /// A hook that leaves a held value out is not exhaustive: the value is
    /// then at the collector's mercy.
    pub proof fn omission_is_not_exhaustive(held: Seq<Value>, reported: Seq<Value>, at: int)
        requires
            0 <= at < held.len(),
            !reported.contains(held[at]),
        ensures
            !exhaustive(held, reported),
    {
    }
}

} // verus!
