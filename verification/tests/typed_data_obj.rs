use magnus::{CollectorEvent, Hook, Marker, SlotState, Value};

struct Point {
    x: isize,
    y: isize,
}

/// A native struct that holds two other native objects by their values.
struct Line {
    start: Value,
    end: Value,
}

impl Line {
    fn held(&self) -> [Value; 2] {
        [self.start, self.end]
    }

    /// The complete mark hook: reports both ends.
    fn mark(&self, marker: &mut Marker) {
        marker.mark_all(&self.held());
    }

    /// A broken mark hook: forgets the end point.
    fn mark_start_only(&self, marker: &mut Marker) {
        marker.mark(self.start);
    }
}

/// A toy heap: each slot has a value, a state and a point stored in it.
struct Heap {
    slots: Vec<(Value, SlotState, Point)>,
}

impl Heap {
    fn register(&mut self, raw: usize, point: Point) -> Value {
        let val = Value::new(raw).unwrap();
        let (state, hook) = SlotState::Unregistered.step(CollectorEvent::Allocate).unwrap();
        assert_eq!(hook, None);
        self.slots.push((val, state, point));
        val
    }

    /// One collection with `line` as the only root, traced by `hook`.
    fn collect(&mut self, line: &Line, hook: fn(&Line, &mut Marker)) {
        let mut marker = Marker::new();
        hook(line, &mut marker);
        for slot in self.slots.iter_mut() {
            let event = if marker.reports(slot.0) {
                CollectorEvent::Trace
            } else {
                CollectorEvent::Reclaim
            };
            slot.1 = slot.1.step(event).unwrap().0;
        }
    }

    fn get(&self, val: Value) -> Option<&Point> {
        self.slots
            .iter()
            .find(|slot| slot.0 == val && slot.1 != SlotState::Finalized)
            .map(|slot| &slot.2)
    }
}

fn length(heap: &Heap, line: &Line) -> Option<f64> {
    let start = heap.get(line.start)?;
    let end = heap.get(line.end)?;
    Some((((end.x - start.x).pow(2) + (end.y - start.y).pow(2)) as f64).sqrt())
}

#[test]
fn it_can_nest_wrapped_structs() {
    let mut heap = Heap { slots: Vec::new() };
    let start = heap.register(0x1000, Point { x: 0, y: 0 });
    let finish = heap.register(0x1040, Point { x: 10, y: 10 });
    let line = Line { start, end: finish };

    heap.collect(&line, Line::mark);
    heap.collect(&line, Line::mark);

    let result = length(&heap, &line).unwrap();
    assert!(result - 14.14213 < 0.00001);
    assert!(result > 14.14213);
    assert_eq!(heap.get(finish).unwrap().x, 10);
    assert_eq!(heap.get(finish).unwrap().y, 10);
}

#[test]
fn incomplete_mark_hook_loses_the_inner_object() {
    let mut heap = Heap { slots: Vec::new() };
    let start = heap.register(0x1000, Point { x: 0, y: 0 });
    let finish = heap.register(0x1040, Point { x: 10, y: 10 });
    let line = Line { start, end: finish };

    heap.collect(&line, Line::mark_start_only);

    assert!(heap.get(start).is_some());
    assert!(heap.get(finish).is_none());
    assert!(length(&heap, &line).is_none());
}

#[test]
fn complete_hook_covers_what_is_held() {
    let line = Line {
        start: Value::new(8).unwrap(),
        end: Value::new(16).unwrap(),
    };
    let mut marker = Marker::new();
    line.mark(&mut marker);
    assert!(marker.covers(&line.held()));
    assert!(marker.reports(line.start));
    assert!(marker.reports(line.end));
    assert_eq!(marker.into_reported(), vec![line.start, line.end]);
}

#[test]
fn incomplete_hook_is_detected() {
    let line = Line {
        start: Value::new(8).unwrap(),
        end: Value::new(16).unwrap(),
    };
    let mut marker = Marker::new();
    line.mark_start_only(&mut marker);
    assert!(!marker.covers(&line.held()));
    assert!(marker.reports(line.start));
    assert!(!marker.reports(line.end));
}

#[test]
fn marker_keeps_reports_in_order() {
    let a = Value::new(1).unwrap();
    let b = Value::new(2).unwrap();
    let c = Value::new(3).unwrap();
    let mut marker = Marker::new();
    assert!(marker.covers(&[]));
    assert!(!marker.reports(a));
    marker.mark(b);
    marker.mark_all(&[a, c]);
    marker.mark(b);
    assert!(marker.covers(&[c, b, a]));
    assert_eq!(marker.into_reported(), vec![b, a, c, b]);
}

#[test]
fn slot_goes_through_its_life_in_order() {
    let state = SlotState::Unregistered;
    let (state, hook) = state.step(CollectorEvent::Allocate).unwrap();
    assert_eq!((state, hook), (SlotState::Registered, None));
    let (state, hook) = state.step(CollectorEvent::Trace).unwrap();
    assert_eq!((state, hook), (SlotState::Marked, Some(Hook::Mark)));
    let (state, hook) = state.step(CollectorEvent::Trace).unwrap();
    assert_eq!((state, hook), (SlotState::Marked, Some(Hook::Mark)));
    let (state, hook) = state.step(CollectorEvent::Reclaim).unwrap();
    assert_eq!((state, hook), (SlotState::Finalized, Some(Hook::Free)));
}

#[test]
fn slot_may_be_reclaimed_without_a_trace() {
    assert_eq!(
        SlotState::Registered.step(CollectorEvent::Reclaim),
        Some((SlotState::Finalized, Some(Hook::Free)))
    );
}

#[test]
fn finalized_slot_accepts_nothing() {
    for event in [
        CollectorEvent::Allocate,
        CollectorEvent::Trace,
        CollectorEvent::Reclaim,
    ] {
        assert_eq!(SlotState::Finalized.step(event), None);
    }
}

#[test]
fn unregistered_slot_is_neither_traced_nor_reclaimed() {
    assert_eq!(SlotState::Unregistered.step(CollectorEvent::Trace), None);
    assert_eq!(SlotState::Unregistered.step(CollectorEvent::Reclaim), None);
}

#[test]
fn slot_is_registered_once() {
    assert_eq!(SlotState::Registered.step(CollectorEvent::Allocate), None);
    assert_eq!(SlotState::Marked.step(CollectorEvent::Allocate), None);
}

#[test]
fn free_hook_runs_once_over_a_whole_life() {
    let events = [
        CollectorEvent::Allocate,
        CollectorEvent::Trace,
        CollectorEvent::Trace,
        CollectorEvent::Trace,
        CollectorEvent::Reclaim,
        CollectorEvent::Reclaim,
        CollectorEvent::Trace,
    ];
    let mut state = SlotState::Unregistered;
    let mut marks = 0;
    let mut frees = 0;
    for event in events {
        if let Some((next, hook)) = state.step(event) {
            state = next;
            match hook {
                Some(Hook::Mark) => marks += 1,
                Some(Hook::Free) => frees += 1,
                None => {}
            }
        }
    }
    assert_eq!(state, SlotState::Finalized);
    assert_eq!(marks, 3);
    assert_eq!(frees, 1);
}
