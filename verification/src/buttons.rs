//! Button edges: the events, their effect on the report, and the bounded
//! queue that carries them from the interrupt handlers to the main loop.

use crate::gamepad_descriptor::GamepadReport;
use vstd::prelude::*;

verus! {

/// How far a direction of the joystick deflects its axis.
pub const DEFLECTION: i32 = 127;

/// Number of events that a queue holds unless it is made with another
/// capacity.
pub const QUEUE_CAPACITY: usize = 8;

/// The buttons of the board and the directions of its joystick.
#[derive(Debug, Clone, Copy, PartialEq, Eq, Structural)]
pub enum Button {
    TopLeft,
    TopMiddle,
    Down,
    Up,
    Left,
    Right,
    Click,
}

/// One edge of a button: pressed or released.
#[derive(Debug, Clone, Copy, PartialEq, Eq, Structural)]
pub struct ButtonEvent {
    pub button: Button,
    pub pressed: bool,
}

/// The fields of the report that a button can write.
#[derive(Debug, Clone, Copy, PartialEq, Eq, Structural)]
pub enum Field {
    X,
    Y,
    Buttons,
}

/// The field that a button writes, if it writes any.
pub open spec fn target(button: Button) -> Option<Field> {
    match button {
        Button::Up | Button::Down => Some(Field::Y),
        Button::Left | Button::Right => Some(Field::X),
        Button::Click => Some(Field::Buttons),
        Button::TopLeft | Button::TopMiddle => None,
    }
}

/// The value that an event writes to its field: on a press the deflection of
/// its direction, or the button bit; on a release zero.
pub open spec fn written(e: ButtonEvent) -> int {
    if !e.pressed {
        0
    } else {
        match e.button {
            Button::Up | Button::Right => DEFLECTION as int,
            Button::Down | Button::Left => -DEFLECTION,
            Button::Click => 1,
            Button::TopLeft | Button::TopMiddle => 0,
        }
    }
}

/// The value of a field of a report.
pub open spec fn field(r: GamepadReport, f: Field) -> int {
    match f {
        Field::X => r.x as int,
        Field::Y => r.y as int,
        Field::Buttons => r.buttons as int,
    }
}

/// The report after one event.
pub open spec fn apply_event(r: GamepadReport, e: ButtonEvent) -> GamepadReport {
    match target(e.button) {
        Some(Field::X) => GamepadReport { x: written(e) as i32, ..r },
        Some(Field::Y) => GamepadReport { y: written(e) as i32, ..r },
        Some(Field::Buttons) => GamepadReport { buttons: written(e) as u8, ..r },
        None => r,
    }
}

/// The report after a sequence of events, applied in the order of arrival.
pub open spec fn apply_events(r: GamepadReport, events: Seq<ButtonEvent>) -> GamepadReport
    decreases events.len(),
{
    if events.len() == 0 {
        r
    } else {
        apply_event(apply_events(r, events.drop_last()), events.last())
    }
}

/// The queue after a push that takes `e` while there is room and drops it
/// otherwise.
pub open spec fn after_push(queued: Seq<ButtonEvent>, capacity: nat, e: ButtonEvent) -> Seq<
    ButtonEvent,
> {
    if queued.len() < capacity {
        queued.push(e)
    } else {
        queued
    }
}

/// The queue after the pushes of `events`, one after the other.
pub open spec fn after_pushes(
    queued: Seq<ButtonEvent>,
    capacity: nat,
    events: Seq<ButtonEvent>,
) -> Seq<ButtonEvent>
    decreases events.len(),
{
    if events.len() == 0 {
        queued
    } else {
        after_push(after_pushes(queued, capacity, events.drop_last()), capacity, events.last())
    }
}

impl ButtonEvent {
    /// Applies the event to a report.
    pub fn apply_to(&self, report: &mut GamepadReport)
        ensures
            *final(report) == apply_event(*old(report), *self),
    {
        let value: i32 = if self.pressed {
            DEFLECTION
        } else {
            0
        };
        match self.button {
            Button::Up => {
                report.y = value;
            },
            Button::Down => {
                report.y = -value;
            },
            Button::Left => {
                report.x = -value;
            },
            Button::Right => {
                report.x = value;
            },
            Button::Click => {
                report.buttons = if self.pressed {
                    1
                } else {
                    0
                };
            },
            Button::TopLeft | Button::TopMiddle => {},
        }
    }
}

/// Applies a batch of events to a report, in the order of arrival.
pub fn apply_all(report: &mut GamepadReport, events: &[ButtonEvent])
    ensures
        *final(report) == apply_events(*old(report), events@),
{
    let mut i: usize = 0;
    while i < events.len()
        invariant
            i <= events.len(),
            *report == apply_events(*old(report), events@.take(i as int)),
        decreases events.len() - i,
    {
        assert(events@.take(i + 1).drop_last() =~= events@.take(i as int));
        events[i].apply_to(report);
        i = i + 1;
    }
    assert(events@.take(i as int) =~= events@);
}

/// A bounded first-in, first-out queue of button events. A push onto a full
/// queue drops the new event.
pub struct ButtonEventQueue {
    events: Vec<ButtonEvent>,
    capacity: usize,
}

impl View for ButtonEventQueue {
    type V = Seq<ButtonEvent>;

    /// The queued events, the oldest first.
    closed spec fn view(&self) -> Seq<ButtonEvent> {
        self.events@
    }
}

impl ButtonEventQueue {
    /// The invariant of the queue: it holds no more events than its
    /// capacity allows.
    pub closed spec fn wf(&self) -> bool {
        self.events@.len() <= self.capacity
    }

    /// The number of events that the queue can hold.
    pub closed spec fn limit(&self) -> nat {
        self.capacity as nat
    }

    /// An empty queue of the capacity `QUEUE_CAPACITY`.
    pub fn new() -> (q: Self)
        ensures
            q.wf(),
            q@ == Seq::<ButtonEvent>::empty(),
            q.limit() == QUEUE_CAPACITY,
    {
        ButtonEventQueue { events: Vec::with_capacity(QUEUE_CAPACITY), capacity: QUEUE_CAPACITY }
    }

    /// An empty queue that holds up to `capacity` events.
    pub fn with_capacity(capacity: usize) -> (q: Self)
        ensures
            q.wf(),
            q@ == Seq::<ButtonEvent>::empty(),
            q.limit() == capacity,
    {
        ButtonEventQueue { events: Vec::with_capacity(capacity), capacity }
    }

    /// The number of events that the queue can hold.
    pub fn capacity(&self) -> (n: usize)
        ensures
            n == self.limit(),
    {
        self.capacity
    }

    /// The number of queued events, which never exceeds the capacity.
    pub fn len(&self) -> (n: usize)
        requires
            self.wf(),
        ensures
            n == self@.len(),
            n <= self.limit(),
    {
        self.events.len()
    }

    /// Whether no event is queued.
    pub fn is_empty(&self) -> (b: bool)
        ensures
            b == (self@.len() == 0),
    {
        self.events.len() == 0
    }

    /// Whether the next push would drop its event.
    pub fn is_full(&self) -> (b: bool)
        ensures
            b == (self@.len() >= self.limit()),
    {
        self.events.len() >= self.capacity
    }

    /// Queues an event behind those already waiting, or drops it when the
    /// queue is full. Returns whether the event was queued.
    pub fn push(&mut self, e: ButtonEvent) -> (queued: bool)
        requires
            old(self).wf(),
        ensures
            final(self).wf(),
            final(self).limit() == old(self).limit(),
            final(self)@ == after_push(old(self)@, old(self).limit(), e),
            queued == (old(self)@.len() < old(self).limit()),
            final(self)@.len() <= final(self).limit(),
    {
        if self.events.len() < self.capacity {
            self.events.push(e);
            true
        } else {
            false
        }
    }

    /// Takes all queued events out, the oldest first, and leaves the queue
    /// empty.
    pub fn drain(&mut self) -> (events: Vec<ButtonEvent>)
        requires
            old(self).wf(),
        ensures
            final(self).wf(),
            final(self).limit() == old(self).limit(),
            events@ == old(self)@,
            final(self)@ == Seq::<ButtonEvent>::empty(),
            events@.len() <= old(self).limit(),
    {
        let mut events: Vec<ButtonEvent> = Vec::new();
        let mut i: usize = 0;
        while i < self.events.len()
            invariant
                i <= self.events@.len(),
                self.events@ == old(self).events@,
                self.capacity == old(self).capacity,
                events@ == self.events@.take(i as int),
            decreases self.events@.len() - i,
        {
            events.push(self.events[i]);
            assert(self.events@.take(i + 1) =~= self.events@.take(i as int).push(self.events@[i as int]));
            i = i + 1;
        }
        assert(self.events@.take(i as int) =~= self.events@);
        self.events.clear();
        events
    }
}

/// Among the events of one batch, the last one that writes a field decides
/// the value of the field.
pub proof fn lemma_last_write_wins(r: GamepadReport, events: Seq<ButtonEvent>, i: int, f: Field)
    requires
        0 <= i < events.len(),
        target(events[i].button) == Some(f),
        forall|j: int| i < j < events.len() ==> target(#[trigger] events[j].button) != Some(f),
    ensures
        field(apply_events(r, events), f) == written(events[i]),
    decreases events.len(),
{
    if i < events.len() - 1 {
        let front = events.drop_last();
        assert(forall|j: int| i < j < front.len() ==> front[j] == events[j]);
        lemma_last_write_wins(r, front, i, f);
    }
}

/// A field that no event of a batch writes keeps its value.
pub proof fn lemma_unwritten_field_stays(r: GamepadReport, events: Seq<ButtonEvent>, f: Field)
    requires
        forall|j: int| 0 <= j < events.len() ==> target(#[trigger] events[j].button) != Some(f),
    ensures
        field(apply_events(r, events), f) == field(r, f),
    decreases events.len(),
{
    if events.len() > 0 {
        let front = events.drop_last();
        assert(forall|j: int| 0 <= j < front.len() ==> front[j] == events[j]);
        lemma_unwritten_field_stays(r, front, f);
    }
}

/// No button event writes the z axis.
pub proof fn lemma_events_keep_z(r: GamepadReport, events: Seq<ButtonEvent>)
    ensures
        apply_events(r, events).z == r.z,
    decreases events.len(),
{
    if events.len() > 0 {
        lemma_events_keep_z(r, events.drop_last());
    }
}

/// Pushing a run of events onto an empty queue keeps the first of them, as
/// many as the capacity allows, and drops the rest.
pub proof fn lemma_pushes_keep_first(capacity: nat, events: Seq<ButtonEvent>)
    ensures
        after_pushes(Seq::empty(), capacity, events) == events.take(
            if events.len() <= capacity {
                events.len() as int
            } else {
                capacity as int
            },
        ),
    decreases events.len(),
{
    if events.len() > 0 {
        let front = events.drop_last();
        lemma_pushes_keep_first(capacity, front);
        if events.len() <= capacity {
            assert(front.take(front.len() as int).push(events.last()) =~= events.take(
                events.len() as int,
            ));
        } else {
            assert(front.take(capacity as int) =~= events.take(capacity as int));
        }
    } else {
        assert(events.take(0) =~= Seq::<ButtonEvent>::empty());
    }
}

/// However many events are pushed, the queue never holds more than its
/// capacity allows, provided it did not before.
pub proof fn lemma_pushes_stay_bounded(
    queued: Seq<ButtonEvent>,
    capacity: nat,
    events: Seq<ButtonEvent>,
)
    requires
        queued.len() <= capacity,
    ensures
        after_pushes(queued, capacity, events).len() <= capacity,
    decreases events.len(),
{
    if events.len() > 0 {
        lemma_pushes_stay_bounded(queued, capacity, events.drop_last());
    }
}

} // verus!
