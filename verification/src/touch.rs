//! Touch handling for the bottom panel: turning the touchscreen's raw evdev
//! events into touch down / move / up reports, and gating pointer events for
//! the UI on whether a touch is in progress.
use vstd::prelude::*;

verus! {

/// Linux input event types and codes the touch reader looks at.
pub const EV_SYN: u16 = 0;
pub const EV_KEY: u16 = 1;
pub const EV_ABS: u16 = 3;
pub const ABS_X: u16 = 0;
pub const ABS_Y: u16 = 1;
pub const BTN_TOUCH: u16 = 0x14a;

/// A touch report in raw panel coordinates (portrait axes).
#[derive(Debug, Clone, Copy, PartialEq, Eq)]
pub enum RawTouch {
    Down { x: i32, y: i32 },
    Move { x: i32, y: i32 },
    Up,
}

/// What the touch reader remembers between events: the last reported
/// coordinates and whether a finger is on the panel.
#[derive(Debug, Clone, Copy, PartialEq, Eq)]
pub struct TouchTracker {
    pub cur_x: i32,
    pub cur_y: i32,
    pub is_down: bool,
}

/// One step of the touch reader on an evdev event (type, code, value): the
/// new tracker state and the report it sends, if any.
///
/// Absolute X/Y events update the position; `BTN_TOUCH` reports a touch down
/// (value 1) or up (any other value) at the current position; a
/// synchronization report while the finger is down reports a move.
pub open spec fn touch_step(t: TouchTracker, ev_type: u16, code: u16, value: i32) -> (
    TouchTracker,
    Option<RawTouch>,
) {
    if ev_type == EV_ABS {
        if code == ABS_X {
            (TouchTracker { cur_x: value, ..t }, None)
        } else if code == ABS_Y {
            (TouchTracker { cur_y: value, ..t }, None)
        } else {
            (t, None)
        }
    } else if ev_type == EV_KEY {
        if code == BTN_TOUCH {
            if value == 1 {
                (
                    TouchTracker { is_down: true, ..t },
                    Some(RawTouch::Down { x: t.cur_x, y: t.cur_y }),
                )
            } else {
                (TouchTracker { is_down: false, ..t }, Some(RawTouch::Up))
            }
        } else {
            (t, None)
        }
    } else if ev_type == EV_SYN {
        if t.is_down {
            (t, Some(RawTouch::Move { x: t.cur_x, y: t.cur_y }))
        } else {
            (t, None)
        }
    } else {
        (t, None)
    }
}

impl TouchTracker {
    pub fn new() -> (t: TouchTracker)
        ensures
            t == (TouchTracker { cur_x: 0, cur_y: 0, is_down: false }),
    {
        TouchTracker { cur_x: 0, cur_y: 0, is_down: false }
    }

    /// Feed one evdev event to the tracker.
    pub fn on_event(&mut self, ev_type: u16, code: u16, value: i32) -> (r: Option<RawTouch>)
        ensures
            (*final(self), r) == touch_step(*old(self), ev_type, code, value),
    {
        if ev_type == EV_ABS {
            if code == ABS_X {
                self.cur_x = value;
            } else if code == ABS_Y {
                self.cur_y = value;
            }
            None
        } else if ev_type == EV_KEY {
            if code == BTN_TOUCH {
                if value == 1 {
                    self.is_down = true;
                    Some(RawTouch::Down { x: self.cur_x, y: self.cur_y })
                } else {
                    self.is_down = false;
                    Some(RawTouch::Up)
                }
            } else {
                None
            }
        } else if ev_type == EV_SYN {
            if self.is_down {
                Some(RawTouch::Move { x: self.cur_x, y: self.cur_y })
            } else {
                None
            }
        } else {
            None
        }
    }
}

/// An evdev event as (type, code, value).
pub type RawEvent = (u16, u16, i32);

/// The tracker state after feeding `events` in order.
pub open spec fn track_all(t: TouchTracker, events: Seq<RawEvent>) -> TouchTracker
    decreases events.len(),
{
    if events.len() == 0 {
        t
    } else {
        let prev = track_all(t, events.drop_last());
        let ev = events.last();
        touch_step(prev, ev.0, ev.1, ev.2).0
    }
}

/// Whether event `ev` is a touch press or release (a `BTN_TOUCH` key event).
pub open spec fn is_touch_button(ev: RawEvent) -> bool {
    ev.0 == EV_KEY && ev.1 == BTN_TOUCH
}

/// The finger is down exactly when the latest touch button event in the
/// stream was a press (or, with no such event yet, when it was down at the
/// start).
pub open spec fn down_after(start_down: bool, events: Seq<RawEvent>) -> bool
    decreases events.len(),
{
    if events.len() == 0 {
        start_down
    } else if is_touch_button(events.last()) {
        events.last().2 == 1
    } else {
        down_after(start_down, events.drop_last())
    }
}

/// The position the tracker holds is the value of the latest absolute X
/// (resp. Y) event of the stream, or the starting one without such an event.
pub open spec fn last_abs(start: i32, axis: u16, events: Seq<RawEvent>) -> i32
    decreases events.len(),
{
    if events.len() == 0 {
        start
    } else if events.last().0 == EV_ABS && events.last().1 == axis {
        events.last().2
    } else {
        last_abs(start, axis, events.drop_last())
    }
}

/// Whatever events arrive, the tracker is down exactly when the latest touch
/// button event was a press, and holds the latest absolute X and Y values.
pub proof fn lemma_tracker_follows_stream(t: TouchTracker, events: Seq<RawEvent>)
    ensures
        track_all(t, events).is_down == down_after(t.is_down, events),
        track_all(t, events).cur_x == last_abs(t.cur_x, ABS_X, events),
        track_all(t, events).cur_y == last_abs(t.cur_y, ABS_Y, events),
    decreases events.len(),
{
    if events.len() > 0 {
        lemma_tracker_follows_stream(t, events.drop_last());
    }
}

/// A move is only ever reported while the finger is down, and at the
/// tracked position.
pub proof fn lemma_moves_only_while_down(t: TouchTracker, ev_type: u16, code: u16, value: i32)
    ensures
        touch_step(t, ev_type, code, value).1 matches Some(RawTouch::Move { x, y }) ==> t.is_down
            && x == t.cur_x && y == t.cur_y,
{
}

/// Phase of a touch report seen by the render loop.
#[derive(Debug, Clone, Copy, PartialEq, Eq)]
pub enum TouchPhase {
    Down,
    Move,
    Up,
}

/// Pointer event the render loop dispatches to the UI for a touch report.
#[derive(Debug, Clone, Copy, PartialEq, Eq)]
pub enum PointerAction {
    /// Left button pressed at the touch position.
    Press,
    /// Pointer moved to the touch position.
    MoveTo,
    /// Left button released (reported at the origin).
    Release,
    /// Nothing is dispatched.
    Ignore,
}

/// Whether the UI pointer is pressed: moves are only forwarded between a
/// press and the following release.
#[derive(Debug, Clone, Copy, PartialEq, Eq)]
pub struct PointerGate {
    pub pressed: bool,
}

impl PointerGate {
    pub fn new() -> (g: PointerGate)
        ensures
            !g.pressed,
    {
        PointerGate { pressed: false }
    }

    pub fn on_touch(&mut self, phase: TouchPhase) -> (a: PointerAction)
        ensures
            match phase {
                TouchPhase::Down => final(self).pressed && a == PointerAction::Press,
                TouchPhase::Move => final(self).pressed == old(self).pressed && a == (if old(
                    self,
                ).pressed {
                    PointerAction::MoveTo
                } else {
                    PointerAction::Ignore
                }),
                TouchPhase::Up => !final(self).pressed && a == PointerAction::Release,
            },
    {
        match phase {
            TouchPhase::Down => {
                self.pressed = true;
                PointerAction::Press
            },
            TouchPhase::Move => {
                if self.pressed {
                    PointerAction::MoveTo
                } else {
                    PointerAction::Ignore
                }
            },
            TouchPhase::Up => {
                self.pressed = false;
                PointerAction::Release
            },
        }
    }
}

} // verus!
