//! Per-frame input state.
//!
//! `State` is the snapshot the compute pass reads each frame: elapsed time,
//! window size, normalized pointer position and primary-button state, and
//! the frame index. The window layer polls events, turns them into plain
//! `Event` values, and hands them to `process_events`; it performs the side
//! effects (viewport resize, window close) that the returned outcome asks
//! for.
use vstd::prelude::*;

verus! {

/// One input event, in arrival order.
#[derive(Clone, Copy, PartialEq, Eq, Structural, Debug)]
pub enum Event {
    /// The framebuffer was resized to `width` by `height` pixels.
    Resize { width: i32, height: i32 },
    /// The window was asked to close.
    CloseRequested,
    /// The escape key was pressed.
    EscapePressed,
    /// The cursor moved to the given raw pixel position.
    CursorMoved { x: i32, y: i32 },
    /// The primary mouse button's live state was observed.
    PrimaryButton { pressed: bool },
    /// Any other event; it changes nothing.
    Other,
}

/// The pointer position normalized to the unit square with the vertical
/// axis flipped, held exactly as two fractions: `x_num / x_den` across and
/// `y_num / y_den` up from the bottom edge.
#[derive(Clone, Copy, PartialEq, Eq, Structural, Debug)]
pub struct PointerPos {
    pub x_num: i64,
    pub x_den: i64,
    pub y_num: i64,
    pub y_den: i64,
}

/// The normalized pointer position for raw cursor position `(x, y)` in a
/// window of `width` by `height` pixels: `(x / width, 1 - y / height)`, the
/// flip written as `(height - y) / height`.
pub open spec fn normalized(x: i32, y: i32, width: i32, height: i32) -> PointerPos {
    PointerPos {
        x_num: x as i64,
        x_den: width as i64,
        y_num: (height - y) as i64,
        y_den: height as i64,
    }
}

/// Computes the normalized pointer position with the vertical axis flipped,
/// so that the window's bottom-left corner maps to `(0, 0)`.
pub fn normalize_pointer(x: i32, y: i32, width: i32, height: i32) -> (r: PointerPos)
    requires
        width > 0,
        height > 0,
    ensures
        r == normalized(x, y, width, height),
{
    PointerPos {
        x_num: x as i64,
        x_den: width as i64,
        y_num: height as i64 - y as i64,
        y_den: height as i64,
    }
}

/// The per-frame snapshot of the session's input-driven state.
#[derive(Clone, Copy, PartialEq, Eq, Structural, Debug)]
pub struct State {
    /// Completed loop iterations so far.
    pub frame_index: u64,
    /// Elapsed milliseconds since the session's start.
    pub time_ms: u64,
    /// Window width in pixels.
    pub width: i32,
    /// Window height in pixels.
    pub height: i32,
    /// Normalized pointer position, bottom-left origin.
    pub pointer: PointerPos,
    /// Whether the primary mouse button is pressed.
    pub pointer_pressed: bool,
}

/// What one event does to the state. A cursor move is normalized against
/// the window size current at that event; while a dimension is not positive
/// no normalization exists, and the pointer stays as it was. Close-shaped
/// events change no field here: they are answered by the loop's phase.
pub open spec fn apply_event(s: State, e: Event) -> State {
    match e {
        Event::Resize { width, height } => State { width, height, ..s },
        Event::CursorMoved { x, y } => {
            if s.width > 0 && s.height > 0 {
                State { pointer: normalized(x, y, s.width, s.height), ..s }
            } else {
                s
            }
        },
        Event::PrimaryButton { pressed } => State { pointer_pressed: pressed, ..s },
        Event::CloseRequested => s,
        Event::EscapePressed => s,
        Event::Other => s,
    }
}

/// The state after a batch of events, applied in arrival order.
pub open spec fn apply_events(s: State, events: Seq<Event>) -> State
    decreases events.len(),
{
    if events.len() == 0 {
        s
    } else {
        apply_event(apply_events(s, events.drop_last()), events.last())
    }
}

/// Events change only what they describe: no event batch moves the frame
/// index or the elapsed time.
pub proof fn lemma_apply_events_keeps_counters(s: State, events: Seq<Event>)
    ensures
        apply_events(s, events).frame_index == s.frame_index,
        apply_events(s, events).time_ms == s.time_ms,
    decreases events.len(),
{
    if events.len() > 0 {
        lemma_apply_events_keeps_counters(s, events.drop_last());
    }
}

/// Whether an event schedules loop termination.
pub open spec fn is_close_event(e: Event) -> bool {
    e == Event::CloseRequested || e == Event::EscapePressed
}

/// Whether any event of the batch schedules loop termination.
pub open spec fn any_close(events: Seq<Event>) -> bool {
    exists|i: int| 0 <= i < events.len() && is_close_event(events[i])
}

/// Extending a batch's prefix by one event sees a close exactly when the
/// shorter prefix did or the new event is one.
proof fn lemma_any_close_take_step(s: Seq<Event>, i: int)
    requires
        0 <= i < s.len(),
    ensures
        any_close(s.take(i + 1)) == (any_close(s.take(i)) || is_close_event(s[i])),
{
    let t0 = s.take(i);
    let t1 = s.take(i + 1);
    if any_close(t0) {
        let j = choose|j: int| 0 <= j < t0.len() && is_close_event(t0[j]);
        assert(is_close_event(t1[j]));
    }
    if is_close_event(s[i]) {
        assert(is_close_event(t1[i]));
    }
    if any_close(t1) && !is_close_event(s[i]) {
        let j = choose|j: int| 0 <= j < t1.len() && is_close_event(t1[j]);
        assert(j < i);
        assert(is_close_event(t0[j]));
    }
}

/// The dimensions of the last resize event of the batch, if any.
pub open spec fn last_resize(events: Seq<Event>) -> Option<(i32, i32)>
    decreases events.len(),
{
    if events.len() == 0 {
        None
    } else {
        match events.last() {
            Event::Resize { width, height } => Some((width, height)),
            _ => last_resize(events.drop_last()),
        }
    }
}

/// What the caller must do after a batch of events: resize the viewport to
/// the last resize's dimensions, and begin closing if asked to.
#[derive(Clone, Copy, Debug)]
pub struct UpdateOutcome {
    /// A close request or escape press was seen.
    pub close_requested: bool,
    /// The dimensions of the last resize event, if any arrived.
    pub viewport: Option<(i32, i32)>,
}

impl State {
    /// The initial snapshot: frame index and elapsed time start at zero, the
    /// rest is read off the freshly created window.
    pub fn new(width: i32, height: i32, cursor_x: i32, cursor_y: i32, pressed: bool) -> (s: State)
        ensures
            s.frame_index == 0,
            s.time_ms == 0,
            s.width == width,
            s.height == height,
            s.pointer == (if width > 0 && height > 0 {
                normalized(cursor_x, cursor_y, width, height)
            } else {
                PointerPos { x_num: 0, x_den: 1, y_num: 0, y_den: 1 }
            }),
            s.pointer_pressed == pressed,
    {
        let pointer = if width > 0 && height > 0 {
            normalize_pointer(cursor_x, cursor_y, width, height)
        } else {
            PointerPos { x_num: 0, x_den: 1, y_num: 0, y_den: 1 }
        };
        State { frame_index: 0, time_ms: 0, width, height, pointer, pointer_pressed: pressed }
    }

    /// Applies a batch of polled events in arrival order and reports the
    /// side effects the caller owes: the viewport to set and whether the
    /// loop must begin closing.
    pub fn process_events(&mut self, events: &Vec<Event>) -> (r: UpdateOutcome)
        ensures
            *final(self) == apply_events(*old(self), events@),
            r.close_requested == any_close(events@),
            r.viewport == last_resize(events@),
    {
        let mut close = false;
        let mut viewport: Option<(i32, i32)> = None;
        let mut i: usize = 0;
        while i < events.len()
            invariant
                i <= events@.len(),
                *self == apply_events(*old(self), events@.take(i as int)),
                close == any_close(events@.take(i as int)),
                viewport == last_resize(events@.take(i as int)),
            decreases events@.len() - i,
        {
            let e = events[i];
            match e {
                Event::Resize { width, height } => {
                    self.width = width;
                    self.height = height;
                    viewport = Some((width, height));
                },
                Event::CloseRequested => {
                    close = true;
                },
                Event::EscapePressed => {
                    close = true;
                },
                Event::CursorMoved { x, y } => {
                    if self.width > 0 && self.height > 0 {
                        self.pointer = normalize_pointer(x, y, self.width, self.height);
                    }
                },
                Event::PrimaryButton { pressed } => {
                    self.pointer_pressed = pressed;
                },
                Event::Other => {},
            }
            proof {
                assert(events@.take(i + 1).drop_last() =~= events@.take(i as int));
                assert(events@.take(i + 1).last() == events@[i as int]);
                lemma_any_close_take_step(events@, i as int);
            }
            i = i + 1;
        }
        proof {
            assert(events@.take(events@.len() as int) =~= events@);
        }
        UpdateOutcome { close_requested: close, viewport }
    }

    /// Recomputes elapsed time from the monotonic clock's reading.
    pub fn update_time(&mut self, now_ms: u64)
        ensures
            *final(self) == (State { time_ms: now_ms, ..*old(self) }),
    {
        self.time_ms = now_ms;
    }
}

} // verus!
