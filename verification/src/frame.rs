//! The input snapshot that one UI frame is run on.

use crate::event::{views, Event, EventView, Fraction, Modifiers};
use vstd::prelude::*;

verus! {

/// Ticks of the system clock per second: one tick is 100 nanoseconds.
pub const TICKS_PER_SECOND: i64 = 10_000_000;

/// Frames per second that the frame time is predicted from.
pub const PREDICTED_FRAME_RATE: i32 = 60;

/// Everything that one UI frame takes as input.
#[derive(Debug)]
pub struct FrameInput {
    /// The modifiers held, as far as known.
    pub modifiers: Modifiers,
    /// The events since the frame before, oldest first.
    pub events: Vec<Event>,
    /// Width of the screen rectangle, whose corner is the origin, in pixels.
    pub screen_width: u32,
    /// Height of the screen rectangle in pixels.
    pub screen_height: u32,
    /// The system time in ticks, [`TICKS_PER_SECOND`] to the second.
    pub time_ticks: i64,
    /// The largest texture side allowed, if there is a limit.
    pub max_texture_side: Option<usize>,
    /// The predicted duration of the frame, in seconds.
    pub predicted_dt: Fraction,
    /// Paths of the files hovering over the window.
    pub hovered_files: Vec<String>,
    /// Paths of the files dropped on the window.
    pub dropped_files: Vec<String>,
    /// Whether the window has the input focus.
    pub focused: bool,
}

/// What a [`FrameInput`] is, with the events by their views.
pub struct FrameInputView {
    pub modifiers: Modifiers,
    pub events: Seq<EventView>,
    pub screen_width: u32,
    pub screen_height: u32,
    pub time_ticks: i64,
    pub max_texture_side: Option<usize>,
    pub predicted_dt: Fraction,
    pub hovered_files: Seq<String>,
    pub dropped_files: Seq<String>,
    pub focused: bool,
}

impl View for FrameInput {
    type V = FrameInputView;

    open spec fn view(&self) -> FrameInputView {
        FrameInputView {
            modifiers: self.modifiers,
            events: views(self.events@),
            screen_width: self.screen_width,
            screen_height: self.screen_height,
            time_ticks: self.time_ticks,
            max_texture_side: self.max_texture_side,
            predicted_dt: self.predicted_dt,
            hovered_files: self.hovered_files@,
            dropped_files: self.dropped_files@,
            focused: self.focused,
        }
    }
}

/// The snapshot for a frame: the last-known modifiers, or none held where
/// none are known; all pending events; the screen from the origin to the
/// window's size; the time as read; no limit on textures; a frame time of one
/// sixtieth of a second; no files hovering or dropped; and the focus, always.
pub open spec fn snapshot(
    last: Option<Modifiers>,
    pending: Seq<EventView>,
    width: u32,
    height: u32,
    ticks: i64,
) -> FrameInputView {
    FrameInputView {
        modifiers: match last {
            Some(modifiers) => modifiers,
            None => Modifiers::none(),
        },
        events: pending,
        screen_width: width,
        screen_height: height,
        time_ticks: ticks,
        max_texture_side: None,
        predicted_dt: Fraction { num: 1, den: PREDICTED_FRAME_RATE },
        hovered_files: Seq::empty(),
        dropped_files: Seq::empty(),
        focused: true,
    }
}

/// Builds the snapshot for a frame and moves every pending event into it,
/// which leaves the queue empty.
pub fn get_raw_input(
    queue: &mut Vec<Event>,
    last: Option<Modifiers>,
    width: u32,
    height: u32,
    ticks: i64,
) -> (input: FrameInput)
    ensures
        input@ == snapshot(last, views(old(queue)@), width, height, ticks),
        final(queue)@ == Seq::<Event>::empty(),
{
    let mut events: Vec<Event> = Vec::new();
    core::mem::swap(queue, &mut events);
    let input = FrameInput {
        modifiers: match last {
            Some(modifiers) => modifiers,
            None => Modifiers::default(),
        },
        events,
        screen_width: width,
        screen_height: height,
        time_ticks: ticks,
        max_texture_side: None,
        predicted_dt: Fraction { num: 1, den: PREDICTED_FRAME_RATE },
        hovered_files: Vec::new(),
        dropped_files: Vec::new(),
        focused: true,
    };
    assert(input@.hovered_files =~= Seq::<String>::empty());
    assert(input@.dropped_files =~= Seq::<String>::empty());
    input
}

} // verus!
