//! The decisions of the two intercepts: what to do with one presentation
//! call of the host, and what to do with one message to its window.

use crate::platform::Surface;
use crate::session::{is_init, on_event, Overlay};
use crate::translate::{is_keyboard_class, is_pointer_class, translatable, Live};
use vstd::prelude::*;

verus! {

/// What the window procedure returns for a message that the overlay
/// consumed.
pub const HANDLED: isize = 1;

/// What the frame hook does before it calls the host's own presentation
/// function, which it calls in every case, with the same target, and whose
/// result it returns unchanged.
#[derive(Clone, Copy, Debug, PartialEq, Eq, Structural)]
pub enum Presentation {
    /// Nothing: the target is no surface.
    PassThrough,
    /// Announce the target to whoever waits for the first one, initialize the
    /// session for it, then paint.
    InitThenPaint,
    /// Paint.
    Paint,
}

/// What the window-procedure shim does with a message.
#[derive(Clone, Copy, Debug, PartialEq, Eq, Structural)]
pub enum Disposition {
    /// Return this value and keep the message from the host's procedure.
    Handled(isize),
    /// Call the host's procedure with the message as it came and return its
    /// result.
    Forward,
}

/// What the frame hook does for a call with `target`, given whether the
/// session exists.
pub open spec fn presentation_of(target: Surface, init: bool) -> Presentation {
    if target.null() {
        Presentation::PassThrough
    } else if init {
        Presentation::Paint
    } else {
        Presentation::InitThenPaint
    }
}

/// What the shim does with a message, given whether the session exists and
/// whether it consumed the message.
pub open spec fn disposition_of(init: bool, stop: bool) -> Disposition {
    if init && stop {
        Disposition::Handled(HANDLED)
    } else {
        Disposition::Forward
    }
}

/// Decides what the frame hook does for one presentation call.
pub fn on_present(state: &Overlay, target: Surface) -> (plan: Presentation)
    ensures
        plan == presentation_of(target, state@.is_init()),
{
    if target.is_null() {
        Presentation::PassThrough
    } else if is_init(state) {
        Presentation::Paint
    } else {
        Presentation::InitThenPaint
    }
}

/// Decides what the shim does once the session has seen a message, if there
/// is a session.
pub fn dispose(init: bool, stop: bool) -> (disposition: Disposition)
    ensures
        disposition == disposition_of(init, stop),
{
    if init && stop {
        Disposition::Handled(HANDLED)
    } else {
        Disposition::Forward
    }
}

/// Handles one message to the hooked window: lets the session see it, if
/// there is one, and decides whether the host's procedure still gets it.
///
/// Without a session the message is forwarded untouched. With one, its
/// events are queued, and it is kept from the host exactly if the session
/// reports it as consumed, which it never does for a message of neither
/// class.
pub fn on_message(state: &mut Overlay, umsg: u32, wparam: usize, lparam: isize, live: Live) -> (disposition:
    Disposition)
    requires
        old(state)@.is_init() ==> translatable(umsg, wparam),
    ensures
        final(state)@ == old(state)@.after_message(umsg, wparam, lparam, live@),
        disposition == Disposition::Handled(HANDLED) || disposition == Disposition::Forward,
        !old(state)@.is_init() ==> disposition == Disposition::Forward,
        !is_pointer_class(umsg) && !is_keyboard_class(umsg) ==> disposition
            == Disposition::Forward,
{
    if is_init(state) {
        match on_event(state, umsg, wparam, lparam, live) {
            Ok(stop) => dispose(true, stop),
            Err(_) => Disposition::Forward,
        }
    } else {
        Disposition::Forward
    }
}

} // verus!
