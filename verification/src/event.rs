//! Structured input events, in exact integer form.
//!
//! Positions are whole pixels and every scaled quantity is a [`Fraction`], so
//! that an event says exactly what the message held. Whoever feeds a UI
//! toolkit converts at the last moment.

use crate::key::Key;
use vstd::prelude::*;

verus! {

/// The keyboard modifiers that were held when an event happened.
#[derive(Clone, Copy, Debug, PartialEq, Eq, Structural)]
pub struct Modifiers {
    pub alt: bool,
    pub ctrl: bool,
    pub shift: bool,
    /// The command key of a Mac; never set by this library.
    pub mac_cmd: bool,
    /// The platform's shortcut modifier; here always equal to `ctrl`.
    pub command: bool,
}

impl Modifiers {
    /// No modifier held.
    pub open spec fn none() -> Modifiers {
        Modifiers { alt: false, ctrl: false, shift: false, mac_cmd: false, command: false }
    }
}

impl Default for Modifiers {
    fn default() -> (modifiers: Modifiers)
        ensures
            modifiers == Modifiers::none(),
    {
        Modifiers { alt: false, ctrl: false, shift: false, mac_cmd: false, command: false }
    }
}

/// A logical pointer button.
#[derive(Clone, Copy, Debug, PartialEq, Eq, Structural)]
pub enum PointerButton {
    Primary,
    Secondary,
    Middle,
    Extra1,
    Extra2,
}

/// A pointer position in client-area pixels.
#[derive(Clone, Copy, Debug, PartialEq, Eq, Structural)]
pub struct Pos {
    pub x: i16,
    pub y: i16,
}

/// The rational number `num / den`.
#[derive(Clone, Copy, Debug, PartialEq, Eq, Structural)]
pub struct Fraction {
    pub num: i32,
    pub den: i32,
}

/// One structured input event.
#[derive(Debug, PartialEq, Eq)]
pub enum Event {
    /// The pointer moved to a position.
    PointerMoved(Pos),
    /// A pointer button went down or up.
    PointerButton { pos: Pos, button: PointerButton, pressed: bool, modifiers: Modifiers },
    /// Text was entered or pasted.
    Text(String),
    /// The wheel scrolled by this many points along each axis.
    Scroll { x: Fraction, y: Fraction },
    /// The wheel asked to zoom by this factor.
    Zoom(Fraction),
    /// The copy shortcut was pressed.
    Copy,
    /// The cut shortcut was pressed.
    Cut,
    /// A key went down or up.
    Key { key: Key, physical_key: Option<Key>, pressed: bool, repeat: bool, modifiers: Modifiers },
}

/// What an [`Event`] is, with text as a sequence of characters.
pub enum EventView {
    PointerMoved(Pos),
    PointerButton { pos: Pos, button: PointerButton, pressed: bool, modifiers: Modifiers },
    Text(Seq<char>),
    Scroll { x: Fraction, y: Fraction },
    Zoom(Fraction),
    Copy,
    Cut,
    Key { key: Key, physical_key: Option<Key>, pressed: bool, repeat: bool, modifiers: Modifiers },
}

impl View for Event {
    type V = EventView;

    open spec fn view(&self) -> EventView {
        match *self {
            Event::PointerMoved(pos) => EventView::PointerMoved(pos),
            Event::PointerButton { pos, button, pressed, modifiers } => EventView::PointerButton {
                pos,
                button,
                pressed,
                modifiers,
            },
            Event::Text(text) => EventView::Text(text@),
            Event::Scroll { x, y } => EventView::Scroll { x, y },
            Event::Zoom(factor) => EventView::Zoom(factor),
            Event::Copy => EventView::Copy,
            Event::Cut => EventView::Cut,
            Event::Key { key, physical_key, pressed, repeat, modifiers } => EventView::Key {
                key,
                physical_key,
                pressed,
                repeat,
                modifiers,
            },
        }
    }
}

/// The views of a run of events, in order.
pub open spec fn views(events: Seq<Event>) -> Seq<EventView> {
    events.map_values(|event: Event| event@)
}

/// Appending an event appends its view.
pub proof fn lemma_views_push(events: Seq<Event>, event: Event)
    ensures
        views(events.push(event)) == views(events).push(event@),
{
    assert(views(events.push(event)) =~= views(events).push(event@));
}

} // verus!
