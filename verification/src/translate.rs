//! From one raw window message to the input events it stands for.
//!
//! A message carries its position, buttons and wheel movement in its two
//! parameter words, but not the state of the keyboard and not the clipboard:
//! those are read by the caller and handed in as [`Live`].

use crate::event::{
    lemma_views_push, views, Event, EventView, Fraction, Modifiers, PointerButton, Pos,
};
use crate::key::{get_key, key_of, Key};
use crate::message::{
    button_of, classify, encodes_point, extra_button, extra_button_of, get_key_modifiers,
    get_mouse_modifiers, get_pos, has_bit, is_repeat, key_modifiers_of, kind_of,
    lemma_pos_round_trip, mouse_modifiers_of, pos_of, repeat_of, wheel_units, wheel_units_of,
    ButtonGroup, MessageKind, MK_CONTROL, WM_CHAR, WM_KEYDOWN, WM_KEYUP, WM_LBUTTONDBLCLK,
    WM_LBUTTONDOWN, WM_LBUTTONUP, WM_MBUTTONDBLCLK, WM_MBUTTONDOWN, WM_MBUTTONUP, WM_MOUSEHWHEEL,
    WM_MOUSEMOVE, WM_MOUSEWHEEL, WM_RBUTTONDBLCLK, WM_RBUTTONDOWN, WM_RBUTTONUP, WM_SYSKEYDOWN,
    WM_SYSKEYUP, WM_XBUTTONDBLCLK, WM_XBUTTONDOWN, WM_XBUTTONUP,
};
use crate::text::{printable_char, printable_char_of, string_of_char};
use vstd::prelude::*;

verus! {

/// Wheel units that make one notch.
pub const WHEEL_DELTA: i32 = 120;

/// Points scrolled per notch of the wheel.
pub const SCROLL_PER_NOTCH: i32 = 10;

/// What the caller read from the machine for one message.
pub struct Live {
    /// Whether the keyboard reports control as held right now.
    pub ctrl_down: bool,
    /// Whether the keyboard reports shift as held right now.
    pub shift_down: bool,
    /// The text on the clipboard, if it holds any.
    pub clipboard: Option<String>,
}

/// What a [`Live`] is, with the clipboard as a sequence of characters.
pub struct LiveView {
    pub ctrl_down: bool,
    pub shift_down: bool,
    pub clipboard: Option<Seq<char>>,
}

impl View for Live {
    type V = LiveView;

    open spec fn view(&self) -> LiveView {
        LiveView {
            ctrl_down: self.ctrl_down,
            shift_down: self.shift_down,
            clipboard: match self.clipboard {
                Some(text) => Some(text@),
                None => None,
            },
        }
    }
}

/// The zoom factor of a wheel movement made with control held: one and a half
/// for a movement forward, one half for any other.
pub open spec fn zoom_factor(units: int) -> Fraction {
    if units > 0 {
        Fraction { num: 3, den: 2 }
    } else {
        Fraction { num: 1, den: 2 }
    }
}

/// The scroll distance of a wheel movement in points: ten for each notch of
/// 120 units, as the fraction `units * 10 / 120`.
pub open spec fn scroll_distance(units: int) -> Fraction {
    Fraction { num: (units * SCROLL_PER_NOTCH) as i32, den: WHEEL_DELTA }
}

/// The event of a wheel message. With the control bit set it zooms; without,
/// it scrolls along the axis of the wheel and not at all along the other.
pub open spec fn wheel_event(horizontal: bool, wparam: int) -> EventView {
    let units = wheel_units_of(wparam);
    if has_bit(wparam, MK_CONTROL as int) {
        EventView::Zoom(zoom_factor(units))
    } else if horizontal {
        EventView::Scroll { x: scroll_distance(units), y: scroll_distance(0) }
    } else {
        EventView::Scroll { x: scroll_distance(0), y: scroll_distance(units) }
    }
}

/// The events that a shortcut adds in front of a key-down event: the
/// clipboard's text for control+V if the clipboard holds text, "copy" for
/// control+C, "cut" for control+X.
pub open spec fn shortcut_events(key: Key, ctrl: bool, clipboard: Option<Seq<char>>) -> Seq<
    EventView,
> {
    if !ctrl {
        Seq::empty()
    } else if key == Key::V {
        match clipboard {
            Some(text) => seq![EventView::Text(text)],
            None => Seq::empty(),
        }
    } else if key == Key::C {
        seq![EventView::Copy]
    } else if key == Key::X {
        seq![EventView::Cut]
    } else {
        Seq::empty()
    }
}

/// The events of a key message. A code without a logical key gives none at
/// all; any other gives one key event, after the shortcut events if the key
/// went down.
pub open spec fn key_events(
    umsg: u32,
    pressed: bool,
    wparam: int,
    lparam: int,
    live: LiveView,
) -> Seq<EventView> {
    match key_of(wparam) {
        Some(key) => {
            let modifiers = key_modifiers_of(umsg, live.ctrl_down, live.shift_down);
            let event = EventView::Key {
                key,
                physical_key: Some(key),
                pressed,
                repeat: repeat_of(lparam),
                modifiers,
            };
            if pressed {
                shortcut_events(key, modifiers.ctrl, live.clipboard).push(event)
            } else {
                seq![event]
            }
        },
        None => Seq::empty(),
    }
}

/// Whether a message can be translated: every message but an extra-button
/// message that names neither extra button.
pub open spec fn translatable(umsg: u32, wparam: usize) -> bool {
    kind_of(umsg) matches MessageKind::Button { group: ButtonGroup::Extra, .. }
        ==> extra_button_of(wparam as int) is Some
}

/// The events that one message stands for, in the order in which they are
/// queued.
pub open spec fn events_of(umsg: u32, wparam: usize, lparam: isize, live: LiveView) -> Seq<
    EventView,
> {
    match kind_of(umsg) {
        MessageKind::PointerMove => seq![EventView::PointerMoved(pos_of(lparam as int))],
        MessageKind::Button { group, pressed } => match button_of(group, wparam as int) {
            Some(button) => seq![
                EventView::PointerButton {
                    pos: pos_of(lparam as int),
                    button,
                    pressed,
                    modifiers: mouse_modifiers_of(wparam as int),
                },
            ],
            None => Seq::empty(),
        },
        MessageKind::Char => match printable_char_of(wparam as int) {
            Some(c) => seq![EventView::Text(seq![c])],
            None => Seq::empty(),
        },
        MessageKind::Wheel { horizontal } => seq![wheel_event(horizontal, wparam as int)],
        MessageKind::Key { pressed, .. } => key_events(
            umsg,
            pressed,
            wparam as int,
            lparam as int,
            live,
        ),
        MessageKind::Other => Seq::empty(),
    }
}

/// The last-known modifiers after one message. A key message replaces them by
/// its own. A pointer-move, button or wheel message replaces them by what its
/// first parameter reports, but only once a key message has set them. Any
/// other message leaves them alone.
pub open spec fn modifiers_after(
    last: Option<Modifiers>,
    umsg: u32,
    wparam: usize,
    live: LiveView,
) -> Option<Modifiers> {
    match kind_of(umsg) {
        MessageKind::Key { .. } => Some(
            key_modifiers_of(umsg, live.ctrl_down, live.shift_down),
        ),
        MessageKind::PointerMove | MessageKind::Button { .. } | MessageKind::Wheel { .. } => {
            if last is Some {
                Some(mouse_modifiers_of(wparam as int))
            } else {
                None
            }
        },
        _ => last,
    }
}

/// Whether translating a message reads the live state of control and shift.
pub open spec fn reads_key_state(umsg: u32) -> bool {
    kind_of(umsg) is Key
}

/// Whether translating a message reads the clipboard: only for control+V
/// going down.
pub open spec fn reads_clipboard(umsg: u32, wparam: usize, ctrl_down: bool) -> bool {
    &&& kind_of(umsg) matches MessageKind::Key { pressed: true, .. }
    &&& key_of(wparam as int) == Some(Key::V)
    &&& ctrl_down
}

/// Whether a message belongs to the pointer class, which a UI that wants the
/// pointer keeps from the host: moves, all five buttons going down, up or
/// double-clicked, and both wheels.
pub open spec fn is_pointer_class(umsg: u32) -> bool {
    match kind_of(umsg) {
        MessageKind::PointerMove => true,
        MessageKind::Button { .. } => true,
        MessageKind::Wheel { .. } => true,
        _ => false,
    }
}

/// Whether a message belongs to the keyboard class, which a UI that wants the
/// keyboard keeps from the host: characters and keys.
pub open spec fn is_keyboard_class(umsg: u32) -> bool {
    match kind_of(umsg) {
        MessageKind::Char => true,
        MessageKind::Key { .. } => true,
        _ => false,
    }
}

/// Whether the host should treat a message as consumed.
pub open spec fn consumed(umsg: u32, wants_pointer: bool, wants_keyboard: bool) -> bool {
    (wants_pointer && is_pointer_class(umsg)) || (wants_keyboard && is_keyboard_class(umsg))
}

/// Decides whether the host should stop processing a message, given what the
/// UI currently wants.
pub fn consumes(umsg: u32, wants_pointer: bool, wants_keyboard: bool) -> (stop: bool)
    ensures
        stop == consumed(umsg, wants_pointer, wants_keyboard),
{
    match classify(umsg) {
        MessageKind::PointerMove => wants_pointer,
        MessageKind::Button { .. } => wants_pointer,
        MessageKind::Wheel { .. } => wants_pointer,
        MessageKind::Char => wants_keyboard,
        MessageKind::Key { .. } => wants_keyboard,
        MessageKind::Other => false,
    }
}

/// Tells whether the caller has to read the live state of control and shift
/// before it hands the message in.
pub fn needs_key_state(umsg: u32) -> (needed: bool)
    ensures
        needed == reads_key_state(umsg),
{
    match classify(umsg) {
        MessageKind::Key { .. } => true,
        _ => false,
    }
}

/// Tells whether the caller has to read the clipboard before it hands the
/// message in.
pub fn needs_clipboard(umsg: u32, wparam: usize, ctrl_down: bool) -> (needed: bool)
    ensures
        needed == reads_clipboard(umsg, wparam, ctrl_down),
{
    match classify(umsg) {
        MessageKind::Key { pressed, .. } => pressed && ctrl_down && match get_key(wparam) {
            Some(key) => key == Key::V,
            None => false,
        },
        _ => false,
    }
}

/// Tells whether a message can be translated.
pub fn is_translatable(umsg: u32, wparam: usize) -> (ok: bool)
    ensures
        ok == translatable(umsg, wparam),
{
    match classify(umsg) {
        MessageKind::Button { group, .. } => match group {
            ButtonGroup::Extra => extra_button(wparam).is_some(),
            _ => true,
        },
        _ => true,
    }
}

/// Replaces the last-known modifiers, but only where some were known already.
pub fn alter_modifiers(last: &mut Option<Modifiers>, new: Modifiers)
    ensures
        *final(last) == if *old(last) is Some {
            Some(new)
        } else {
            None::<Modifiers>
        },
{
    if last.is_some() {
        *last = Some(new);
    }
}

fn emit(queue: &mut Vec<Event>, event: Event)
    ensures
        views(final(queue)@) == views(old(queue)@).push(event@),
{
    proof {
        lemma_views_push(queue@, event);
    }
    queue.push(event);
}

fn wheel(horizontal: bool, wparam: usize) -> (event: Event)
    ensures
        event@ == wheel_event(horizontal, wparam as int),
{
    let units: i16 = wheel_units(wparam);
    let ctrl = get_mouse_modifiers(wparam).ctrl;
    if ctrl {
        if units > 0 {
            Event::Zoom(Fraction { num: 3, den: 2 })
        } else {
            Event::Zoom(Fraction { num: 1, den: 2 })
        }
    } else {
        let still = Fraction { num: 0, den: WHEEL_DELTA };
        let moved = Fraction { num: (units as i32) * SCROLL_PER_NOTCH, den: WHEEL_DELTA };
        if horizontal {
            Event::Scroll { x: moved, y: still }
        } else {
            Event::Scroll { x: still, y: moved }
        }
    }
}

/// Appends to `queue` the events of one message and brings the last-known
/// modifiers up to date.
pub fn translate(
    queue: &mut Vec<Event>,
    last: &mut Option<Modifiers>,
    umsg: u32,
    wparam: usize,
    lparam: isize,
    live: Live,
)
    requires
        translatable(umsg, wparam),
    ensures
        views(final(queue)@) == views(old(queue)@) + events_of(umsg, wparam, lparam, live@),
        *final(last) == modifiers_after(*old(last), umsg, wparam, live@),
{
    let ghost before = views(queue@);
    match classify(umsg) {
        MessageKind::PointerMove => {
            alter_modifiers(last, get_mouse_modifiers(wparam));
            emit(queue, Event::PointerMoved(get_pos(lparam)));
        },
        MessageKind::Button { group, pressed } => {
            let modifiers = get_mouse_modifiers(wparam);
            alter_modifiers(last, modifiers);
            let button = match group {
                ButtonGroup::Left => PointerButton::Primary,
                ButtonGroup::Right => PointerButton::Secondary,
                ButtonGroup::Middle => PointerButton::Middle,
                ButtonGroup::Extra => extra_button(wparam).unwrap(),
            };
            emit(queue, Event::PointerButton { pos: get_pos(lparam), button, pressed, modifiers });
        },
        MessageKind::Char => {
            match printable_char(wparam) {
                Some(c) => {
                    emit(queue, Event::Text(string_of_char(c)));
                },
                None => {},
            }
        },
        MessageKind::Wheel { horizontal } => {
            alter_modifiers(last, get_mouse_modifiers(wparam));
            emit(queue, wheel(horizontal, wparam));
        },
        MessageKind::Key { pressed, .. } => {
            let modifiers = get_key_modifiers(umsg, live.ctrl_down, live.shift_down);
            *last = Some(modifiers);
            match get_key(wparam) {
                Some(key) => {
                    if pressed && modifiers.ctrl {
                        if key == Key::V {
                            match live.clipboard {
                                Some(text) => {
                                    emit(queue, Event::Text(text));
                                },
                                None => {},
                            }
                        } else if key == Key::C {
                            emit(queue, Event::Copy);
                        } else if key == Key::X {
                            emit(queue, Event::Cut);
                        }
                    }
                    emit(
                        queue,
                        Event::Key {
                            key,
                            physical_key: Some(key),
                            pressed,
                            repeat: is_repeat(lparam),
                            modifiers,
                        },
                    );
                },
                None => {},
            }
        },
        MessageKind::Other => {},
    }
    assert(views(queue@) =~= before + events_of(umsg, wparam, lparam, live@));
}

/// A pointer-move message yields exactly one event, a move to the point that
/// its second parameter holds, sign-extended from 16 bits. Nothing else
/// enters: not the first parameter, not the live state, and not the modifiers
/// known before, which [`events_of`] does not even take.
pub proof fn lemma_pointer_move_position(
    wparam: usize,
    lparam: isize,
    live: LiveView,
    x: i16,
    y: i16,
)
    requires
        encodes_point(lparam as int, x, y),
    ensures
        events_of(WM_MOUSEMOVE, wparam, lparam, live) == seq![
            EventView::PointerMoved(Pos { x, y }),
        ],
{
    lemma_pos_round_trip(lparam as int, x, y);
}

/// A wheel message without the control bit yields exactly one scroll event.
/// Along the axis of the wheel it scrolls by the signed upper word of the
/// first parameter, times ten, over 120; along the other axis by nothing.
pub proof fn lemma_wheel_scrolls(umsg: u32, wparam: usize, lparam: isize, live: LiveView)
    requires
        kind_of(umsg) is Wheel,
        !has_bit(wparam as int, MK_CONTROL as int),
    ensures
        ({
            let units = wheel_units_of(wparam as int);
            let horizontal = kind_of(umsg)->horizontal;
            &&& events_of(umsg, wparam, lparam, live).len() == 1
            &&& events_of(umsg, wparam, lparam, live)[0] matches EventView::Scroll { x, y }
            &&& x.den == 120 && y.den == 120
            &&& x.num == if horizontal { units * 10 } else { 0 }
            &&& y.num == if horizontal { 0 } else { units * 10 }
        }),
{
}

/// A wheel message with the control bit yields exactly one zoom event, by
/// three halves where the signed upper word of the first parameter is
/// positive and by one half where it is not, however large that word is.
pub proof fn lemma_wheel_zooms(umsg: u32, wparam: usize, lparam: isize, live: LiveView)
    requires
        kind_of(umsg) is Wheel,
        has_bit(wparam as int, MK_CONTROL as int),
    ensures
        events_of(umsg, wparam, lparam, live) == seq![
            EventView::Zoom(
                if wheel_units_of(wparam as int) > 0 {
                    Fraction { num: 3, den: 2 }
                } else {
                    Fraction { num: 1, den: 2 }
                },
            ),
        ],
{
}

/// A key code without a logical key yields no event on a key message: no
/// key event, and no paste, copy or cut in front of one.
pub proof fn lemma_unmapped_key_is_silent(umsg: u32, wparam: usize, lparam: isize, live: LiveView)
    requires
        kind_of(umsg) is Key,
        key_of(wparam as int) is None,
    ensures
        events_of(umsg, wparam, lparam, live) == Seq::<EventView>::empty(),
{
}

/// A key message sets the modifiers whatever they were, and from nothing but
/// its code and the live state of the keyboard: alt exactly for the system
/// variant, going down or up, control and shift as they are held, the
/// shortcut modifier equal to control, and never the command key of a Mac.
/// Neither parameter word of the message enters.
pub proof fn lemma_key_message_modifiers(
    last: Option<Modifiers>,
    umsg: u32,
    wparam: usize,
    live: LiveView,
)
    requires
        kind_of(umsg) is Key,
    ensures
        modifiers_after(last, umsg, wparam, live) == Some(
            Modifiers {
                alt: kind_of(umsg)->system,
                ctrl: live.ctrl_down,
                shift: live.shift_down,
                mac_cmd: false,
                command: live.ctrl_down,
            },
        ),
        kind_of(umsg)->system <==> umsg == WM_SYSKEYDOWN || umsg == WM_SYSKEYUP,
{
}

/// Where [`reads_key_state`] says no, the live state of control and shift
/// changes neither the events nor the modifiers.
pub proof fn lemma_key_state_unread(
    last: Option<Modifiers>,
    umsg: u32,
    wparam: usize,
    lparam: isize,
    a: LiveView,
    b: LiveView,
)
    requires
        !reads_key_state(umsg),
    ensures
        events_of(umsg, wparam, lparam, a) == events_of(umsg, wparam, lparam, b),
        modifiers_after(last, umsg, wparam, a) == modifiers_after(last, umsg, wparam, b),
{
}

/// Where [`reads_clipboard`] says no, what the clipboard holds changes
/// neither the events nor the modifiers.
pub proof fn lemma_clipboard_unread(
    last: Option<Modifiers>,
    umsg: u32,
    wparam: usize,
    lparam: isize,
    a: LiveView,
    b: LiveView,
)
    requires
        a.ctrl_down == b.ctrl_down,
        a.shift_down == b.shift_down,
        !reads_clipboard(umsg, wparam, a.ctrl_down),
    ensures
        events_of(umsg, wparam, lparam, a) == events_of(umsg, wparam, lparam, b),
        modifiers_after(last, umsg, wparam, a) == modifiers_after(last, umsg, wparam, b),
{
}

/// The two classes, code by code: the pointer class is the move, the three
/// codes of each of the left, right, middle and extra buttons, and the two
/// wheels; the keyboard class is the character and the four key codes.
pub proof fn lemma_class_codes(umsg: u32)
    ensures
        is_pointer_class(umsg) <==> {
            ||| umsg == WM_MOUSEMOVE
            ||| umsg == WM_LBUTTONDOWN || umsg == WM_LBUTTONUP || umsg == WM_LBUTTONDBLCLK
            ||| umsg == WM_RBUTTONDOWN || umsg == WM_RBUTTONUP || umsg == WM_RBUTTONDBLCLK
            ||| umsg == WM_MBUTTONDOWN || umsg == WM_MBUTTONUP || umsg == WM_MBUTTONDBLCLK
            ||| umsg == WM_XBUTTONDOWN || umsg == WM_XBUTTONUP || umsg == WM_XBUTTONDBLCLK
            ||| umsg == WM_MOUSEWHEEL || umsg == WM_MOUSEHWHEEL
        },
        is_keyboard_class(umsg) <==> {
            ||| umsg == WM_CHAR
            ||| umsg == WM_KEYDOWN || umsg == WM_KEYUP
            ||| umsg == WM_SYSKEYDOWN || umsg == WM_SYSKEYUP
        },
        !is_pointer_class(umsg) && !is_keyboard_class(umsg) <==> kind_of(umsg) is Other,
{
}

/// A message of neither class brings no event and leaves the modifiers as
/// they were, whatever its parameters and the live state are.
pub proof fn lemma_other_message_is_ignored(
    last: Option<Modifiers>,
    umsg: u32,
    wparam: usize,
    lparam: isize,
    live: LiveView,
)
    requires
        !is_pointer_class(umsg),
        !is_keyboard_class(umsg),
    ensures
        events_of(umsg, wparam, lparam, live) == Seq::<EventView>::empty(),
        modifiers_after(last, umsg, wparam, live) == last,
        !consumed(umsg, true, true),
{
}

/// No message is in both classes, so at most one of the UI's two wishes
/// decides whether a message is consumed.
pub proof fn lemma_classes_disjoint(umsg: u32)
    ensures
        !(is_pointer_class(umsg) && is_keyboard_class(umsg)),
{
}

} // verus!
