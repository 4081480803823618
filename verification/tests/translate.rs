use egui_glow_internal::event::{Event, Fraction, Modifiers, PointerButton, Pos};
use egui_glow_internal::key::Key;
use egui_glow_internal::message::{
    MK_CONTROL, MK_SHIFT, WM_CHAR, WM_KEYDOWN, WM_KEYUP, WM_LBUTTONDBLCLK, WM_LBUTTONDOWN,
    WM_LBUTTONUP, WM_MBUTTONDBLCLK, WM_MBUTTONDOWN, WM_MBUTTONUP, WM_MOUSEHWHEEL, WM_MOUSEMOVE,
    WM_MOUSEWHEEL, WM_RBUTTONDBLCLK, WM_RBUTTONDOWN, WM_RBUTTONUP, WM_SYSKEYDOWN, WM_SYSKEYUP,
    WM_XBUTTONDBLCLK, WM_XBUTTONDOWN, WM_XBUTTONUP,
};
use egui_glow_internal::translate::{
    alter_modifiers, consumes, is_translatable, needs_clipboard, needs_key_state, translate, Live,
    SCROLL_PER_NOTCH, WHEEL_DELTA,
};

fn none() -> Modifiers {
    Modifiers { alt: false, ctrl: false, shift: false, mac_cmd: false, command: false }
}

fn ctrl() -> Modifiers {
    Modifiers { alt: false, ctrl: true, shift: false, mac_cmd: false, command: true }
}

fn shift() -> Modifiers {
    Modifiers { alt: false, ctrl: false, shift: true, mac_cmd: false, command: false }
}

fn quiet() -> Live {
    Live { ctrl_down: false, shift_down: false, clipboard: None }
}

fn with_ctrl(clipboard: Option<&str>) -> Live {
    Live { ctrl_down: true, shift_down: false, clipboard: clipboard.map(String::from) }
}

fn events(umsg: u32, wparam: usize, lparam: isize, live: Live) -> Vec<Event> {
    let mut queue = Vec::new();
    let mut last = None;
    translate(&mut queue, &mut last, umsg, wparam, lparam, live);
    queue
}

fn modifiers(before: Option<Modifiers>, umsg: u32, wparam: usize, live: Live) -> Option<Modifiers> {
    let mut queue = Vec::new();
    let mut last = before;
    translate(&mut queue, &mut last, umsg, wparam, 0, live);
    last
}

fn wheel(units: i16, flags: usize) -> usize {
    ((units as u16 as usize) << 16) | flags
}

fn key_event(key: Key, pressed: bool, repeat: bool, modifiers: Modifiers) -> Event {
    Event::Key { key, physical_key: Some(key), pressed, repeat, modifiers }
}

fn scroll(x: i32, y: i32) -> Event {
    Event::Scroll { x: Fraction { num: x, den: 120 }, y: Fraction { num: y, den: 120 } }
}

#[test]
fn pointer_move_gives_one_move() {
    assert_eq!(
        events(WM_MOUSEMOVE, 0, 0x0014_000A, quiet()),
        vec![Event::PointerMoved(Pos { x: 10, y: 20 })]
    );
}

#[test]
fn pointer_move_is_sign_extended() {
    assert_eq!(
        events(WM_MOUSEMOVE, 0, 0xFFFE_FFFFu32 as isize, quiet()),
        vec![Event::PointerMoved(Pos { x: -1, y: -2 })]
    );
}

#[test]
fn pointer_move_does_not_depend_on_the_modifiers_known_before() {
    let expected = vec![Event::PointerMoved(Pos { x: 300, y: -4 })];
    let lparam = ((((-4i16) as u16 as u32) << 16) | 300) as isize;
    for before in [None, Some(none()), Some(ctrl()), Some(shift())] {
        for wparam in [0, MK_CONTROL, MK_SHIFT, MK_CONTROL | MK_SHIFT] {
            let mut queue = Vec::new();
            let mut last = before;
            translate(&mut queue, &mut last, WM_MOUSEMOVE, wparam, lparam, with_ctrl(Some("x")));
            assert_eq!(queue, expected);
        }
    }
}

#[test]
fn left_right_and_middle_buttons_give_their_logical_button() {
    let table = [
        (WM_LBUTTONDOWN, PointerButton::Primary, true),
        (WM_LBUTTONDBLCLK, PointerButton::Primary, true),
        (WM_LBUTTONUP, PointerButton::Primary, false),
        (WM_RBUTTONDOWN, PointerButton::Secondary, true),
        (WM_RBUTTONDBLCLK, PointerButton::Secondary, true),
        (WM_RBUTTONUP, PointerButton::Secondary, false),
        (WM_MBUTTONDOWN, PointerButton::Middle, true),
        (WM_MBUTTONDBLCLK, PointerButton::Middle, true),
        (WM_MBUTTONUP, PointerButton::Middle, false),
    ];
    for (code, button, pressed) in table {
        assert_eq!(
            events(code, MK_SHIFT, 0x0002_0001, quiet()),
            vec![Event::PointerButton {
                pos: Pos { x: 1, y: 2 },
                button,
                pressed,
                modifiers: shift(),
            }],
            "code {code:#x}"
        );
    }
}

#[test]
fn button_modifiers_come_from_the_message_not_from_the_keyboard() {
    assert_eq!(
        events(WM_LBUTTONDOWN, 0, 0, with_ctrl(None)),
        vec![Event::PointerButton {
            pos: Pos { x: 0, y: 0 },
            button: PointerButton::Primary,
            pressed: true,
            modifiers: none(),
        }]
    );
}

#[test]
fn extra_buttons_are_told_apart_by_the_upper_word() {
    let table = [
        (WM_XBUTTONDOWN, 0x0001_0000usize, PointerButton::Extra1, true),
        (WM_XBUTTONDOWN, 0x0002_0000, PointerButton::Extra2, true),
        (WM_XBUTTONDBLCLK, 0x0001_0000, PointerButton::Extra1, true),
        (WM_XBUTTONDBLCLK, 0x0002_0000, PointerButton::Extra2, true),
        (WM_XBUTTONUP, 0x0001_0000, PointerButton::Extra1, false),
        (WM_XBUTTONUP, 0x0002_0000, PointerButton::Extra2, false),
    ];
    for (code, upper, button, pressed) in table {
        assert!(is_translatable(code, upper | MK_CONTROL));
        assert_eq!(
            events(code, upper | MK_CONTROL, 0x0007_0005, quiet()),
            vec![Event::PointerButton {
                pos: Pos { x: 5, y: 7 },
                button,
                pressed,
                modifiers: ctrl(),
            }]
        );
    }
}

#[test]
fn extra_button_message_without_a_button_is_not_translatable() {
    assert!(!is_translatable(WM_XBUTTONDOWN, 0));
    assert!(!is_translatable(WM_XBUTTONUP, MK_CONTROL));
    assert!(!is_translatable(WM_XBUTTONDBLCLK, 0x0004_0000));
}

#[test]
fn every_other_message_is_translatable() {
    for code in [WM_MOUSEMOVE, WM_LBUTTONDOWN, WM_CHAR, WM_KEYDOWN, WM_MOUSEWHEEL, 0, 0x0400] {
        assert!(is_translatable(code, 0));
    }
}

#[test]
fn character_gives_text() {
    assert_eq!(events(WM_CHAR, 0x61, 0, quiet()), vec![Event::Text(String::from("a"))]);
    assert_eq!(events(WM_CHAR, 0x20AC, 0, quiet()), vec![Event::Text(String::from("\u{20AC}"))]);
}

#[test]
fn control_character_gives_nothing() {
    assert_eq!(events(WM_CHAR, 0x0D, 0, quiet()), vec![]);
    assert_eq!(events(WM_CHAR, 0x08, 0, quiet()), vec![]);
    assert_eq!(events(WM_CHAR, 0x7F, 0, quiet()), vec![]);
}

#[test]
fn character_that_is_no_character_gives_nothing() {
    assert_eq!(events(WM_CHAR, 0xD800, 0, quiet()), vec![]);
    assert_eq!(events(WM_CHAR, 0x11_0000, 0, quiet()), vec![]);
}

#[test]
fn one_notch_scrolls_by_ten_points() {
    assert_eq!(events(WM_MOUSEWHEEL, wheel(120, 0), 0, quiet()), vec![scroll(0, 1200)]);
    assert_eq!(events(WM_MOUSEHWHEEL, wheel(120, 0), 0, quiet()), vec![scroll(1200, 0)]);
    if let Event::Scroll { x, y } = &events(WM_MOUSEWHEEL, wheel(120, 0), 0, quiet())[0] {
        assert_eq!(y.num as f32 / y.den as f32, 10.0);
        assert_eq!(x.num as f32 / x.den as f32, 0.0);
    } else {
        panic!("no scroll");
    }
    if let Event::Scroll { x, y } = &events(WM_MOUSEHWHEEL, wheel(120, 0), 0, quiet())[0] {
        assert_eq!(x.num as f32 / x.den as f32, 10.0);
        assert_eq!(y.num as f32 / y.den as f32, 0.0);
    } else {
        panic!("no scroll");
    }
}

#[test]
fn scroll_scales_with_the_wheel_units() {
    assert_eq!(SCROLL_PER_NOTCH, 10);
    assert_eq!(WHEEL_DELTA, 120);
    for units in [-32768i16, -240, -120, -1, 0, 1, 30, 120, 360, 32767] {
        let expected = units as i32 * 10;
        assert_eq!(events(WM_MOUSEWHEEL, wheel(units, 0), 0, quiet()), vec![scroll(0, expected)]);
        assert_eq!(events(WM_MOUSEHWHEEL, wheel(units, 0), 0, quiet()), vec![scroll(expected, 0)]);
        if let Event::Scroll { y, .. } = &events(WM_MOUSEWHEEL, wheel(units, MK_SHIFT), 0, quiet())[0]
        {
            assert_eq!(y.num as f32 / y.den as f32, units as f32 * 10.0 / 120.0);
        } else {
            panic!("no scroll");
        }
    }
}

#[test]
fn wheel_with_control_zooms_in_for_a_positive_movement() {
    for units in [1i16, 120, 32767] {
        for code in [WM_MOUSEWHEEL, WM_MOUSEHWHEEL] {
            assert_eq!(
                events(code, wheel(units, MK_CONTROL), 0, quiet()),
                vec![Event::Zoom(Fraction { num: 3, den: 2 })]
            );
        }
    }
}

#[test]
fn wheel_with_control_zooms_out_for_any_other_movement() {
    for units in [0i16, -1, -120, -32768] {
        for code in [WM_MOUSEWHEEL, WM_MOUSEHWHEEL] {
            assert_eq!(
                events(code, wheel(units, MK_CONTROL | MK_SHIFT), 0, quiet()),
                vec![Event::Zoom(Fraction { num: 1, den: 2 })]
            );
        }
    }
}

#[test]
fn wheel_takes_control_from_the_message_not_from_the_keyboard() {
    assert_eq!(events(WM_MOUSEWHEEL, wheel(120, 0), 0, with_ctrl(None)), vec![scroll(0, 1200)]);
}

#[test]
fn control_c_gives_copy_then_key() {
    assert_eq!(
        events(WM_KEYDOWN, 0x43, 0, with_ctrl(None)),
        vec![Event::Copy, key_event(Key::C, true, false, ctrl())]
    );
}

#[test]
fn control_x_gives_cut_then_key() {
    assert_eq!(
        events(WM_KEYDOWN, 0x58, 0, with_ctrl(None)),
        vec![Event::Cut, key_event(Key::X, true, false, ctrl())]
    );
}

#[test]
fn control_v_gives_the_clipboard_text_then_key() {
    assert_eq!(
        events(WM_KEYDOWN, 0x56, 0, with_ctrl(Some("pasted text"))),
        vec![Event::Text(String::from("pasted text")), key_event(Key::V, true, false, ctrl())]
    );
}

#[test]
fn control_v_without_clipboard_text_gives_the_key_only() {
    assert_eq!(
        events(WM_KEYDOWN, 0x56, 0, with_ctrl(None)),
        vec![key_event(Key::V, true, false, ctrl())]
    );
}

#[test]
fn clipboard_is_ignored_for_any_other_key() {
    assert_eq!(
        events(WM_KEYDOWN, 0x43, 0, with_ctrl(Some("text"))),
        vec![Event::Copy, key_event(Key::C, true, false, ctrl())]
    );
    assert_eq!(
        events(WM_KEYDOWN, 0x41, 0, with_ctrl(Some("text"))),
        vec![key_event(Key::A, true, false, ctrl())]
    );
}

#[test]
fn shortcuts_need_control() {
    let live = Live { ctrl_down: false, shift_down: true, clipboard: Some(String::from("text")) };
    assert_eq!(events(WM_KEYDOWN, 0x56, 0, live), vec![key_event(Key::V, true, false, shift())]);
    assert_eq!(events(WM_KEYDOWN, 0x43, 0, quiet()), vec![key_event(Key::C, true, false, none())]);
    assert_eq!(events(WM_KEYDOWN, 0x58, 0, quiet()), vec![key_event(Key::X, true, false, none())]);
}

#[test]
fn key_up_gives_the_key_only() {
    assert_eq!(
        events(WM_KEYUP, 0x43, 0, with_ctrl(Some("text"))),
        vec![key_event(Key::C, false, false, ctrl())]
    );
    assert_eq!(
        events(WM_KEYUP, 0x56, 0, with_ctrl(Some("text"))),
        vec![key_event(Key::V, false, false, ctrl())]
    );
    assert_eq!(
        events(WM_SYSKEYUP, 0x58, 0, with_ctrl(None)),
        vec![key_event(Key::X, false, false, Modifiers { alt: true, ..ctrl() })]
    );
}

#[test]
fn system_key_up_sets_alt() {
    let alt = Modifiers { alt: true, ..none() };
    assert_eq!(events(WM_SYSKEYUP, 0x73, 0, quiet()), vec![key_event(Key::F4, false, false, alt)]);
    assert_eq!(events(WM_KEYUP, 0x73, 0, quiet()), vec![key_event(Key::F4, false, false, none())]);
}

#[test]
fn system_key_down_sets_alt() {
    let alt = Modifiers { alt: true, ..none() };
    assert_eq!(events(WM_SYSKEYDOWN, 0x73, 0, quiet()), vec![key_event(Key::F4, true, false, alt)]);
    let alt_ctrl = Modifiers { alt: true, ..ctrl() };
    assert_eq!(
        events(WM_SYSKEYDOWN, 0x43, 0, with_ctrl(None)),
        vec![Event::Copy, key_event(Key::C, true, false, alt_ctrl)]
    );
}

#[test]
fn repeat_comes_from_the_second_parameter() {
    assert_eq!(
        events(WM_KEYDOWN, 0x41, 0x4000, quiet()),
        vec![key_event(Key::A, true, true, none())]
    );
    assert_eq!(
        events(WM_KEYUP, 0x41, 0x4000, quiet()),
        vec![key_event(Key::A, false, true, none())]
    );
    assert_eq!(
        events(WM_KEYDOWN, 0x41, 0x4000_0000, quiet()),
        vec![key_event(Key::A, true, false, none())]
    );
}

#[test]
fn unmapped_key_gives_nothing() {
    for code in [WM_KEYDOWN, WM_SYSKEYDOWN, WM_KEYUP, WM_SYSKEYUP] {
        assert_eq!(events(code, 0x07, 0, with_ctrl(Some("text"))), vec![]);
    }
}

#[test]
fn unmapped_key_still_sets_the_modifiers() {
    assert_eq!(modifiers(None, WM_KEYDOWN, 0x07, with_ctrl(None)), Some(ctrl()));
}

#[test]
fn other_messages_give_nothing_and_change_nothing() {
    for code in [0u32, 0x000F, 0x0103, 0x020F, 0x0400] {
        assert_eq!(events(code, 0x43, 0x4000, with_ctrl(Some("text"))), vec![]);
        assert_eq!(modifiers(Some(shift()), code, MK_CONTROL, with_ctrl(None)), Some(shift()));
        assert_eq!(modifiers(None, code, MK_CONTROL, with_ctrl(None)), None);
    }
}

#[test]
fn events_are_appended_behind_those_pending() {
    let mut queue = vec![Event::Cut];
    let mut last = None;
    translate(&mut queue, &mut last, WM_KEYDOWN, 0x43, 0, with_ctrl(None));
    translate(&mut queue, &mut last, WM_MOUSEMOVE, 0, 0x0001_0001, quiet());
    assert_eq!(
        queue,
        vec![
            Event::Cut,
            Event::Copy,
            key_event(Key::C, true, false, ctrl()),
            Event::PointerMoved(Pos { x: 1, y: 1 }),
        ]
    );
}

#[test]
fn key_messages_set_the_modifiers() {
    assert_eq!(modifiers(None, WM_KEYDOWN, 0x41, quiet()), Some(none()));
    assert_eq!(modifiers(Some(shift()), WM_KEYUP, 0x41, with_ctrl(None)), Some(ctrl()));
    assert_eq!(
        modifiers(None, WM_SYSKEYDOWN, 0x41, quiet()),
        Some(Modifiers { alt: true, ..none() })
    );
    assert_eq!(
        modifiers(None, WM_SYSKEYUP, 0x41, quiet()),
        Some(Modifiers { alt: true, ..none() })
    );
    assert_eq!(
        modifiers(Some(ctrl()), WM_SYSKEYUP, 0x07, quiet()),
        Some(Modifiers { alt: true, ..none() })
    );
}

#[test]
fn mouse_messages_replace_the_modifiers_only_once_known() {
    for code in [WM_MOUSEMOVE, WM_LBUTTONDOWN, WM_RBUTTONUP, WM_MBUTTONDBLCLK, WM_MOUSEWHEEL, WM_MOUSEHWHEEL] {
        assert_eq!(modifiers(None, code, MK_CONTROL, quiet()), None, "code {code:#x}");
        assert_eq!(modifiers(Some(shift()), code, MK_CONTROL, quiet()), Some(ctrl()), "code {code:#x}");
        assert_eq!(modifiers(Some(ctrl()), code, 0, with_ctrl(None)), Some(none()), "code {code:#x}");
    }
    assert_eq!(modifiers(Some(shift()), WM_XBUTTONDOWN, 0x0001_0000 | MK_CONTROL, quiet()), Some(ctrl()));
}

#[test]
fn character_messages_leave_the_modifiers() {
    assert_eq!(modifiers(Some(shift()), WM_CHAR, 0x61, with_ctrl(None)), Some(shift()));
    assert_eq!(modifiers(None, WM_CHAR, 0x61, with_ctrl(None)), None);
}

#[test]
fn alter_modifiers_keeps_unknown_unknown() {
    let mut last = None;
    alter_modifiers(&mut last, ctrl());
    assert_eq!(last, None);
    let mut last = Some(shift());
    alter_modifiers(&mut last, ctrl());
    assert_eq!(last, Some(ctrl()));
}

#[test]
fn left_button_down_is_consumed_when_the_ui_wants_the_pointer() {
    assert!(consumes(WM_LBUTTONDOWN, true, false));
    assert!(!consumes(WM_LBUTTONDOWN, false, false));
}

#[test]
fn pointer_class_follows_the_pointer_wish_only() {
    let class = [
        WM_MOUSEMOVE,
        WM_LBUTTONDOWN,
        WM_LBUTTONDBLCLK,
        WM_LBUTTONUP,
        WM_RBUTTONDOWN,
        WM_RBUTTONDBLCLK,
        WM_RBUTTONUP,
        WM_MBUTTONDOWN,
        WM_MBUTTONDBLCLK,
        WM_MBUTTONUP,
        WM_MOUSEWHEEL,
        WM_MOUSEHWHEEL,
    ];
    for code in class {
        assert!(consumes(code, true, false), "code {code:#x}");
        assert!(consumes(code, true, true), "code {code:#x}");
        assert!(!consumes(code, false, true), "code {code:#x}");
        assert!(!consumes(code, false, false), "code {code:#x}");
    }
}

#[test]
fn keyboard_class_follows_the_keyboard_wish_only() {
    for code in [WM_CHAR, WM_KEYDOWN, WM_SYSKEYDOWN, WM_KEYUP, WM_SYSKEYUP] {
        assert!(consumes(code, false, true), "code {code:#x}");
        assert!(consumes(code, true, true), "code {code:#x}");
        assert!(!consumes(code, true, false), "code {code:#x}");
        assert!(!consumes(code, false, false), "code {code:#x}");
    }
}

#[test]
fn extra_buttons_follow_the_pointer_wish_too() {
    for code in [WM_XBUTTONDOWN, WM_XBUTTONDBLCLK, WM_XBUTTONUP] {
        assert!(consumes(code, true, false), "code {code:#x}");
        assert!(consumes(code, true, true), "code {code:#x}");
        assert!(!consumes(code, false, true), "code {code:#x}");
        assert!(!consumes(code, false, false), "code {code:#x}");
    }
}

#[test]
fn other_messages_are_never_consumed() {
    for code in [0u32, 0x000F, 0x0103, 0x01FF, 0x020F, 0x0400, u32::MAX] {
        assert!(!consumes(code, true, true), "code {code:#x}");
    }
}

#[test]
fn key_state_is_needed_for_key_messages_only() {
    for code in [WM_KEYDOWN, WM_SYSKEYDOWN, WM_KEYUP, WM_SYSKEYUP] {
        assert!(needs_key_state(code));
    }
    for code in [WM_CHAR, WM_MOUSEMOVE, WM_LBUTTONDOWN, WM_MOUSEWHEEL, WM_XBUTTONUP, 0] {
        assert!(!needs_key_state(code));
    }
}

#[test]
fn clipboard_is_needed_for_control_v_going_down_only() {
    assert!(needs_clipboard(WM_KEYDOWN, 0x56, true));
    assert!(needs_clipboard(WM_SYSKEYDOWN, 0x56, true));
    assert!(!needs_clipboard(WM_KEYDOWN, 0x56, false));
    assert!(!needs_clipboard(WM_KEYUP, 0x56, true));
    assert!(!needs_clipboard(WM_SYSKEYUP, 0x56, true));
    assert!(!needs_clipboard(WM_KEYDOWN, 0x43, true));
    assert!(!needs_clipboard(WM_CHAR, 0x56, true));
    assert!(!needs_clipboard(WM_KEYDOWN, 0x1_0056, true));
}
