use egui_glow_internal::event::{Modifiers, PointerButton, Pos};
use egui_glow_internal::message::{
    classify, extra_button, get_key_modifiers, get_mouse_modifiers, get_pos, is_repeat,
    wheel_units, ButtonGroup, MessageKind, KF_REPEAT, MK_CONTROL, MK_SHIFT, WM_CHAR, WM_KEYDOWN,
    WM_KEYUP, WM_LBUTTONDBLCLK, WM_LBUTTONDOWN, WM_LBUTTONUP, WM_MBUTTONDBLCLK, WM_MBUTTONDOWN,
    WM_MBUTTONUP, WM_MOUSEHWHEEL, WM_MOUSEMOVE, WM_MOUSEWHEEL, WM_RBUTTONDBLCLK, WM_RBUTTONDOWN,
    WM_RBUTTONUP, WM_SYSKEYDOWN, WM_SYSKEYUP, WM_XBUTTONDBLCLK, WM_XBUTTONDOWN, WM_XBUTTONUP,
    XBUTTON1, XBUTTON2,
};
use egui_glow_internal::{key, translate};
use windows::Win32::System::SystemServices;
use windows::Win32::UI::Input::KeyboardAndMouse;
use windows::Win32::UI::WindowsAndMessaging;

fn pack(x: i16, y: i16) -> isize {
    (((y as u16 as u32) << 16) | (x as u16 as u32)) as isize
}

fn pack_sign_extended(x: i16, y: i16) -> isize {
    (((y as u16 as u32) << 16) | (x as u16 as u32)) as i32 as isize
}

#[test]
fn message_codes_are_those_of_the_window_system() {
    assert_eq!(WM_KEYDOWN, WindowsAndMessaging::WM_KEYDOWN);
    assert_eq!(WM_KEYUP, WindowsAndMessaging::WM_KEYUP);
    assert_eq!(WM_CHAR, WindowsAndMessaging::WM_CHAR);
    assert_eq!(WM_SYSKEYDOWN, WindowsAndMessaging::WM_SYSKEYDOWN);
    assert_eq!(WM_SYSKEYUP, WindowsAndMessaging::WM_SYSKEYUP);
    assert_eq!(WM_MOUSEMOVE, WindowsAndMessaging::WM_MOUSEMOVE);
    assert_eq!(WM_LBUTTONDOWN, WindowsAndMessaging::WM_LBUTTONDOWN);
    assert_eq!(WM_LBUTTONUP, WindowsAndMessaging::WM_LBUTTONUP);
    assert_eq!(WM_LBUTTONDBLCLK, WindowsAndMessaging::WM_LBUTTONDBLCLK);
    assert_eq!(WM_RBUTTONDOWN, WindowsAndMessaging::WM_RBUTTONDOWN);
    assert_eq!(WM_RBUTTONUP, WindowsAndMessaging::WM_RBUTTONUP);
    assert_eq!(WM_RBUTTONDBLCLK, WindowsAndMessaging::WM_RBUTTONDBLCLK);
    assert_eq!(WM_MBUTTONDOWN, WindowsAndMessaging::WM_MBUTTONDOWN);
    assert_eq!(WM_MBUTTONUP, WindowsAndMessaging::WM_MBUTTONUP);
    assert_eq!(WM_MBUTTONDBLCLK, WindowsAndMessaging::WM_MBUTTONDBLCLK);
    assert_eq!(WM_MOUSEWHEEL, WindowsAndMessaging::WM_MOUSEWHEEL);
    assert_eq!(WM_MOUSEHWHEEL, WindowsAndMessaging::WM_MOUSEHWHEEL);
    assert_eq!(WM_XBUTTONDOWN, WindowsAndMessaging::WM_XBUTTONDOWN);
    assert_eq!(WM_XBUTTONUP, WindowsAndMessaging::WM_XBUTTONUP);
    assert_eq!(WM_XBUTTONDBLCLK, WindowsAndMessaging::WM_XBUTTONDBLCLK);
    assert_eq!(XBUTTON1, WindowsAndMessaging::XBUTTON1 as usize);
    assert_eq!(XBUTTON2, WindowsAndMessaging::XBUTTON2 as usize);
    assert_eq!(KF_REPEAT, WindowsAndMessaging::KF_REPEAT as isize);
    assert_eq!(translate::WHEEL_DELTA, WindowsAndMessaging::WHEEL_DELTA as i32);
}

#[test]
fn modifier_bits_are_those_of_the_window_system() {
    assert_eq!(MK_CONTROL, SystemServices::MK_CONTROL.0 as usize);
    assert_eq!(MK_SHIFT, SystemServices::MK_SHIFT.0 as usize);
}

#[test]
fn virtual_key_codes_are_those_of_the_window_system() {
    assert_eq!(key::VK_BACK, KeyboardAndMouse::VK_BACK.0);
    assert_eq!(key::VK_TAB, KeyboardAndMouse::VK_TAB.0);
    assert_eq!(key::VK_RETURN, KeyboardAndMouse::VK_RETURN.0);
    assert_eq!(key::VK_ESCAPE, KeyboardAndMouse::VK_ESCAPE.0);
    assert_eq!(key::VK_SPACE, KeyboardAndMouse::VK_SPACE.0);
    assert_eq!(key::VK_PRIOR, KeyboardAndMouse::VK_PRIOR.0);
    assert_eq!(key::VK_NEXT, KeyboardAndMouse::VK_NEXT.0);
    assert_eq!(key::VK_END, KeyboardAndMouse::VK_END.0);
    assert_eq!(key::VK_HOME, KeyboardAndMouse::VK_HOME.0);
    assert_eq!(key::VK_LEFT, KeyboardAndMouse::VK_LEFT.0);
    assert_eq!(key::VK_UP, KeyboardAndMouse::VK_UP.0);
    assert_eq!(key::VK_RIGHT, KeyboardAndMouse::VK_RIGHT.0);
    assert_eq!(key::VK_DOWN, KeyboardAndMouse::VK_DOWN.0);
    assert_eq!(key::VK_INSERT, KeyboardAndMouse::VK_INSERT.0);
    assert_eq!(key::VK_DELETE, KeyboardAndMouse::VK_DELETE.0);
    assert_eq!(key::VK_SUBTRACT, KeyboardAndMouse::VK_SUBTRACT.0);
}

#[test]
fn position_is_read_from_the_two_low_words() {
    assert_eq!(get_pos(0), Pos { x: 0, y: 0 });
    assert_eq!(get_pos(0x0014_000A), Pos { x: 10, y: 20 });
    assert_eq!(get_pos(pack(640, 480)), Pos { x: 640, y: 480 });
}

#[test]
fn position_is_sign_extended() {
    assert_eq!(get_pos(pack(-1, -2)), Pos { x: -1, y: -2 });
    assert_eq!(get_pos(pack(-32768, 32767)), Pos { x: -32768, y: 32767 });
    assert_eq!(get_pos(pack(32767, -32768)), Pos { x: 32767, y: -32768 });
    assert_eq!(get_pos(0xFFFF), Pos { x: -1, y: 0 });
    assert_eq!(get_pos(0x8000), Pos { x: -32768, y: 0 });
    assert_eq!(get_pos(0x7FFF), Pos { x: 32767, y: 0 });
}

#[test]
fn position_ignores_the_bits_above() {
    assert_eq!(get_pos(pack_sign_extended(5, -7)), Pos { x: 5, y: -7 });
    assert_eq!(get_pos(-1), Pos { x: -1, y: -1 });
    assert_eq!(get_pos(isize::MIN), Pos { x: 0, y: 0 });
}

#[test]
fn position_round_trips_over_a_grid() {
    let samples = [-32768i16, -12345, -256, -1, 0, 1, 255, 256, 12345, 32767];
    for x in samples {
        for y in samples {
            assert_eq!(get_pos(pack(x, y)), Pos { x, y });
            assert_eq!(get_pos(pack_sign_extended(x, y)), Pos { x, y });
        }
    }
}

#[test]
fn mouse_modifiers_read_control_and_shift() {
    assert_eq!(get_mouse_modifiers(0), Modifiers::default());
    assert_eq!(
        get_mouse_modifiers(MK_CONTROL),
        Modifiers { alt: false, ctrl: true, shift: false, mac_cmd: false, command: true }
    );
    assert_eq!(
        get_mouse_modifiers(MK_SHIFT),
        Modifiers { alt: false, ctrl: false, shift: true, mac_cmd: false, command: false }
    );
    assert_eq!(
        get_mouse_modifiers(MK_CONTROL | MK_SHIFT | 0x0001 | 0x0078_0000),
        Modifiers { alt: false, ctrl: true, shift: true, mac_cmd: false, command: true }
    );
    assert_eq!(get_mouse_modifiers(0x0001 | 0x0002 | 0x0010), Modifiers::default());
}

#[test]
fn default_modifiers_hold_nothing() {
    assert_eq!(
        Modifiers::default(),
        Modifiers { alt: false, ctrl: false, shift: false, mac_cmd: false, command: false }
    );
}

#[test]
fn key_modifiers_take_alt_from_the_system_key_codes() {
    let plain = Modifiers { alt: false, ctrl: false, shift: false, mac_cmd: false, command: false };
    assert_eq!(get_key_modifiers(WM_KEYDOWN, false, false), plain);
    assert_eq!(get_key_modifiers(WM_KEYUP, false, false), plain);
    assert_eq!(
        get_key_modifiers(WM_SYSKEYDOWN, false, false),
        Modifiers { alt: true, ..plain }
    );
    assert_eq!(
        get_key_modifiers(WM_SYSKEYUP, false, false),
        Modifiers { alt: true, ctrl: false, shift: false, mac_cmd: false, command: false }
    );
}

#[test]
fn key_modifiers_of_system_key_up_keep_control_and_shift() {
    assert_eq!(
        get_key_modifiers(WM_SYSKEYUP, true, true),
        Modifiers { alt: true, ctrl: true, shift: true, mac_cmd: false, command: true }
    );
    assert_eq!(
        get_key_modifiers(WM_SYSKEYUP, false, true),
        Modifiers { alt: true, ctrl: false, shift: true, mac_cmd: false, command: false }
    );
}

#[test]
fn key_modifiers_never_set_the_mac_command_key() {
    for code in [WM_KEYDOWN, WM_KEYUP, WM_SYSKEYDOWN, WM_SYSKEYUP] {
        for ctrl in [false, true] {
            for shift in [false, true] {
                let modifiers = get_key_modifiers(code, ctrl, shift);
                assert_eq!(modifiers.alt, code == WM_SYSKEYDOWN || code == WM_SYSKEYUP);
                assert_eq!(modifiers.ctrl, ctrl);
                assert_eq!(modifiers.command, ctrl);
                assert_eq!(modifiers.shift, shift);
                assert!(!modifiers.mac_cmd);
            }
        }
    }
}

#[test]
fn key_modifiers_take_control_and_shift_from_the_live_state() {
    assert_eq!(
        get_key_modifiers(WM_KEYDOWN, true, false),
        Modifiers { alt: false, ctrl: true, shift: false, mac_cmd: false, command: true }
    );
    assert_eq!(
        get_key_modifiers(WM_KEYDOWN, false, true),
        Modifiers { alt: false, ctrl: false, shift: true, mac_cmd: false, command: false }
    );
    assert_eq!(
        get_key_modifiers(WM_SYSKEYDOWN, true, true),
        Modifiers { alt: true, ctrl: true, shift: true, mac_cmd: false, command: true }
    );
}

#[test]
fn wheel_units_are_the_signed_upper_word() {
    assert_eq!(wheel_units(0), 0);
    assert_eq!(wheel_units(120 << 16), 120);
    assert_eq!(wheel_units(((-120i16) as u16 as usize) << 16), -120);
    assert_eq!(wheel_units(0x7FFF_0000), 32767);
    assert_eq!(wheel_units(0x8000_0000), -32768);
    assert_eq!(wheel_units(0x0078_0008), 120);
    assert_eq!(wheel_units(0xFFFF), 0);
}

#[test]
fn extra_button_is_told_by_its_bit() {
    assert_eq!(extra_button(0x0001_0000), Some(PointerButton::Extra1));
    assert_eq!(extra_button(0x0002_0000), Some(PointerButton::Extra2));
    assert_eq!(extra_button(0x0003_0000), Some(PointerButton::Extra1));
    assert_eq!(extra_button(0x0002_0020), Some(PointerButton::Extra2));
}

#[test]
fn extra_button_is_absent_without_either_bit() {
    assert_eq!(extra_button(0), None);
    assert_eq!(extra_button(0x0004_0000), None);
    assert_eq!(extra_button(0x0000_0003), None);
}

#[test]
fn repeat_is_bit_fourteen() {
    assert!(!is_repeat(0));
    assert!(is_repeat(0x4000));
    assert!(is_repeat(0x4001));
    assert!(!is_repeat(0x4000_0000));
    assert!(!is_repeat(0x3FFF));
    assert!(is_repeat(-1));
}

#[test]
fn every_code_is_sorted_into_its_category() {
    assert_eq!(classify(WM_MOUSEMOVE), MessageKind::PointerMove);
    let buttons = [
        (WM_LBUTTONDOWN, ButtonGroup::Left, true),
        (WM_LBUTTONDBLCLK, ButtonGroup::Left, true),
        (WM_LBUTTONUP, ButtonGroup::Left, false),
        (WM_RBUTTONDOWN, ButtonGroup::Right, true),
        (WM_RBUTTONDBLCLK, ButtonGroup::Right, true),
        (WM_RBUTTONUP, ButtonGroup::Right, false),
        (WM_MBUTTONDOWN, ButtonGroup::Middle, true),
        (WM_MBUTTONDBLCLK, ButtonGroup::Middle, true),
        (WM_MBUTTONUP, ButtonGroup::Middle, false),
        (WM_XBUTTONDOWN, ButtonGroup::Extra, true),
        (WM_XBUTTONDBLCLK, ButtonGroup::Extra, true),
        (WM_XBUTTONUP, ButtonGroup::Extra, false),
    ];
    for (code, group, pressed) in buttons {
        assert_eq!(classify(code), MessageKind::Button { group, pressed });
    }
    assert_eq!(classify(WM_CHAR), MessageKind::Char);
    assert_eq!(classify(WM_MOUSEWHEEL), MessageKind::Wheel { horizontal: false });
    assert_eq!(classify(WM_MOUSEHWHEEL), MessageKind::Wheel { horizontal: true });
    assert_eq!(classify(WM_KEYDOWN), MessageKind::Key { pressed: true, system: false });
    assert_eq!(classify(WM_SYSKEYDOWN), MessageKind::Key { pressed: true, system: true });
    assert_eq!(classify(WM_KEYUP), MessageKind::Key { pressed: false, system: false });
    assert_eq!(classify(WM_SYSKEYUP), MessageKind::Key { pressed: false, system: true });
}

#[test]
fn other_codes_are_other() {
    for code in [0u32, 0x000F, 0x0103, 0x0106, 0x01FF, 0x020F, 0x0400, u32::MAX] {
        assert_eq!(classify(code), MessageKind::Other, "code {code:#x}");
    }
}
