use egui_glow_internal::event::{Event, Fraction, Modifiers, Pos};
use egui_glow_internal::frame::{get_raw_input, PREDICTED_FRAME_RATE, TICKS_PER_SECOND};

#[test]
fn snapshot_takes_every_pending_event_in_order() {
    let mut queue = vec![Event::Copy, Event::PointerMoved(Pos { x: 1, y: 2 }), Event::Cut];
    let input = get_raw_input(&mut queue, None, 800, 600, 0);
    assert_eq!(
        input.events,
        vec![Event::Copy, Event::PointerMoved(Pos { x: 1, y: 2 }), Event::Cut]
    );
    assert!(queue.is_empty());
}

#[test]
fn snapshot_of_an_empty_queue_has_no_events() {
    let mut queue = Vec::new();
    let input = get_raw_input(&mut queue, None, 1, 1, 0);
    assert!(input.events.is_empty());
    assert!(queue.is_empty());
}

#[test]
fn snapshot_defaults_to_no_modifiers() {
    let mut queue = Vec::new();
    let input = get_raw_input(&mut queue, None, 1, 1, 0);
    assert_eq!(input.modifiers, Modifiers::default());
}

#[test]
fn snapshot_carries_the_modifiers_known() {
    let held = Modifiers { alt: true, ctrl: true, shift: false, mac_cmd: false, command: true };
    let mut queue = Vec::new();
    let input = get_raw_input(&mut queue, Some(held), 1, 1, 0);
    assert_eq!(input.modifiers, held);
}

#[test]
fn snapshot_fixes_the_rest() {
    let mut queue = Vec::new();
    let input = get_raw_input(&mut queue, None, 1920, 1080, 133_444_555_666_777_888);
    assert_eq!(input.screen_width, 1920);
    assert_eq!(input.screen_height, 1080);
    assert_eq!(input.time_ticks, 133_444_555_666_777_888);
    assert_eq!(input.max_texture_side, None);
    assert_eq!(input.predicted_dt, Fraction { num: 1, den: 60 });
    assert!(input.hovered_files.is_empty());
    assert!(input.dropped_files.is_empty());
    assert!(input.focused);
}

#[test]
fn frame_time_is_a_sixtieth_of_a_second() {
    let mut queue = Vec::new();
    let input = get_raw_input(&mut queue, None, 1, 1, 0);
    assert_eq!(PREDICTED_FRAME_RATE, 60);
    assert_eq!(input.predicted_dt.num as f32 / input.predicted_dt.den as f32, 1.0 / 60.0);
}

#[test]
fn a_second_has_ten_million_ticks() {
    assert_eq!(TICKS_PER_SECOND, 10_000_000);
    let mut queue = Vec::new();
    let input = get_raw_input(&mut queue, None, 1, 1, 25_000_000);
    assert_eq!(input.time_ticks as f64 / TICKS_PER_SECOND as f64, 2.5);
}
