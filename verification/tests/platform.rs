use egui_glow_internal::platform::{
    effective_dpi, needs_fallback, resolve_entry_point, size_of_rect, ClientRect, Surface,
    DEFAULT_DPI,
};

#[test]
fn null_surface_is_the_zero_handle() {
    assert!(Surface { handle: 0 }.is_null());
    assert!(!Surface { handle: 1 }.is_null());
    assert!(!Surface { handle: -1 }.is_null());
    assert!(!Surface { handle: isize::MIN }.is_null());
}

#[test]
fn size_of_a_rectangle_is_the_difference_of_its_edges() {
    assert_eq!(size_of_rect(ClientRect { left: 0, top: 0, right: 800, bottom: 600 }), (800, 600));
    assert_eq!(size_of_rect(ClientRect { left: 5, top: 7, right: 5, bottom: 7 }), (0, 0));
    assert_eq!(size_of_rect(ClientRect { left: -10, top: -20, right: 10, bottom: 20 }), (20, 40));
    assert_eq!(
        size_of_rect(ClientRect { left: i32::MIN, top: i32::MIN, right: i32::MAX, bottom: 0 }),
        (u32::MAX, 0x8000_0000)
    );
}

#[test]
fn size_of_an_inverted_rectangle_wraps_at_32_bits() {
    assert_eq!(size_of_rect(ClientRect { left: 1, top: 2, right: 0, bottom: 0 }), (u32::MAX, u32::MAX - 1));
    assert_eq!(
        size_of_rect(ClientRect { left: i32::MAX, top: 0, right: i32::MIN, bottom: 0 }),
        (1, 0)
    );
}

#[test]
fn size_agrees_with_wrapping_subtraction() {
    let edges = [i32::MIN, -1_000_000, -1, 0, 1, 640, 1_000_000, i32::MAX];
    for low in edges {
        for high in edges {
            let expected = high.wrapping_sub(low) as u32;
            let size = size_of_rect(ClientRect { left: low, top: low, right: high, bottom: high });
            assert_eq!(size, (expected, expected));
        }
    }
}

#[test]
fn unknown_dpi_stands_for_the_default() {
    assert_eq!(DEFAULT_DPI, 96);
    assert_eq!(effective_dpi(0), 96);
    assert_eq!(effective_dpi(0) as f32 / DEFAULT_DPI as f32, 1.0);
}

#[test]
fn reported_dpi_is_taken_as_it_is() {
    assert_eq!(effective_dpi(96), 96);
    assert_eq!(effective_dpi(144), 144);
    assert_eq!(effective_dpi(1), 1);
    assert_eq!(effective_dpi(u32::MAX), u32::MAX);
    assert_eq!(effective_dpi(144) as f32 / DEFAULT_DPI as f32, 1.5);
}

#[test]
fn entry_point_comes_from_the_first_loader_that_found_it() {
    assert_eq!(resolve_entry_point(0x1000, 0x2000), 0x1000);
    assert_eq!(resolve_entry_point(0x1000, 0), 0x1000);
    assert_eq!(resolve_entry_point(0, 0x2000), 0x2000);
    assert_eq!(resolve_entry_point(0, 0), 0);
}

#[test]
fn fallback_is_needed_where_the_first_loader_found_nothing() {
    assert!(needs_fallback(0));
    assert!(!needs_fallback(1));
    assert!(!needs_fallback(usize::MAX));
}
