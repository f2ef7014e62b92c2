use kvm_hub::pointer::{cursor_in_screen, Pointer, PointerAction};

#[test]
fn pointer_inside_screen_stays() {
    let mut p = Pointer::new(100, 100);
    assert_eq!(p.update_cursor(120, 90, 1920, 1080), PointerAction::Stay);
    assert_eq!((p.x, p.y, p.real_x, p.real_y, p.focused), (120, 90, 120, 90, true));
}

#[test]
fn pointer_leaving_is_captured_then_recentered() {
    let mut p = Pointer::new(1900, 500);
    assert_eq!(p.update_cursor(1919, 500, 1920, 1080), PointerAction::Capture { warp_x: 960, warp_y: 540 });
    assert_eq!((p.x, p.y, p.focused), (1919, 500, false));
    assert_eq!(p.update_cursor(1000, 540, 1920, 1080), PointerAction::Recenter { warp_x: 960, warp_y: 540 });
    assert_eq!(p.x, 1959);
    let a = p.update_cursor(860, 540, 1920, 1080);
    assert_eq!(a, PointerAction::Release { warp_x: 1859, warp_y: 500 });
    assert_eq!((p.real_x, p.real_y, p.focused), (1859, 500, true));
}

#[test]
fn pointer_border_pixels_are_outside() {
    assert!(!cursor_in_screen(0, 10, 1920, 1080));
    assert!(!cursor_in_screen(1919, 10, 1920, 1080));
    assert!(cursor_in_screen(1918, 1078, 1920, 1080));
    assert!(!cursor_in_screen(5, 5, 0, 0));
}

#[test]
fn pointer_motion_saturates() {
    let mut p = Pointer { x: i64::MAX - 1, y: 0, real_x: 0, real_y: 0, focused: false };
    p.update_cursor(100, 0, 1920, 1080);
    assert_eq!(p.x, i64::MAX);
}
