use tui_game_station::mouse_handler::Rect;
use tui_game_station::toast::{toast_icon, toast_rects, ToastKind, MAX_VISIBLE_TOASTS};

#[test]
fn toasts_stack_in_the_top_right_corner() {
    let r = toast_rects(100, 2);
    assert_eq!(r, vec![Rect { x: 56, y: 1, width: 42, height: 3 }, Rect { x: 56, y: 4, width: 42, height: 3 }]);
    let r = toast_rects(30, 9);
    assert_eq!(r.len(), MAX_VISIBLE_TOASTS);
    assert_eq!(r[3], Rect { x: 2, y: 10, width: 26, height: 3 });
    assert_eq!(toast_rects(3, 1), vec![Rect { x: 1, y: 1, width: 0, height: 3 }]);
    assert!(toast_rects(80, 0).is_empty());
}

#[test]
fn toast_icons() {
    assert_eq!(toast_icon(&ToastKind::Info), "\u{2139} ");
    assert_eq!(toast_icon(&ToastKind::Success), "\u{2714} ");
    assert_eq!(toast_icon(&ToastKind::Warning), "\u{26A0} ");
    assert_eq!(toast_icon(&ToastKind::Error), "\u{2716} ");
}
