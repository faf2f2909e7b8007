use yolo::pointer::{Pointer, POINTER_UNIT};

#[test]
fn center_maps_to_half() {
    assert_eq!(Pointer::from_window(512, 393, 1024, 786), Pointer { x: POINTER_UNIT / 2, y: POINTER_UNIT / 2 });
}

#[test]
fn top_left_is_up_and_bottom_left_is_origin() {
    assert_eq!(Pointer::from_window(0, 0, 800, 600), Pointer { x: 0, y: POINTER_UNIT });
    assert_eq!(Pointer::from_window(0, 600, 800, 600), Pointer { x: 0, y: 0 });
}

#[test]
fn quarter_positions_are_exact() {
    assert_eq!(Pointer::from_window(200, 150, 800, 600), Pointer { x: 16384, y: 49152 });
}

#[test]
fn outside_positions_are_brought_to_the_edge() {
    assert_eq!(Pointer::from_window(-40, 9000, 800, 600), Pointer { x: 0, y: 0 });
    assert_eq!(Pointer::from_window(5000, -3, 800, 600), Pointer { x: POINTER_UNIT, y: POINTER_UNIT });
}

#[test]
fn empty_window_maps_to_origin() {
    assert_eq!(Pointer::from_window(10, 10, 0, 0), Pointer { x: 0, y: 0 });
}

#[test]
fn rounding_is_downward() {
    assert_eq!(Pointer::from_window(1, 0, 3, 1), Pointer { x: 21845, y: POINTER_UNIT });
}
