use gameboy_core::layout::{Layout, PADDING};

#[test]
fn pictures_stack_in_a_column() {
    let mut l = Layout::new();
    assert_eq!(l, Layout { x: 10, y: 10, col_w: 0 });
    assert_eq!(l, Layout::default());
    assert!(l.can_place(256, 256, 2));
    assert_eq!(l.stack(256, 256, 2), (10, 10));
    assert_eq!(l, Layout { x: 10, y: 532, col_w: 512 });
    assert_eq!(l.stack(100, 50, 3), (10, 532));
    assert_eq!(l, Layout { x: 10, y: 692, col_w: 512 });
    assert_eq!(l.stack(200, 1, 3), (10, 692));
    assert_eq!(l.col_w, 600);
}

#[test]
fn next_starts_a_new_column() {
    let mut l = Layout::new();
    l.stack(256, 256, 2);
    assert_eq!(l.next(160, 144, 3), (532, PADDING));
    assert_eq!(l, Layout { x: 532, y: 452, col_w: 480 });
    assert_eq!(l.stack(128, 192, 3), (532, 452));
    assert_eq!(l.next(32, 256, 3), (1022, 10));
}

#[test]
fn pictures_that_do_not_fit_are_told_apart() {
    let l = Layout::new();
    assert!(l.can_place(0, 0, 0));
    assert!(!l.can_place(i32::MAX, 1, 2));
    assert!(!l.can_place(1, i32::MAX, 1));
    assert!(l.can_place(1, i32::MAX - 20, 1));
    assert!(!l.can_place(1, i32::MAX - 19, 1));
    let far = Layout { x: i32::MAX - 5, y: 0, col_w: 0 };
    assert!(!far.can_place(1, 1, 1));
    let wide = Layout { x: 0, y: 0, col_w: i32::MAX - 5 };
    assert!(!wide.can_place(1, 1, 1));
}
