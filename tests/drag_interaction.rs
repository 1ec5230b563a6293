use newtons_cradle::interaction::{CursorState, DragState};
use newtons_cradle::{BodyId, Vec3};

fn ball() -> BodyId {
    BodyId::new(42)
}

#[test]
fn session_starts_idle_at_origin() {
    let s = CursorState::setup_cursor_entity();
    assert_eq!(s.current_hit_entity, None);
    assert_eq!(s.drag, DragState::Idle);
    assert_eq!(s.interactor_position, Vec3::new(0, 0, 0));
    assert!(!s.is_dragging());
}

#[test]
fn pick_records_hit_and_clears_on_miss() {
    let mut s = CursorState::setup_cursor_entity();
    s.my_cursor_system(Some(ball()));
    assert_eq!(s.current_hit_entity, Some(ball()));
    let once = s;
    s.my_cursor_system(Some(ball()));
    assert_eq!(s, once);
    s.my_cursor_system(None);
    assert_eq!(s.current_hit_entity, None);
}

#[test]
fn release_without_drag_is_a_no_op() {
    let mut s = CursorState::setup_cursor_entity();
    s.my_cursor_system(Some(ball()));
    let before = s;
    assert_eq!(s.handle_drag_release(true), None);
    assert_eq!(s, before);
    assert_eq!(s.drag, DragState::Idle);
}

#[test]
fn press_over_empty_space_creates_no_joint() {
    let mut s = CursorState::setup_cursor_entity();
    s.my_cursor_system(None);
    let positions = vec![(ball(), Vec3::new(1, 2, 3))];
    assert_eq!(s.handle_drag_selection(true, &positions), None);
    assert_eq!(s.drag, DragState::Idle);
    s.handle_drag(&vec![(10, 0)], 100_000);
    assert_eq!(s.interactor_position, Vec3::new(0, 0, 0));
    assert_eq!(s.handle_drag_release(true), None);
    assert_eq!(s.drag, DragState::Idle);
}

#[test]
fn press_without_a_new_press_edge_does_nothing() {
    let mut s = CursorState::setup_cursor_entity();
    s.my_cursor_system(Some(ball()));
    let before = s;
    assert_eq!(s.handle_drag_selection(false, &vec![]), None);
    assert_eq!(s, before);
}

#[test]
fn drag_ten_units_right_over_one_second() {
    let mut s = CursorState::setup_cursor_entity();
    s.my_cursor_system(Some(ball()));
    let start = Vec3::new(7_500_000, -10_000_000, 0);
    let positions = vec![(BodyId::new(7), Vec3::new(9, 9, 9)), (ball(), start)];
    let mut created = 0;
    let mut removed = 0;
    if s.handle_drag_selection(true, &positions) == Some(ball()) {
        created += 1;
    }
    assert_eq!(s.drag, DragState::Dragging { target: ball() });
    assert_eq!(s.interactor_position, start);
    // A second press while dragging makes no second joint.
    assert_eq!(s.handle_drag_selection(true, &positions), None);
    // 100 ticks of 10 ms, each with a motion of 10 pixels to the right.
    for _ in 0..100 {
        s.handle_drag(&vec![(10, 0)], 10_000);
    }
    assert_eq!(s.interactor_position, Vec3::new(start.x + 10_000_000, start.y, start.z));
    if s.handle_drag_release(true) == Some(ball()) {
        removed += 1;
    }
    assert_eq!(s.handle_drag_release(true), None);
    assert_eq!((created, removed), (1, 1));
    assert_eq!(s.drag, DragState::Idle);
}

#[test]
fn drag_inverts_screen_y() {
    let mut s = CursorState::setup_cursor_entity();
    s.my_cursor_system(Some(ball()));
    assert_eq!(s.handle_drag_selection(true, &vec![]), Some(ball()));
    // No recorded position: the pointer's body stays where it was.
    assert_eq!(s.interactor_position, Vec3::new(0, 0, 0));
    s.handle_drag(&vec![(2, 3), (-1, -5)], 1000);
    assert_eq!(s.interactor_position, Vec3::new(1000, 2000, 0));
}

#[test]
fn drag_position_saturates() {
    let mut s = CursorState::setup_cursor_entity();
    s.my_cursor_system(Some(ball()));
    let far = Vec3::new(i64::MAX - 10, i64::MIN + 10, 0);
    s.handle_drag_selection(true, &vec![(ball(), far)]);
    s.handle_drag(&vec![(i32::MAX, i32::MAX)], u32::MAX);
    assert_eq!(s.interactor_position, Vec3::new(i64::MAX, i64::MIN, 0));
}
