//! The interactive selection state machine, driven through concrete
//! event sequences. Coordinates are in millipixels: 1000 to the pixel.

use cleave::keys::KeyCode;
use cleave::selection::{
    session_command, CleaveState, Direction, PointerButton, Rect, SelectionMode, SessionCommand,
};

fn px(n: i64) -> i64 {
    n * 1000
}

#[test]
fn drag_commit_keeps_the_signed_delta() {
    let mut st = CleaveState::default();
    st.update_cursor(px(10), px(10));
    st.start_drag();
    st.update_cursor(px(5), px(5));
    st.end_drag();
    assert_eq!(
        st.selection.selection,
        Some(Rect { x: px(10), y: px(10), w: px(-5), h: px(-5) })
    );
    assert_eq!(st.selection.drag, None);
}

#[test]
fn press_during_drag_with_delta_is_ignored() {
    let mut st = CleaveState::default();
    st.update_cursor(px(10), px(10));
    st.start_drag();
    st.update_cursor(px(20), px(25));
    let before = st.selection.drag;
    st.start_drag();
    assert_eq!(st.selection.drag, before);
}

#[test]
fn cancel_discards_drag_and_selection() {
    let mut st = CleaveState::default();
    st.update_cursor(px(10), px(10));
    st.start_drag();
    st.end_drag();
    st.cancel_drag();
    assert_eq!(st.selection.drag, None);
    assert_eq!(st.selection.selection, None);
}

#[test]
fn release_without_drag_discards_the_selection() {
    let mut st = CleaveState::default();
    st.update_cursor(px(10), px(10));
    st.handle_button(PointerButton::Primary, true);
    st.update_cursor(px(20), px(20));
    st.handle_button(PointerButton::Primary, false);
    assert!(st.selection.selection.is_some());
    // a stray release with no drag under way clears the commit.
    st.handle_button(PointerButton::Primary, false);
    assert_eq!(st.selection.selection, None);
    assert_eq!(st.selection.drag, None);
}

#[test]
fn resize_right_at_the_edge_leaves_w_unchanged() {
    let mut st = CleaveState::default();
    st.size((px(100), px(100)));
    st.selection.selection = Some(Rect { x: px(20), y: px(10), w: px(80), h: px(30) });
    st.set_mode(SelectionMode::Resize);
    let moved = st.handle_move(Direction::Right);
    assert_eq!(moved, Some(()));
    assert_eq!(
        st.selection.selection,
        Some(Rect { x: px(20), y: px(10), w: px(80), h: px(30) })
    );
}

#[test]
fn nudge_without_viewport_is_ignored() {
    let mut st = CleaveState::default();
    st.selection.selection = Some(Rect { x: px(20), y: px(10), w: px(10), h: px(10) });
    assert_eq!(st.handle_move(Direction::Right), None);
    assert_eq!(
        st.selection.selection,
        Some(Rect { x: px(20), y: px(10), w: px(10), h: px(10) })
    );
}

#[test]
fn move_translates_and_clamps_each_edge() {
    let mut st = CleaveState::default();
    st.size((px(100), px(100)));
    st.selection.selection = Some(Rect { x: 0, y: px(50), w: px(5), h: px(5) });
    st.set_mode(SelectionMode::Move);
    st.handle_move(Direction::Left);
    // the anchor is already on the border: it stays, the far edge comes in.
    assert_eq!(
        st.selection.selection,
        Some(Rect { x: 0, y: px(50), w: px(4), h: px(5) })
    );
}

#[test]
fn inverse_resize_moves_the_anchor_and_pins_the_far_edge() {
    let mut st = CleaveState::default();
    st.size((px(100), px(100)));
    st.selection.selection = Some(Rect { x: px(10), y: px(10), w: px(5), h: px(5) });
    st.set_mode(SelectionMode::InverseResize);
    st.handle_move(Direction::Right);
    assert_eq!(
        st.selection.selection,
        Some(Rect { x: px(11), y: px(10), w: px(4), h: px(5) })
    );
}

#[test]
fn modifier_edges_switch_the_mode() {
    let mut st = CleaveState::default();
    assert_eq!(st.mode, SelectionMode::Move);
    st.handle_key(KeyCode::ShiftLeft, true);
    assert_eq!(st.mode, SelectionMode::InverseResize);
    st.handle_key(KeyCode::ShiftLeft, false);
    assert_eq!(st.mode, SelectionMode::Move);
    st.handle_key(KeyCode::ControlLeft, true);
    assert_eq!(st.mode, SelectionMode::Resize);
    st.handle_key(KeyCode::ControlLeft, false);
    assert_eq!(st.mode, SelectionMode::Move);
}

#[test]
fn release_with_another_modifier_held_keeps_the_mode() {
    let mut st = CleaveState::default();
    st.handle_key(KeyCode::ControlLeft, true);
    assert_eq!(st.mode, SelectionMode::Resize);
    st.handle_key(KeyCode::ShiftLeft, true);
    assert_eq!(st.mode, SelectionMode::InverseResize);
    // Shift is still held, so releasing Control does not fall back to Move.
    st.handle_key(KeyCode::ControlLeft, false);
    assert_eq!(st.mode, SelectionMode::InverseResize);
    st.handle_key(KeyCode::ShiftLeft, false);
    assert_eq!(st.mode, SelectionMode::Move);
}

#[test]
fn both_shifts_held_survive_one_release() {
    let mut st = CleaveState::default();
    st.handle_key(KeyCode::ShiftLeft, true);
    st.handle_key(KeyCode::ShiftRight, true);
    st.handle_key(KeyCode::ShiftLeft, false);
    assert_eq!(st.mode, SelectionMode::InverseResize);
    st.handle_key(KeyCode::ShiftRight, false);
    assert_eq!(st.mode, SelectionMode::Move);
}

#[test]
fn arrow_keys_nudge_through_handle_key() {
    let mut st = CleaveState::default();
    st.size((px(100), px(100)));
    st.selection.selection = Some(Rect { x: px(10), y: px(10), w: px(5), h: px(5) });
    st.handle_key(KeyCode::ArrowDown, true);
    // Move mode: the whole rectangle translates down a pixel.
    assert_eq!(
        st.selection.selection,
        Some(Rect { x: px(10), y: px(11), w: px(5), h: px(5) })
    );
}

#[test]
fn pointer_buttons_drive_the_lifecycle() {
    let mut st = CleaveState::default();
    st.update_cursor(px(10), px(10));
    st.handle_button(PointerButton::Primary, true);
    st.update_cursor(px(25), px(30));
    st.handle_button(PointerButton::Primary, false);
    assert_eq!(
        st.selection.selection,
        Some(Rect { x: px(10), y: px(10), w: px(15), h: px(20) })
    );
    // a secondary edge cancels everything; other buttons do nothing.
    st.handle_button(PointerButton::Other, true);
    assert!(st.selection.selection.is_some());
    st.handle_button(PointerButton::Secondary, true);
    assert_eq!(st.selection.selection, None);
    assert_eq!(st.selection.drag, None);
}

#[test]
fn session_commands() {
    assert_eq!(session_command(KeyCode::Escape, true), SessionCommand::Exit);
    assert_eq!(session_command(KeyCode::Space, true), SessionCommand::Export);
    assert_eq!(session_command(KeyCode::Space, false), SessionCommand::Edit);
    assert_eq!(session_command(KeyCode::KeyA, true), SessionCommand::Edit);
}
