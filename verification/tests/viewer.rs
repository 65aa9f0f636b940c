use render_core::{
    mesh_layout, BufferElementType, Cursor, Key, Reaction, ScanKind, StlContext, Turn,
    VertexBufferElement, WindowInput, WindowState,
};

fn key(key: Key) -> WindowInput {
    WindowInput::KeyboardInput { key, pressed: true }
}

#[test]
fn window_state_starts_cleared() {
    let state = WindowState::new();
    assert!(!state.is_paused);
    assert!(!state.is_window_focused);
    assert!(!state.is_window_hovered);
    assert!(!state.is_mouse_pressed);
    assert!(!state.ctrl);
    assert!(!state.drags());
}

#[test]
fn toggle_paused_flips_only_the_pause() {
    let mut state = WindowState::new();
    state.toggle_paused();
    assert_eq!(state, WindowState { is_paused: true, ..WindowState::new() });
    state.toggle_paused();
    assert_eq!(state, WindowState::new());
}

#[test]
fn window_events_update_what_the_viewer_remembers() {
    let mut state = WindowState::new();
    assert_eq!(state.handle_window_event(WindowInput::Focused(true)), Reaction::Nothing);
    assert!(state.is_window_focused);
    assert_eq!(state.handle_window_event(WindowInput::CursorEntered), Reaction::Nothing);
    assert!(state.is_window_hovered);
    assert_eq!(state.handle_window_event(WindowInput::CursorLeft), Reaction::Nothing);
    assert!(!state.is_window_hovered);
    assert_eq!(
        state.handle_window_event(WindowInput::ModifiersChanged { ctrl: true }),
        Reaction::Nothing
    );
    assert!(state.ctrl);
    assert_eq!(state.handle_window_event(WindowInput::Focused(false)), Reaction::Nothing);
    assert_eq!(state.handle_window_event(WindowInput::Other), Reaction::Nothing);
    assert_eq!(state, WindowState { ctrl: true, ..WindowState::new() });
}

#[test]
fn mouse_buttons_grab_and_release() {
    let mut state = WindowState::new();
    assert_eq!(
        state.handle_window_event(WindowInput::MouseInput { pressed: true }),
        Reaction::SetCursor(Cursor::Grabbing)
    );
    assert!(state.is_mouse_pressed);
    assert_eq!(
        state.handle_window_event(WindowInput::MouseInput { pressed: false }),
        Reaction::SetCursor(Cursor::Default)
    );
    assert!(!state.is_mouse_pressed);
}

#[test]
fn resize_asks_for_the_new_viewport() {
    let mut state = WindowState::new();
    assert_eq!(
        state.handle_window_event(WindowInput::Resized { width: 800, height: 600 }),
        Reaction::Resize { width: 800, height: 600 }
    );
    assert_eq!(state, WindowState::new());
}

#[test]
fn keys_map_to_their_reactions() {
    let cases = [
        (Key::Left, Reaction::Turn(Turn::Left)),
        (Key::Right, Reaction::Turn(Turn::Right)),
        (Key::Up, Reaction::Turn(Turn::Up)),
        (Key::Down, Reaction::Turn(Turn::Down)),
        (Key::Q, Reaction::Exit),
        (Key::C, Reaction::Nothing),
        (Key::W, Reaction::Label(ScanKind::W)),
        (Key::A, Reaction::Label(ScanKind::A)),
        (Key::S, Reaction::Label(ScanKind::S)),
        (Key::D, Reaction::Label(ScanKind::D)),
        (Key::Other, Reaction::Nothing),
    ];
    for (pressed, reaction) in cases {
        let mut state = WindowState::new();
        assert_eq!(state.handle_window_event(key(pressed)), reaction);
        assert_eq!(state, WindowState::new());
    }
}

#[test]
fn released_keys_do_nothing() {
    for released in [Key::Left, Key::P, Key::Q, Key::C, Key::W, Key::Other] {
        let mut state = WindowState { ctrl: true, ..WindowState::new() };
        assert_eq!(
            state.handle_window_event(WindowInput::KeyboardInput { key: released, pressed: false }),
            Reaction::Nothing
        );
        assert_eq!(state, WindowState { ctrl: true, ..WindowState::new() });
    }
}

#[test]
fn p_pauses_and_resumes() {
    let mut state = WindowState::new();
    assert_eq!(state.handle_window_event(key(Key::P)), Reaction::Nothing);
    assert!(state.is_paused);
    assert_eq!(state.handle_window_event(key(Key::P)), Reaction::Nothing);
    assert!(!state.is_paused);
}

#[test]
fn the_viewer_is_left_by_close_q_and_ctrl_c() {
    let mut state = WindowState::new();
    assert_eq!(state.handle_window_event(WindowInput::CloseRequested), Reaction::Exit);
    assert_eq!(state.handle_window_event(key(Key::Q)), Reaction::Exit);
    assert_eq!(state.handle_window_event(key(Key::C)), Reaction::Nothing);
    state.handle_window_event(WindowInput::ModifiersChanged { ctrl: true });
    assert_eq!(state.handle_window_event(key(Key::C)), Reaction::Exit);
    state.handle_window_event(WindowInput::ModifiersChanged { ctrl: false });
    assert_eq!(state.handle_window_event(key(Key::C)), Reaction::Nothing);
}

#[test]
fn dragging_needs_focus_a_button_and_no_pause() {
    for bits in 0..8u8 {
        let state = WindowState {
            is_paused: bits & 1 != 0,
            is_window_focused: bits & 2 != 0,
            is_mouse_pressed: bits & 4 != 0,
            ..WindowState::new()
        };
        assert_eq!(state.drags(), bits == 0b110);
    }
}

#[test]
fn queue_hands_out_its_paths_in_order() {
    let mut context = StlContext::new(vec!["a.stl".to_string(), "b.stl".to_string()]);
    assert_eq!(context.cursor(), 0);
    assert_eq!(context.label(), None);
    assert_eq!(context.load_next(), Some("a.stl"));
    assert_eq!(context.cursor(), 1);
    assert_eq!(context.label(), Some("a.stl"));
    assert_eq!(context.label(), Some("a.stl"));
    assert_eq!(context.load_next(), Some("b.stl"));
    assert_eq!(context.cursor(), 2);
    assert_eq!(context.label(), Some("b.stl"));
}

#[test]
fn used_up_queue_keeps_the_last_mesh_on_show() {
    let mut context = StlContext::new(vec!["only.stl".to_string()]);
    assert_eq!(context.load_next(), Some("only.stl"));
    assert_eq!(context.load_next(), None);
    assert_eq!(context.load_next(), None);
    assert_eq!(context.cursor(), 1);
    assert_eq!(context.label(), Some("only.stl"));
}

#[test]
fn empty_queue_shows_nothing() {
    let mut context = StlContext::new(vec![]);
    assert_eq!(context.load_next(), None);
    assert_eq!(context.label(), None);
    assert_eq!(context.cursor(), 0);
}

#[test]
fn mesh_records_are_position_and_normal() {
    let layout = mesh_layout();
    let attribute =
        VertexBufferElement { count: 3, ty: BufferElementType::Float, normalized: false };
    assert_eq!(layout.elements(), &[attribute, attribute]);
    assert_eq!(layout.stride(), 24);
}
