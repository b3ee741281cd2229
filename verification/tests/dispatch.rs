use gui_shell::application::{Action, Application, ModifierState, WindowEvent};
use gui_shell::capability::CapabilitySet;
use gui_shell::window::{Window, FRAME_INTERVAL_NANOS};

fn caps() -> CapabilitySet {
    CapabilitySet { supports_transparency: true, sample_count: 4, stencil_depth: 8 }
}

fn window(id: u64) -> Window {
    Window::new(id, 500, 500, 1000, &caps(), 0)
}

/// An application with windows carrying ids 1..=count, in that order.
fn app_with(count: u64) -> Application {
    let mut app = Application::new(caps(), window(1));
    for id in 2..=count {
        app.register_window(window(id));
    }
    app
}

fn key(c: char, released: bool, repeat: bool) -> WindowEvent {
    WindowEvent::KeyInput { key: Some(c), released, repeat }
}

fn repaint_targets(actions: &[Action]) -> Vec<u64> {
    actions
        .iter()
        .filter_map(|a| match a {
            Action::Repaint { id, .. } => Some(*id),
            _ => None,
        })
        .collect()
}

fn redraw_targets(actions: &[Action]) -> Vec<u64> {
    actions
        .iter()
        .filter_map(|a| match a {
            Action::RequestRedraw { id } => Some(*id),
            _ => None,
        })
        .collect()
}

#[test]
fn event_for_unregistered_window_is_dropped() {
    let mut app = app_with(2);
    let actions = app.handle_window_event(99, WindowEvent::CloseRequested, 0);
    assert!(actions.is_empty());
    assert_eq!(app.registry.len(), 2);
}

#[test]
fn resize_event_reaches_the_target_window_only() {
    let mut app = app_with(2);
    let actions = app.handle_window_event(2, WindowEvent::Resized { width: 640, height: 480 }, 0);
    assert_eq!(actions.len(), 1);
    match &actions[0] {
        Action::ResizeSurface { id, width, height } => {
            assert_eq!((*id, *width, *height), (2, 640, 480));
        }
        other => panic!("expected a surface resize, got {:?}", other),
    }
    assert_eq!(app.registry.get(2).map(|w| (w.canvas.width, w.canvas.height)), Some((640, 480)));
    assert_eq!(app.registry.get(1).map(|w| (w.canvas.width, w.canvas.height)), Some((500, 500)));
}

#[test]
fn close_request_removes_the_window_and_destroys_it() {
    let mut app = app_with(3);
    let actions = app.handle_window_event(2, WindowEvent::CloseRequested, 0);
    assert_eq!(actions.len(), 1);
    assert!(matches!(actions[0], Action::DestroyWindow { id: 2 }));
    assert_eq!(app.registry.len(), 2);
    assert_eq!(app.registry.index_of(1), Some(0));
    assert_eq!(app.registry.index_of(3), Some(1));
    assert!(!app.exiting);
    assert_eq!(app.current_context, Some(2));
}

#[test]
fn closing_the_last_window_signals_exit() {
    let mut app = app_with(1);
    let actions = app.handle_window_event(1, WindowEvent::CloseRequested, 0);
    assert_eq!(actions.len(), 2);
    assert!(matches!(actions[0], Action::DestroyWindow { id: 1 }));
    assert!(matches!(actions[1], Action::Exit));
    assert!(app.exiting);
    assert_eq!(app.registry.len(), 0);
    assert!(app.tick().is_none());
}

#[test]
fn quit_key_closes_like_an_external_close_request() {
    let mut by_key = app_with(3);
    let mut by_request = app_with(3);
    let key_actions = by_key.handle_window_event(2, key('q', true, false), 7);
    let request_actions = by_request.handle_window_event(2, WindowEvent::CloseRequested, 7);
    assert_eq!(key_actions.len(), request_actions.len());
    assert!(matches!(key_actions[0], Action::DestroyWindow { id: 2 }));
    assert!(matches!(request_actions[0], Action::DestroyWindow { id: 2 }));
    assert_eq!(by_key.registry.len(), by_request.registry.len());
    assert_eq!(by_key.exiting, by_request.exiting);
    for id in [1u64, 3] {
        assert_eq!(by_key.registry.index_of(id), by_request.registry.index_of(id));
    }
}

#[test]
fn quit_key_on_the_last_window_ends_the_loop() {
    let mut app = app_with(1);
    let actions = app.handle_window_event(1, key('q', true, false), 0);
    assert!(matches!(actions[1], Action::Exit));
    assert!(app.exiting);
    assert_eq!(app.registry.len(), 0);
}

#[test]
fn open_shortcut_titles_the_window_with_the_current_count() {
    let mut app = app_with(2);
    let actions = app.handle_window_event(1, key('a', true, false), 0);
    assert_eq!(actions.len(), 1);
    match &actions[0] {
        Action::OpenWindow { title } => assert_eq!(title.as_str(), "Window 2"),
        other => panic!("expected an open action, got {:?}", other),
    }
    // The window itself is registered once the windowing layer created it.
    assert_eq!(app.registry.len(), 2);
    app.register_window(window(7));
    assert_eq!(app.registry.len(), 3);
    assert_eq!(app.registry.index_of(7), Some(2));
}

#[test]
fn open_shortcut_count_is_not_a_running_counter() {
    let mut app = app_with(3);
    app.handle_window_event(3, WindowEvent::CloseRequested, 0);
    let actions = app.handle_window_event(1, key('a', true, false), 0);
    match &actions[0] {
        Action::OpenWindow { title } => assert_eq!(title.as_str(), "Window 2"),
        other => panic!("expected an open action, got {:?}", other),
    }
}

#[test]
fn shortcuts_fire_only_on_release_without_auto_repeat() {
    let mut app = app_with(2);
    assert!(app.handle_window_event(1, key('q', false, false), 0).is_empty());
    assert!(app.handle_window_event(1, key('q', true, true), 0).is_empty());
    assert!(app.handle_window_event(1, key('a', false, true), 0).is_empty());
    assert!(app.handle_window_event(1, key('x', true, false), 0).is_empty());
    assert!(app
        .handle_window_event(1, WindowEvent::KeyInput { key: None, released: true, repeat: false }, 0)
        .is_empty());
    assert_eq!(app.registry.len(), 2);
}

#[test]
fn modifier_changes_update_shared_state_and_nothing_else() {
    let mut app = app_with(1);
    let mods = ModifierState { shift: true, control: false, alt: true, logo: false };
    let actions = app.handle_window_event(1, WindowEvent::ModifiersChanged { modifiers: mods }, 0);
    assert!(actions.is_empty());
    assert_eq!(app.modifiers, mods);
}

#[test]
fn ignored_events_are_no_ops() {
    let mut app = app_with(2);
    let actions = app.handle_window_event(1, WindowEvent::Ignored, 0);
    assert!(actions.is_empty());
    assert_eq!(app.registry.len(), 2);
}

#[test]
fn tick_asks_the_first_window_to_redraw() {
    let app = app_with(3);
    match app.tick() {
        Some(Action::RequestRedraw { id }) => assert_eq!(id, 1),
        other => panic!("expected a redraw request for the first window, got {:?}", other),
    }
}

#[test]
fn redraw_cascade_visits_every_window_once_in_order() {
    let mut app = app_with(3);
    let t: u64 = FRAME_INTERVAL_NANOS + 1;
    let mut asked: Vec<u64> = Vec::new();
    let mut painted: Vec<u64> = Vec::new();
    let mut next = match app.tick() {
        Some(Action::RequestRedraw { id }) => Some(id),
        other => panic!("expected a redraw request, got {:?}", other),
    };
    while let Some(id) = next {
        asked.push(id);
        let actions = app.handle_window_event(id, WindowEvent::RedrawRequested, t);
        painted.extend(repaint_targets(&actions));
        let chain = redraw_targets(&actions);
        assert!(chain.len() <= 1);
        next = chain.first().copied();
    }
    assert_eq!(asked, vec![1, 2, 3]);
    assert_eq!(painted, vec![1, 2, 3]);
}

#[test]
fn frame_gate_allows_at_most_one_repaint_per_interval() {
    let mut app = app_with(2);
    let t1: u64 = FRAME_INTERVAL_NANOS + 1;
    let first = app.handle_window_event(1, WindowEvent::RedrawRequested, t1);
    assert_eq!(repaint_targets(&first), vec![1]);
    assert_eq!(redraw_targets(&first), vec![2]);
    // A second request for the same window, less than one interval later:
    // no repaint, but the cascade still proceeds to the next window.
    let t2 = t1 + FRAME_INTERVAL_NANOS / 2;
    let second = app.handle_window_event(1, WindowEvent::RedrawRequested, t2);
    assert!(repaint_targets(&second).is_empty());
    assert_eq!(redraw_targets(&second), vec![2]);
    // After more than one interval since the last repaint, repainting
    // resumes.
    let t3 = t1 + FRAME_INTERVAL_NANOS + 1;
    let third = app.handle_window_event(1, WindowEvent::RedrawRequested, t3);
    assert_eq!(repaint_targets(&third), vec![1]);
}

#[test]
fn repaints_carry_the_advanced_frame_index() {
    let mut app = app_with(1);
    let t1: u64 = FRAME_INTERVAL_NANOS + 1;
    let first = app.handle_window_event(1, WindowEvent::RedrawRequested, t1);
    match &first[0] {
        Action::Repaint { id, frame, .. } => {
            assert_eq!(*id, 1);
            assert_eq!(*frame, 1);
        }
        other => panic!("expected a repaint, got {:?}", other),
    }
    let t2 = t1 + FRAME_INTERVAL_NANOS + 1;
    let second = app.handle_window_event(1, WindowEvent::RedrawRequested, t2);
    match &second[0] {
        Action::Repaint { frame, .. } => assert_eq!(*frame, 2),
        other => panic!("expected a repaint, got {:?}", other),
    }
    assert!(app.frames_in_range());
}

#[test]
fn cascade_stops_when_its_target_was_closed() {
    let mut app = app_with(3);
    let t: u64 = FRAME_INTERVAL_NANOS + 1;
    let actions = app.handle_window_event(1, WindowEvent::RedrawRequested, t);
    assert_eq!(redraw_targets(&actions), vec![2]);
    app.handle_window_event(2, WindowEvent::CloseRequested, t);
    // The queued redraw for the closed window finds no target: the
    // cascade stops naturally rather than being cancelled.
    let stale = app.handle_window_event(2, WindowEvent::RedrawRequested, t);
    assert!(stale.is_empty());
}
