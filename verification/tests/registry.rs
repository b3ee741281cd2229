use gui_shell::capability::CapabilitySet;
use gui_shell::registry::WindowRegistry;
use gui_shell::window::Window;

fn window(id: u64) -> Window {
    let caps = CapabilitySet { supports_transparency: false, sample_count: 0, stencil_depth: 8 };
    Window::new(id, 500, 500, 1000, &caps, 0)
}

#[test]
fn open_appends_in_order() {
    let mut registry = WindowRegistry::new();
    assert!(registry.is_empty());
    assert_eq!(registry.open(window(10)), 0);
    assert_eq!(registry.open(window(20)), 1);
    assert_eq!(registry.open(window(30)), 2);
    assert_eq!(registry.len(), 3);
    assert!(!registry.is_empty());
    assert_eq!(registry.index_of(10), Some(0));
    assert_eq!(registry.index_of(20), Some(1));
    assert_eq!(registry.index_of(30), Some(2));
}

#[test]
fn get_finds_live_windows_only() {
    let mut registry = WindowRegistry::new();
    registry.open(window(10));
    registry.open(window(20));
    assert_eq!(registry.get(20).map(|w| w.id), Some(20));
    assert!(registry.get(99).is_none());
    registry.close(20);
    assert!(registry.get(20).is_none());
}

#[test]
fn close_shifts_later_windows_down_by_one() {
    let mut registry = WindowRegistry::new();
    registry.open(window(10));
    registry.open(window(20));
    registry.open(window(30));
    registry.open(window(40));
    assert!(registry.close(20));
    assert_eq!(registry.len(), 3);
    assert_eq!(registry.index_of(10), Some(0));
    assert_eq!(registry.index_of(30), Some(1));
    assert_eq!(registry.index_of(40), Some(2));
    assert_eq!(registry.index_of(20), None);
    assert_eq!(registry.window_at(1).id, 30);
    assert_eq!(registry.window_at(2).id, 40);
}

#[test]
fn close_of_unknown_id_is_a_no_op() {
    let mut registry = WindowRegistry::new();
    registry.open(window(10));
    assert!(!registry.close(99));
    assert_eq!(registry.len(), 1);
    assert_eq!(registry.index_of(10), Some(0));
    // Closing twice: the second close finds nothing and changes nothing.
    assert!(registry.close(10));
    assert!(!registry.close(10));
    assert!(registry.is_empty());
}

#[test]
fn mapping_matches_positions_through_interleaved_opens_and_closes() {
    let mut registry = WindowRegistry::new();
    registry.open(window(1));
    registry.open(window(2));
    registry.open(window(3));
    registry.close(1);
    registry.open(window(4));
    registry.close(3);
    registry.open(window(5));
    // Live order is now [2, 4, 5]; every id maps to its live position and
    // to no other (no stale or duplicate indices).
    assert_eq!(registry.len(), 3);
    let live = [(2u64, 0usize), (4, 1), (5, 2)];
    for (id, index) in live {
        assert_eq!(registry.index_of(id), Some(index));
        assert_eq!(registry.window_at(index).id, id);
    }
    for dead in [1u64, 3] {
        assert_eq!(registry.index_of(dead), None);
    }
}

#[test]
fn update_at_keeps_positions() {
    let mut registry = WindowRegistry::new();
    registry.open(window(10));
    registry.open(window(20));
    let mut w = registry.window_at(0);
    w.resize(640, 480);
    registry.update_at(0, w);
    assert_eq!(registry.window_at(0).canvas.width, 640);
    assert_eq!(registry.index_of(10), Some(0));
    assert_eq!(registry.index_of(20), Some(1));
}
