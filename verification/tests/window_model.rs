use gui_shell::canvas::{Color, IDENTITY_SCALE_MILLI};
use gui_shell::capability::CapabilitySet;
use gui_shell::outcome::{exit_code, RunOutcome};
use gui_shell::text::window_title;
use gui_shell::window::{u32_to_nonzero, Window, FRAME_INTERVAL_NANOS};

fn sample_caps() -> CapabilitySet {
    CapabilitySet { supports_transparency: true, sample_count: 4, stencil_depth: 8 }
}

#[test]
fn nonzero_conversion_floors_zero_at_one() {
    assert_eq!(u32_to_nonzero(0), 1);
    assert_eq!(u32_to_nonzero(1), 1);
    assert_eq!(u32_to_nonzero(500), 500);
    assert_eq!(u32_to_nonzero(u32::MAX), u32::MAX);
}

#[test]
fn new_window_copies_capabilities_and_applies_scale() {
    let w = Window::new(7, 800, 600, 2000, &sample_caps(), 123);
    assert_eq!(w.id(), 7);
    assert_eq!(w.canvas.width, 800);
    assert_eq!(w.canvas.height, 600);
    assert_eq!(w.canvas.sample_count, 4);
    assert_eq!(w.canvas.stencil_depth, 8);
    assert_eq!(w.canvas.scale_milli, 2000);
    assert_eq!(w.canvas.cleared, None);
    assert_eq!(w.frame, 0);
    assert_eq!(w.previous_frame_start, 123);
}

#[test]
fn resize_reports_exactly_the_new_size() {
    let mut w = Window::new(7, 800, 600, 2000, &sample_caps(), 0);
    w.resize(1024, 768);
    assert_eq!((w.canvas.width, w.canvas.height), (1024, 768));
    w.resize(3, 5);
    assert_eq!((w.canvas.width, w.canvas.height), (3, 5));
    w.resize(3, 5);
    assert_eq!((w.canvas.width, w.canvas.height), (3, 5));
}

#[test]
fn resize_rebuilds_the_canvas_and_discards_content() {
    let mut w = Window::new(7, 800, 600, 1500, &sample_caps(), 0);
    w.reset_canvas(Color::white());
    assert_eq!(w.canvas.cleared, Some(Color::white()));
    w.resize(400, 300);
    // A rebuilt canvas keeps the original capability attributes but starts
    // over: identity transform, nothing drawn.
    assert_eq!(w.canvas.sample_count, 4);
    assert_eq!(w.canvas.stencil_depth, 8);
    assert_eq!(w.canvas.scale_milli, IDENTITY_SCALE_MILLI);
    assert_eq!(w.canvas.cleared, None);
}

#[test]
fn reset_canvas_reapplies_scale_and_clears() {
    let mut w = Window::new(7, 800, 600, 1750, &sample_caps(), 0);
    w.resize(800, 600);
    assert_eq!(w.canvas.scale_milli, IDENTITY_SCALE_MILLI);
    let background = Color { red: 1, green: 2, blue: 3, alpha: 4 };
    w.reset_canvas(background);
    assert_eq!(w.canvas.scale_milli, 1750);
    assert_eq!(w.canvas.cleared, Some(background));
}

#[test]
fn redraw_due_requires_more_than_one_frame_interval() {
    let w = Window::new(7, 10, 10, 1000, &sample_caps(), 1000);
    assert!(!w.redraw_due(1000));
    assert!(!w.redraw_due(1000 + FRAME_INTERVAL_NANOS));
    assert!(w.redraw_due(1000 + FRAME_INTERVAL_NANOS + 1));
    assert!(!w.redraw_due(0));
}

#[test]
fn begin_frame_restarts_the_pacing_clock() {
    let mut w = Window::new(7, 10, 10, 1000, &sample_caps(), 0);
    w.begin_frame(50_000_000);
    assert_eq!(w.frame, 1);
    assert_eq!(w.previous_frame_start, 50_000_000);
    w.begin_frame(90_000_000);
    assert_eq!(w.frame, 2);
    assert_eq!(w.previous_frame_start, 90_000_000);
}

#[test]
fn titles_carry_the_window_count_in_decimal() {
    assert_eq!(window_title(0).as_str(), "Window 0");
    assert_eq!(window_title(2).as_str(), "Window 2");
    assert_eq!(window_title(10).as_str(), "Window 10");
    assert_eq!(window_title(12345).as_str(), "Window 12345");
}

#[test]
fn exit_codes_are_distinct_per_failure_category() {
    assert_eq!(exit_code(RunOutcome::Completed), 0);
    assert_eq!(exit_code(RunOutcome::OsError), 1);
    assert_eq!(exit_code(RunOutcome::NotSupported), 2);
    assert_eq!(exit_code(RunOutcome::RecreationAttempt), 3);
    assert_eq!(exit_code(RunOutcome::ExitFailure(42)), 42);
}
