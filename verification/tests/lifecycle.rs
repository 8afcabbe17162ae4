use glow_app::app::{GlowApp, DEFAULT_EXTENT, resolve_extent};
use glow_app::model::{Action, Event};
use glow_app::teardown::TeardownStep;

#[test]
fn fresh_state_is_uninitialized() {
    let app = GlowApp::new();
    assert!(!app.should_exit());
    assert!(!app.is_ready());
    assert_eq!(app.size(), None);
}

#[test]
fn resolve_extent_fills_in_default() {
    assert_eq!(resolve_extent(None), 256);
    assert_eq!(resolve_extent(Some(5)), 5);
    assert_eq!(DEFAULT_EXTENT, 256);
}

#[test]
fn first_configure_initializes_at_proposed_size() {
    let mut app = GlowApp::new();
    let action = app.configure(Some(640), Some(480));
    assert_eq!(action, Action::InitAndDraw { width: 640, height: 480 });
    assert!(app.is_ready());
    assert_eq!(app.size(), Some((640, 480)));
}

#[test]
fn first_configure_without_proposal_uses_default() {
    let mut app = GlowApp::new();
    let action = app.configure(None, None);
    assert_eq!(action, Action::InitAndDraw { width: 256, height: 256 });
    assert_eq!(app.size(), Some((256, 256)));
}

#[test]
fn partial_proposal_defaults_the_missing_component() {
    let mut app = GlowApp::new();
    let action = app.configure(Some(400), None);
    assert_eq!(action, Action::InitAndDraw { width: 400, height: 256 });
    assert_eq!(app.size(), Some((400, 256)));
}

#[test]
fn resize_happens_only_on_a_changed_size() {
    let mut app = GlowApp::new();
    app.configure(Some(300), Some(200));
    let same = app.configure(Some(300), Some(200));
    assert_eq!(same, Action::Idle);
    assert_eq!(app.size(), Some((300, 200)));
    let changed = app.configure(Some(301), Some(200));
    assert_eq!(changed, Action::ResizeAndDraw { width: 301, height: 200 });
    assert_eq!(app.size(), Some((301, 200)));
}

#[test]
fn width_change_alone_triggers_a_resize() {
    let mut app = GlowApp::new();
    app.configure(Some(100), Some(100));
    let action = app.configure(Some(128), Some(100));
    assert_eq!(action, Action::ResizeAndDraw { width: 128, height: 100 });
}

#[test]
fn close_request_sets_the_exit_flag_and_keeps_the_context() {
    let mut app = GlowApp::new();
    app.configure(Some(300), Some(300));
    app.request_close();
    assert!(app.should_exit());
    assert!(app.is_ready());
    assert_eq!(app.size(), Some((300, 300)));
}

#[test]
fn output_and_seat_events_are_ignored() {
    let mut app = GlowApp::new();
    let before = app;
    assert_eq!(app.handle_event(Event::OutputChange), Action::Idle);
    assert_eq!(app.handle_event(Event::SeatChange), Action::Idle);
    assert_eq!(app, before);
}

#[test]
fn dispatch_stops_after_a_close_request() {
    let mut app = GlowApp::new();
    let events = vec![
        Event::CloseRequested,
        Event::Configure { new_width: Some(300), new_height: Some(300) },
    ];
    let actions = app.process_events(&events);
    assert_eq!(actions, vec![Action::Idle]);
    assert!(app.should_exit());
    assert!(!app.is_ready());
}

#[test]
fn shutdown_releases_resources_in_dependency_order() {
    let app = GlowApp::new();
    let steps = app.shutdown_steps();
    assert_eq!(
        steps,
        vec![
            TeardownStep::ReleaseGpuContext,
            TeardownStep::ReleaseDrawableSurface,
            TeardownStep::ReleaseGpuDisplay,
            TeardownStep::ReleaseWindow,
        ]
    );
    let context = steps.iter().position(|s| *s == TeardownStep::ReleaseGpuContext).unwrap();
    let window = steps.iter().position(|s| *s == TeardownStep::ReleaseWindow).unwrap();
    assert!(context < window);
}

#[test]
fn shutdown_order_is_unchanged_by_resizes() {
    let mut app = GlowApp::new();
    let fresh_order = app.shutdown_steps();
    app.configure(None, None);
    app.configure(Some(300), Some(300));
    app.configure(Some(120), Some(90));
    app.request_close();
    assert_eq!(app.shutdown_steps(), fresh_order);
}

#[test]
fn whole_session_scenario() {
    let mut app = GlowApp::new();
    let events = vec![
        Event::Configure { new_width: None, new_height: None },
        Event::Configure { new_width: Some(300), new_height: Some(300) },
        Event::Configure { new_width: Some(300), new_height: Some(300) },
        Event::CloseRequested,
    ];
    let actions = app.process_events(&events);
    assert_eq!(
        actions,
        vec![
            Action::InitAndDraw { width: 256, height: 256 },
            Action::ResizeAndDraw { width: 300, height: 300 },
            Action::Idle,
            Action::Idle,
        ]
    );
    assert!(app.should_exit());
    assert_eq!(app.size(), Some((300, 300)));
    let draws: usize = actions
        .iter()
        .filter(|a| !matches!(a, Action::Idle))
        .count();
    assert_eq!(draws, 2);
    let inits: usize = actions
        .iter()
        .filter(|a| matches!(a, Action::InitAndDraw { .. }))
        .count();
    assert_eq!(inits, 1);
    let steps = app.shutdown_steps();
    assert_eq!(steps[0], TeardownStep::ReleaseGpuContext);
    assert_eq!(steps[steps.len() - 1], TeardownStep::ReleaseWindow);
}

#[test]
fn empty_event_source_leaves_the_state_alone() {
    let mut app = GlowApp::new();
    let actions = app.process_events(&Vec::new());
    assert!(actions.is_empty());
    assert!(!app.should_exit());
    assert!(!app.is_ready());
}

#[test]
fn context_is_never_recreated_after_the_first_configure() {
    let mut app = GlowApp::new();
    let events = vec![
        Event::Configure { new_width: Some(200), new_height: Some(200) },
        Event::OutputChange,
        Event::Configure { new_width: Some(210), new_height: Some(200) },
        Event::SeatChange,
        Event::Configure { new_width: Some(210), new_height: Some(220) },
    ];
    let actions = app.process_events(&events);
    let inits: usize = actions
        .iter()
        .filter(|a| matches!(a, Action::InitAndDraw { .. }))
        .count();
    assert_eq!(inits, 1);
    assert_eq!(app.size(), Some((210, 220)));
}
