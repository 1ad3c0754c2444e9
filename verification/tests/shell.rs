use blueframe::render::{InitError, InitReport};
use blueframe::shell::{Action, App, Effect, WindowEvent, effects_of};
use blueframe::surface::SurfaceFormat;

fn activated_app() -> App {
    let mut app = App::new();
    let report = InitReport {
        adapter_acquired: true,
        device_acquired: true,
        surface_created: true,
        formats: vec![SurfaceFormat::Bgra8Unorm],
        width: 640,
        height: 480,
    };
    let r = app.resumed(report);
    assert_eq!(r, Ok(Action::RequestRedraw));
    app
}

#[test]
fn fresh_shell_has_no_render_state() {
    let app = App::new();
    assert!(app.state.is_none());
}

#[test]
fn activation_installs_state_and_requests_first_redraw() {
    let app = activated_app();
    let state = app.state.as_ref().unwrap();
    assert_eq!(state.config.format, SurfaceFormat::Bgra8Unorm);
    assert_eq!(state.width, 640);
    assert_eq!(state.height, 480);
}

#[test]
fn failed_activation_leaves_the_shell_empty() {
    let mut app = App::new();
    let report = InitReport {
        adapter_acquired: false,
        device_acquired: false,
        surface_created: false,
        formats: Vec::new(),
        width: 0,
        height: 0,
    };
    let r = app.resumed(report);
    assert_eq!(r, Err(InitError::NoAdapter));
    assert!(app.state.is_none());
}

#[test]
fn close_requested_exits_without_another_redraw() {
    let app = activated_app();
    let action = app.window_event(WindowEvent::CloseRequested);
    assert_eq!(action, Action::Exit);
    let effects = effects_of(action);
    assert_eq!(effects, vec![Effect::ExitLoop]);
    assert!(!effects.contains(&Effect::RequestRedraw));
    assert!(!effects.contains(&Effect::SubmitAndPresent));
}

#[test]
fn redraw_presents_once_then_requests_the_next() {
    let app = activated_app();
    let action = app.window_event(WindowEvent::RedrawRequested);
    assert_eq!(action, Action::RenderAndRequestRedraw);
    assert_eq!(
        effects_of(action),
        vec![Effect::SubmitAndPresent, Effect::RequestRedraw]
    );
}

#[test]
fn resize_is_ignored_and_the_loop_goes_on() {
    let app = activated_app();
    let action = app.window_event(WindowEvent::Resized { width: 1920, height: 1080 });
    assert_eq!(action, Action::Ignore);
    assert_eq!(effects_of(action), Vec::new());
    // The configured dimensions stay as they were at configuration time.
    let state = app.state.as_ref().unwrap();
    assert_eq!(state.config.width, 640);
    assert_eq!(state.config.height, 480);
    // The next redraw still renders and presents one frame.
    let next = app.window_event(WindowEvent::RedrawRequested);
    assert_eq!(next, Action::RenderAndRequestRedraw);
}

#[test]
fn unrelated_events_are_ignored() {
    let app = activated_app();
    let action = app.window_event(WindowEvent::Other);
    assert_eq!(action, Action::Ignore);
    assert_eq!(effects_of(action), Vec::new());
}

#[test]
fn initial_redraw_request_has_one_effect() {
    assert_eq!(
        effects_of(Action::RequestRedraw),
        vec![Effect::RequestRedraw]
    );
}
