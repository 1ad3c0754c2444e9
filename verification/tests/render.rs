use blueframe::render::{
    Color, InitError, InitReport, LoadOp, State, StoreOp, clear_color,
};
use blueframe::surface::SurfaceFormat;

fn complete_report(formats: Vec<SurfaceFormat>, width: u32, height: u32) -> InitReport {
    InitReport {
        adapter_acquired: true,
        device_acquired: true,
        surface_created: true,
        formats,
        width,
        height,
    }
}

#[test]
fn clear_color_is_pure_blue_full_alpha() {
    let c = clear_color();
    assert_eq!(c, Color { r: 0, g: 0, b: 255, a: 255 });
}

#[test]
fn init_success_populates_everything() {
    let report = complete_report(vec![SurfaceFormat::Bgra8Unorm], 640, 480);
    let state = State::new(report).unwrap();
    assert_eq!(state.width, 640);
    assert_eq!(state.height, 480);
    assert_eq!(state.config.width, 640);
    assert_eq!(state.config.height, 480);
    assert_eq!(state.config.format, SurfaceFormat::Bgra8Unorm);
    assert_eq!(state.config.view_format, SurfaceFormat::Bgra8UnormSrgb);
    assert_eq!(state.config.desired_maximum_frame_latency, 2);
}

#[test]
fn init_without_adapter_is_refused() {
    let mut report = complete_report(vec![SurfaceFormat::Bgra8Unorm], 640, 480);
    report.adapter_acquired = false;
    assert_eq!(State::new(report), Err(InitError::NoAdapter));
}

#[test]
fn init_with_rejected_device_is_refused() {
    let mut report = complete_report(vec![SurfaceFormat::Bgra8Unorm], 640, 480);
    report.device_acquired = false;
    assert_eq!(State::new(report), Err(InitError::DeviceRejected));
}

#[test]
fn init_without_surface_is_refused() {
    let mut report = complete_report(vec![SurfaceFormat::Bgra8Unorm], 640, 480);
    report.surface_created = false;
    assert_eq!(State::new(report), Err(InitError::SurfaceUnsupported));
}

#[test]
fn init_without_formats_is_refused() {
    let report = complete_report(Vec::new(), 640, 480);
    assert_eq!(State::new(report), Err(InitError::NoSurfaceFormat));
}

#[test]
fn first_refused_step_decides_the_error() {
    let mut report = complete_report(Vec::new(), 0, 0);
    report.adapter_acquired = false;
    report.device_acquired = false;
    assert_eq!(State::new(report), Err(InitError::NoAdapter));
}

#[test]
fn frame_plan_clears_blue_stores_and_draws_nothing() {
    let report = complete_report(vec![SurfaceFormat::Rgba8Unorm], 320, 200);
    let state = State::new(report).unwrap();
    let plan = state.render();
    assert_eq!(plan.load, LoadOp::Clear(Color { r: 0, g: 0, b: 255, a: 255 }));
    assert_eq!(plan.store, StoreOp::Store);
    assert_eq!(plan.draw_commands, 0);
}

#[test]
fn frame_plan_views_through_the_srgb_variant() {
    let report = complete_report(vec![SurfaceFormat::Rgba8Unorm], 320, 200);
    let state = State::new(report).unwrap();
    assert_eq!(state.render().view_format, SurfaceFormat::Rgba8UnormSrgb);

    let report = complete_report(vec![SurfaceFormat::Other(7)], 320, 200);
    let state = State::new(report).unwrap();
    assert_eq!(state.render().view_format, SurfaceFormat::Other(7));
}

#[test]
fn every_frame_of_one_state_is_the_same() {
    let report = complete_report(vec![SurfaceFormat::Bgra8Unorm], 100, 100);
    let state = State::new(report).unwrap();
    assert_eq!(state.render(), state.render());
}
