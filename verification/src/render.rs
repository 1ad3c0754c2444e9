//! Render-state initialization and the per-frame render plan.

use vstd::prelude::*;

verus! {

use crate::surface::{SurfaceConfig, SurfaceFormat, select_surface_format, selected_format_spec};

/// An RGBA colour with 8-bit channels; 255 is full intensity.
#[derive(Clone, Copy, Debug, PartialEq, Eq, Structural)]
pub struct Color {
    pub r: u8,
    pub g: u8,
    pub b: u8,
    pub a: u8,
}

/// The fixed clear colour of every frame: pure blue at full alpha.
pub open spec fn pure_blue() -> Color {
    Color { r: 0, g: 0, b: 255, a: 255 }
}

pub fn clear_color() -> (c: Color)
    ensures
        c == pure_blue(),
{
    Color { r: 0, g: 0, b: 255, a: 255 }
}

/// What a render pass does with its colour target before any drawing.
#[derive(Clone, Copy, Debug, PartialEq, Eq, Structural)]
pub enum LoadOp {
    Clear(Color),
    Load,
}

/// Whether the pass result is written back to the target.
#[derive(Clone, Copy, Debug, PartialEq, Eq, Structural)]
pub enum StoreOp {
    Store,
    Discard,
}

/// The one frame the shell ever records, as plain data: the view format the
/// surface texture is seen through, how the single colour target is opened
/// and closed, and how many draw commands stand in between. The platform
/// layer carries the plan out as one submit followed by one present.
#[derive(Clone, Copy, Debug, PartialEq, Eq, Structural)]
pub struct FramePlan {
    pub view_format: SurfaceFormat,
    pub load: LoadOp,
    pub store: StoreOp,
    pub draw_commands: u32,
}

/// Why render-state initialization was refused, one variant per setup step
/// that can fail: no adapter offered, the device request rejected, the
/// surface not created, or an empty format capability list.
#[derive(Clone, Copy, Debug, PartialEq, Eq, Structural)]
pub enum InitError {
    NoAdapter,
    DeviceRejected,
    SurfaceUnsupported,
    NoSurfaceFormat,
}

/// The outcome of the platform-facing setup steps, as plain values: whether
/// each handle was obtained, the surface's reported format capabilities, and
/// the window's drawable size at that instant.
#[derive(Clone, Debug)]
pub struct InitReport {
    pub adapter_acquired: bool,
    pub device_acquired: bool,
    pub surface_created: bool,
    pub formats: Vec<SurfaceFormat>,
    pub width: u32,
    pub height: u32,
}

impl InitReport {
    /// Every setup step succeeded and at least one format was reported.
    pub open spec fn complete(self) -> bool {
        &&& self.adapter_acquired
        &&& self.device_acquired
        &&& self.surface_created
        &&& self.formats@.len() > 0
    }
}

/// The render state: the surface configuration together with the drawable
/// size cached at the moment the surface was configured. The cached size is
/// never re-synchronized afterwards.
#[derive(Clone, Copy, Debug, PartialEq, Eq, Structural)]
pub struct State {
    pub config: SurfaceConfig,
    pub width: u32,
    pub height: u32,
}

impl State {
    /// Fully initialized: the configuration follows the fixed policy and the
    /// cached size equals the configured size.
    pub open spec fn wf(self) -> bool {
        &&& self.config.wf()
        &&& self.width == self.config.width
        &&& self.height == self.config.height
    }

    /// What initialization yields for a given report: the first refused step
    /// decides the error, in setup order; a complete report yields the state
    /// configured with the first reported format at the reported size.
    pub open spec fn new_spec(report: InitReport) -> Result<State, InitError> {
        if !report.adapter_acquired {
            Err(InitError::NoAdapter)
        } else if !report.device_acquired {
            Err(InitError::DeviceRejected)
        } else if !report.surface_created {
            Err(InitError::SurfaceUnsupported)
        } else if report.formats@.len() == 0 {
            Err(InitError::NoSurfaceFormat)
        } else {
            Ok(
                State {
                    config: SurfaceConfig::build_spec(
                        selected_format_spec(report.formats@),
                        report.width,
                        report.height,
                    ),
                    width: report.width,
                    height: report.height,
                },
            )
        }
    }

    /// Build the render state from the setup-step outcomes, all or nothing:
    /// success exactly when every step succeeded, and then every part of the
    /// state is in place; otherwise the error of the first refused step.
    pub fn new(report: InitReport) -> (r: Result<State, InitError>)
        ensures
            r == Self::new_spec(report),
            r is Ok <==> report.complete(),
            r matches Ok(s) ==> s.wf() && s.width == report.width && s.height == report.height
                && s.config.format == selected_format_spec(report.formats@),
    {
        if !report.adapter_acquired {
            return Err(InitError::NoAdapter);
        }
        if !report.device_acquired {
            return Err(InitError::DeviceRejected);
        }
        if !report.surface_created {
            return Err(InitError::SurfaceUnsupported);
        }
        match select_surface_format(&report.formats) {
            None => Err(InitError::NoSurfaceFormat),
            Some(format) => {
                let config = SurfaceConfig::build(format, report.width, report.height);
                Ok(State { config, width: report.width, height: report.height })
            },
        }
    }

    /// The frame this state renders: the surface texture viewed through the
    /// sRGB variant of the configured format, cleared to pure blue, stored,
    /// with no draw commands.
    pub open spec fn plan_spec(self) -> FramePlan {
        FramePlan {
            view_format: self.config.format.srgb_variant_spec(),
            load: LoadOp::Clear(pure_blue()),
            store: StoreOp::Store,
            draw_commands: 0,
        }
    }

    /// Produce the plan for exactly one frame. The platform layer acquires
    /// the surface texture, records one pass as the plan says, submits the
    /// recorded commands once, and presents the texture once.
    pub fn render(&self) -> (p: FramePlan)
        ensures
            p == self.plan_spec(),
            p.load == LoadOp::Clear(pure_blue()),
            p.store == StoreOp::Store,
            p.view_format == self.config.format.srgb_variant_spec(),
            p.draw_commands == 0,
    {
        FramePlan {
            view_format: self.config.format.srgb_variant(),
            load: LoadOp::Clear(clear_color()),
            store: StoreOp::Store,
            draw_commands: 0,
        }
    }
}

/// Whatever the render state, its pass clears the colour target to pure blue
/// at full alpha, stores the result, and issues no draw commands.
pub proof fn lemma_frame_clears_pure_blue(s: State)
    ensures
        s.plan_spec().load == LoadOp::Clear(pure_blue()),
        s.plan_spec().store == StoreOp::Store,
        s.plan_spec().draw_commands == 0,
{
}

} // verus!
