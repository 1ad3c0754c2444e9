//! Surface format selection and the surface configuration policy.

use vstd::prelude::*;

verus! {

/// A presentable texture format, as the platform reports it.
///
/// The 8-bit-per-channel formats that have a distinct sRGB-encoded variant
/// are modelled by name; any other reported format is carried through under
/// a numeric code chosen by the platform layer and is its own sRGB variant.
#[derive(Clone, Copy, Debug, PartialEq, Eq, Structural)]
pub enum SurfaceFormat {
    Rgba8Unorm,
    Rgba8UnormSrgb,
    Bgra8Unorm,
    Bgra8UnormSrgb,
    Other(u32),
}

impl SurfaceFormat {
    /// The sRGB-encoded variant of this format: each linear 8-bit format maps
    /// to its sRGB counterpart, every other format to itself.
    pub open spec fn srgb_variant_spec(self) -> SurfaceFormat {
        match self {
            SurfaceFormat::Rgba8Unorm => SurfaceFormat::Rgba8UnormSrgb,
            SurfaceFormat::Bgra8Unorm => SurfaceFormat::Bgra8UnormSrgb,
            other => other,
        }
    }

    pub fn srgb_variant(self) -> (r: SurfaceFormat)
        ensures
            r == self.srgb_variant_spec(),
    {
        match self {
            SurfaceFormat::Rgba8Unorm => SurfaceFormat::Rgba8UnormSrgb,
            SurfaceFormat::Bgra8Unorm => SurfaceFormat::Bgra8UnormSrgb,
            other => other,
        }
    }
}

/// The format the shell configures its surface with: the first entry of the
/// platform-reported capability list, with no reordering and no preference
/// for sRGB-ranked entries.
pub open spec fn selected_format_spec(formats: Seq<SurfaceFormat>) -> SurfaceFormat
    recommends
        formats.len() > 0,
{
    formats[0]
}

/// Pick the surface format from the reported capability list: the first
/// entry, or nothing when the platform reported no format at all.
pub fn select_surface_format(formats: &Vec<SurfaceFormat>) -> (r: Option<SurfaceFormat>)
    ensures
        r is Some <==> formats@.len() > 0,
        formats@.len() > 0 ==> r == Some(selected_format_spec(formats@)),
{
    if formats.len() == 0 {
        None
    } else {
        Some(formats[0])
    }
}

/// Selection is positional: it depends on the first reported entry alone,
/// never on any later (for instance sRGB-ranked) entry of the list.
pub proof fn lemma_format_selection_positional(a: Seq<SurfaceFormat>, b: Seq<SurfaceFormat>)
    requires
        a.len() > 0,
        b.len() > 0,
        a[0] == b[0],
    ensures
        selected_format_spec(a) == selected_format_spec(b),
{
}

/// The one way the shell ever uses its surface textures.
#[derive(Clone, Copy, Debug, PartialEq, Eq, Structural)]
pub enum TextureUsage {
    RenderAttachment,
    CopySrc,
    CopyDst,
    TextureBinding,
    StorageBinding,
}

/// How the presented image is composited with the rest of the screen.
#[derive(Clone, Copy, Debug, PartialEq, Eq, Structural)]
pub enum AlphaMode {
    Auto,
    Opaque,
    PreMultiplied,
    PostMultiplied,
    Inherit,
}

/// When a presented frame becomes visible.
#[derive(Clone, Copy, Debug, PartialEq, Eq, Structural)]
pub enum PresentMode {
    AutoVsync,
    AutoNoVsync,
    Fifo,
    FifoRelaxed,
    Immediate,
    Mailbox,
}

/// The surface configuration: the negotiated format, usage, size, alpha and
/// presentation contract between the surface and the device, with plain
/// values standing for the graphics API's descriptor fields.
///
/// `view_format` is the single alternate view format the shell registers:
/// the sRGB-encoded variant of the configured format.
#[derive(Clone, Copy, Debug, PartialEq, Eq, Structural)]
pub struct SurfaceConfig {
    pub usage: TextureUsage,
    pub format: SurfaceFormat,
    pub view_format: SurfaceFormat,
    pub alpha_mode: AlphaMode,
    pub width: u32,
    pub height: u32,
    pub desired_maximum_frame_latency: u32,
    pub present_mode: PresentMode,
}

impl SurfaceConfig {
    /// The exact configuration the shell applies for a chosen format and
    /// drawable size: render-attachment usage, the format's sRGB variant as
    /// the alternate view format, automatic alpha compositing, automatic
    /// vsync-driven presentation, and at most two frames in flight.
    pub open spec fn build_spec(format: SurfaceFormat, width: u32, height: u32) -> SurfaceConfig {
        SurfaceConfig {
            usage: TextureUsage::RenderAttachment,
            format: format,
            view_format: format.srgb_variant_spec(),
            alpha_mode: AlphaMode::Auto,
            width: width,
            height: height,
            desired_maximum_frame_latency: 2,
            present_mode: PresentMode::AutoVsync,
        }
    }

    /// The fixed parts of the policy hold, and the alternate view format is
    /// the sRGB variant of the configured format.
    pub open spec fn wf(self) -> bool {
        &&& self.usage == TextureUsage::RenderAttachment
        &&& self.view_format == self.format.srgb_variant_spec()
        &&& self.alpha_mode == AlphaMode::Auto
        &&& self.desired_maximum_frame_latency == 2
        &&& self.present_mode == PresentMode::AutoVsync
    }

    pub fn build(format: SurfaceFormat, width: u32, height: u32) -> (c: SurfaceConfig)
        ensures
            c == Self::build_spec(format, width, height),
            c.wf(),
            c.format == format,
            c.width == width,
            c.height == height,
    {
        SurfaceConfig {
            usage: TextureUsage::RenderAttachment,
            format: format,
            view_format: format.srgb_variant(),
            alpha_mode: AlphaMode::Auto,
            width: width,
            height: height,
            desired_maximum_frame_latency: 2,
            present_mode: PresentMode::AutoVsync,
        }
    }
}

} // verus!
