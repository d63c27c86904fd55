use vstd::prelude::*;

verus! {

/// Pixel formats a presentation surface can be configured with.
///
/// These are the formats the backend may report as preferred for a surface.
#[derive(Clone, Copy, Debug, PartialEq, Eq, Structural)]
pub enum SurfaceFormat {
    Bgra8UnormSrgb,
    Rgba8UnormSrgb,
    Bgra8Unorm,
    Rgba8Unorm,
}

/// When a presented frame becomes visible.
#[derive(Clone, Copy, Debug, PartialEq, Eq, Structural)]
pub enum PresentMode {
    /// Frames are shown as soon as they are presented; tearing may occur.
    Immediate,
    /// The newest frame replaces a queued one at the next vertical blank.
    Mailbox,
    /// Frames are shown in order, each waiting for the next vertical blank.
    Fifo,
}

/// How the textures of a configured surface are used.
#[derive(Clone, Copy, Debug, PartialEq, Eq, Structural)]
pub enum SurfaceUsage {
    RenderAttachment,
}

/// Physical pixel size of a window.
#[derive(Clone, Copy, Debug, PartialEq, Eq, Structural)]
pub struct SurfaceSize {
    pub width: u32,
    pub height: u32,
}

/// Everything a surface is configured with.
#[derive(Clone, Copy, Debug, PartialEq, Eq, Structural)]
pub struct SurfaceConfig {
    pub usage: SurfaceUsage,
    pub format: SurfaceFormat,
    pub width: u32,
    pub height: u32,
    pub present_mode: PresentMode,
}

/// The format used when the backend expresses no preference: 8-bit BGRA, sRGB.
pub open spec fn fallback_format() -> SurfaceFormat {
    SurfaceFormat::Bgra8UnormSrgb
}

/// The format chosen for a surface, given the backend's preference.
pub open spec fn chosen_format(preferred: Option<SurfaceFormat>) -> SurfaceFormat {
    match preferred {
        Some(f) => f,
        None => fallback_format(),
    }
}

/// The configuration of a surface for a window of the given size.
pub open spec fn config_for(size: SurfaceSize, preferred: Option<SurfaceFormat>) -> SurfaceConfig {
    SurfaceConfig {
        usage: SurfaceUsage::RenderAttachment,
        format: chosen_format(preferred),
        width: size.width,
        height: size.height,
        present_mode: PresentMode::Fifo,
    }
}

/// Picks the backend's preferred format, or the fallback when there is none.
pub fn select_format(preferred: Option<SurfaceFormat>) -> (r: SurfaceFormat)
    ensures
        r == chosen_format(preferred),
{
    match preferred {
        Some(f) => f,
        None => SurfaceFormat::Bgra8UnormSrgb,
    }
}

/// Builds the configuration of a surface: render-attachment usage, the chosen
/// format, the window's physical size and vertically synchronised presentation.
pub fn surface_config(size: SurfaceSize, preferred: Option<SurfaceFormat>) -> (r: SurfaceConfig)
    ensures
        r == config_for(size, preferred),
{
    SurfaceConfig {
        usage: SurfaceUsage::RenderAttachment,
        format: select_format(preferred),
        width: size.width,
        height: size.height,
        present_mode: PresentMode::Fifo,
    }
}

} // verus!
