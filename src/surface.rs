use vstd::prelude::*;

use crate::pipeline::PipelineError;

verus! {

/// Pixel formats a presentable surface may offer.
#[derive(Clone, Copy, Debug, PartialEq, Eq, Structural)]
pub enum PixelFormat {
    Rgba8Unorm,
    Rgba8UnormSrgb,
    Bgra8Unorm,
    Bgra8UnormSrgb,
    Rgba16Float,
    Rgb10a2Unorm,
    /// A format the renderer has no preference about.
    Other,
}

/// Presentation modes a surface may offer.
#[derive(Clone, Copy, Debug, PartialEq, Eq, Structural)]
pub enum PresentMode {
    /// Always available: waits for vertical blank, never tears.
    Fifo,
    FifoRelaxed,
    Immediate,
    /// Low latency without tearing.
    Mailbox,
}

/// The frame latency the surface is configured with.
pub const MAX_IN_FLIGHT_FRAMES: u32 = 2;

/// How a presentable surface is configured. Width and height are at least 1.
#[derive(Clone, Copy, Debug, PartialEq, Eq, Structural)]
pub struct SurfaceConfig {
    pub format: PixelFormat,
    pub present_mode: PresentMode,
    pub width: u32,
    pub height: u32,
    pub max_in_flight_frames: u32,
}

impl SurfaceConfig {
    pub open spec fn wf(&self) -> bool {
        self.width >= 1 && self.height >= 1
    }
}

/// What the platform reported while negotiating a device for a surface.
#[derive(Clone, Debug)]
pub struct AdapterReport {
    /// A high-performance adapter compatible with the surface was found.
    pub adapter_found: bool,
    /// The adapter granted a logical device and a submission queue.
    pub device_granted: bool,
    /// The surface's supported pixel formats, in the platform's order.
    pub formats: Vec<PixelFormat>,
    /// The surface's supported present modes.
    pub present_modes: Vec<PresentMode>,
}

/// Why attaching a surface failed.
#[derive(Clone, Debug, PartialEq, Eq)]
pub enum AttachError {
    /// No adapter compatible with the surface (including one that supports
    /// none of the surface's pixel formats).
    AdapterUnavailable,
    DeviceRequestFailed,
    PipelineBuildFailed(PipelineError),
}

/// A dimension clamped to at least 1.
pub open spec fn clamped(d: u32) -> u32 {
    if d == 0 {
        1
    } else {
        d
    }
}

/// BGRA 8-bit formats are the preferred surface formats.
pub open spec fn is_bgra8(f: PixelFormat) -> bool {
    f == PixelFormat::Bgra8Unorm || f == PixelFormat::Bgra8UnormSrgb
}

pub open spec fn has_bgra8(formats: Seq<PixelFormat>) -> bool {
    exists|j: int| 0 <= j < formats.len() && is_bgra8(#[trigger] formats[j])
}

/// `i` is the position a format preference picks in `formats`: the first BGRA
/// 8-bit format, or else the first format.
pub open spec fn is_preferred_index(formats: Seq<PixelFormat>, i: int) -> bool {
    &&& 0 <= i < formats.len()
    &&& if has_bgra8(formats) {
        is_bgra8(formats[i]) && forall|j: int| 0 <= j < i ==> !is_bgra8(#[trigger] formats[j])
    } else {
        i == 0
    }
}

/// The present mode picked from the supported ones: mailbox when offered,
/// else FIFO, which every surface supports.
pub open spec fn preferred_present_mode(modes: Seq<PresentMode>) -> PresentMode {
    if modes.contains(PresentMode::Mailbox) {
        PresentMode::Mailbox
    } else {
        PresentMode::Fifo
    }
}

/// Clamps a requested surface dimension to at least 1.
pub fn clamp_dimension(d: u32) -> (r: u32)
    ensures
        r == clamped(d),
        r >= 1,
{
    if d == 0 {
        1
    } else {
        d
    }
}

/// Position of the preferred pixel format in `formats`: the first BGRA 8-bit
/// format wherever it stands, else the first format; `None` when the list is
/// empty.
pub fn select_format(formats: &Vec<PixelFormat>) -> (r: Option<usize>)
    ensures
        r is None <==> formats@.len() == 0,
        r matches Some(i) ==> is_preferred_index(formats@, i as int),
{
    let mut i: usize = 0;
    while i < formats.len()
        invariant
            i <= formats@.len(),
            forall|j: int| 0 <= j < i ==> !is_bgra8(#[trigger] formats@[j]),
        decreases formats@.len() - i,
    {
        let f = formats[i];
        if f == PixelFormat::Bgra8Unorm || f == PixelFormat::Bgra8UnormSrgb {
            return Some(i);
        }
        i = i + 1;
    }
    if formats.len() == 0 {
        None
    } else {
        Some(0)
    }
}

/// The present mode to configure: mailbox when offered, else FIFO.
pub fn select_present_mode(modes: &Vec<PresentMode>) -> (r: PresentMode)
    ensures
        r == preferred_present_mode(modes@),
{
    let mut i: usize = 0;
    while i < modes.len()
        invariant
            i <= modes@.len(),
            forall|j: int| 0 <= j < i ==> modes@[j] != PresentMode::Mailbox,
        decreases modes@.len() - i,
    {
        if modes[i] == PresentMode::Mailbox {
            assert(modes@.contains(PresentMode::Mailbox)) by {
                assert(modes@[i as int] == PresentMode::Mailbox);
            }
            return PresentMode::Mailbox;
        }
        i = i + 1;
    }
    PresentMode::Fifo
}

/// The configuration an attach settles on, or why it cannot.
pub open spec fn planned(report: AdapterReport, width: u32, height: u32, r: Result<
    SurfaceConfig,
    AttachError,
>) -> bool {
    if !report.adapter_found || report.formats@.len() == 0 {
        r == Err::<SurfaceConfig, AttachError>(AttachError::AdapterUnavailable)
    } else if !report.device_granted {
        r == Err::<SurfaceConfig, AttachError>(AttachError::DeviceRequestFailed)
    } else {
        &&& r is Ok
        &&& exists|i: int|
            is_preferred_index(report.formats@, i) && r->Ok_0.format == #[trigger] report.formats@[i]
        &&& r->Ok_0.present_mode == preferred_present_mode(report.present_modes@)
        &&& r->Ok_0.width == clamped(width)
        &&& r->Ok_0.height == clamped(height)
        &&& r->Ok_0.max_in_flight_frames == MAX_IN_FLIGHT_FRAMES
    }
}

/// Decides the surface configuration from what the platform reported: the
/// preferred format and present mode, and the requested size clamped to at
/// least 1 in each dimension.
pub fn plan_surface(report: &AdapterReport, width: u32, height: u32) -> (r: Result<
    SurfaceConfig,
    AttachError,
>)
    ensures
        planned(*report, width, height, r),
        r matches Ok(c) ==> c.wf(),
{
    if !report.adapter_found {
        return Err(AttachError::AdapterUnavailable);
    }
    match select_format(&report.formats) {
        None => Err(AttachError::AdapterUnavailable),
        Some(i) => {
            if !report.device_granted {
                return Err(AttachError::DeviceRequestFailed);
            }
            let format = report.formats[i];
            let config = SurfaceConfig {
                format,
                present_mode: select_present_mode(&report.present_modes),
                width: clamp_dimension(width),
                height: clamp_dimension(height),
                max_in_flight_frames: MAX_IN_FLIGHT_FRAMES,
            };
            assert(is_preferred_index(report.formats@, i as int) && config.format
                == report.formats@[i as int]);
            Ok(config)
        }
    }
}

} // verus!
