use vstd::prelude::*;

use crate::mesh::Mesh;
use crate::pipeline::PipelineError;
use crate::surface::{
    clamp_dimension, clamped, plan_surface, planned, AdapterReport, AttachError, PixelFormat,
    SurfaceConfig,
};
use crate::upload::BufferInit;
use crate::vertex::VERTEX_WORDS;

verus! {

/// The GPU state held while a surface is attached.
#[derive(Clone, Copy, Debug, PartialEq, Eq, Structural)]
pub struct Session {
    pub config: SurfaceConfig,
    /// The pixel format the render pipeline was built for.
    pub pipeline_format: PixelFormat,
    /// Number of indices of the uploaded mesh, once geometry is uploaded.
    pub index_count: Option<u32>,
}

/// Where the surface/device lifecycle stands.
#[derive(Clone, Copy, Debug, PartialEq, Eq, Structural)]
pub enum Lifecycle {
    Uninitialized,
    Attached(Session),
    Detached,
}

/// Outcome of acquiring the next presentable image of the surface.
#[derive(Clone, Copy, Debug, PartialEq, Eq, Structural)]
pub enum AcquireStatus {
    Acquired,
    Timeout,
    Outdated,
    Lost,
    OutOfMemory,
    Other,
}

/// Why a frame was dropped.
#[derive(Clone, Copy, Debug, PartialEq, Eq, Structural)]
pub enum FrameError {
    /// The surface is outdated or lost: reconfigure it and skip the frame.
    SurfaceAcquireTransient,
    /// Any other failure: skip the frame.
    SurfaceAcquireFatal,
}

/// One indexed, instanced draw: the mesh's vertex buffer at slot 0, the
/// instance buffer at slot 1, all indices and all instances.
#[derive(Clone, Copy, Debug, PartialEq, Eq, Structural)]
pub struct DrawCall {
    pub index_count: u32,
    pub instance_count: u32,
}

/// What the caller does for a frame.
#[derive(Clone, Copy, Debug, PartialEq, Eq, Structural)]
pub enum FrameAction {
    /// Nothing to draw.
    Idle,
    /// Clear the target, record this draw, submit and present.
    Draw(DrawCall),
    /// Reconfigure the surface with this configuration; no frame this cycle.
    Reconfigure(SurfaceConfig),
    /// Drop this frame.
    Skip,
}

/// The vertex and index buffers to create for a mesh.
#[derive(Clone, Debug)]
pub struct GeometryUpload {
    pub vertex_buffer: BufferInit,
    pub index_buffer: BufferInit,
}

pub open spec fn acquire_error_of(status: AcquireStatus) -> Option<FrameError> {
    match status {
        AcquireStatus::Acquired => None,
        AcquireStatus::Outdated | AcquireStatus::Lost => Some(FrameError::SurfaceAcquireTransient),
        _ => Some(FrameError::SurfaceAcquireFatal),
    }
}

/// Classifies an acquisition outcome: none on success, transient when the
/// surface is outdated or lost, fatal otherwise.
pub fn acquire_error(status: AcquireStatus) -> (r: Option<FrameError>)
    ensures
        r == acquire_error_of(status),
{
    match status {
        AcquireStatus::Acquired => None,
        AcquireStatus::Outdated | AcquireStatus::Lost => Some(FrameError::SurfaceAcquireTransient),
        _ => Some(FrameError::SurfaceAcquireFatal),
    }
}

/// The state after resizing to `width` x `height`: an attached surface takes
/// the clamped size and keeps everything else; any other state is unchanged.
pub open spec fn resized(s: Lifecycle, width: u32, height: u32) -> Lifecycle {
    match s {
        Lifecycle::Attached(x) => Lifecycle::Attached(
            Session {
                config: SurfaceConfig { width: clamped(width), height: clamped(height), ..x.config },
                ..x
            },
        ),
        _ => s,
    }
}

/// The configuration a resize hands back to apply, if the size changes.
pub open spec fn resize_reconfigure(s: Lifecycle, width: u32, height: u32) -> Option<SurfaceConfig> {
    match s {
        Lifecycle::Attached(x) => if x.config.width == clamped(width) && x.config.height == clamped(
            height,
        ) {
            None
        } else {
            Some(resized(s, width, height)->Attached_0.config)
        },
        _ => None,
    }
}

/// The state after detaching: an attached surface becomes detached; a state
/// with nothing attached stays as it is.
pub open spec fn detached(s: Lifecycle) -> Lifecycle {
    match s {
        Lifecycle::Attached(_) => Lifecycle::Detached,
        _ => s,
    }
}

/// The draw for the uploaded geometry with `instance_count` instances.
pub open spec fn draw_of(s: Lifecycle, instance_count: u32) -> Option<DrawCall> {
    match s {
        Lifecycle::Attached(x) => match x.index_count {
            Some(n) => Some(DrawCall { index_count: n, instance_count }),
            None => None,
        },
        _ => None,
    }
}

/// What a frame does in state `s` once the image acquisition reported
/// `status`.
pub open spec fn frame_action(s: Lifecycle, status: AcquireStatus, instance_count: u32) -> FrameAction {
    match s {
        Lifecycle::Attached(x) => match draw_of(s, instance_count) {
            None => FrameAction::Idle,
            Some(d) => match acquire_error_of(status) {
                None => FrameAction::Draw(d),
                Some(FrameError::SurfaceAcquireTransient) => FrameAction::Reconfigure(x.config),
                Some(FrameError::SurfaceAcquireFatal) => FrameAction::Skip,
            },
        },
        _ => FrameAction::Idle,
    }
}

/// The surface/device lifecycle and the decisions of each frame. The GPU
/// objects belong to the caller, which performs what these methods decide.
pub struct WgpuRenderer {
    pub state: Lifecycle,
}

impl WgpuRenderer {
    /// An attached surface is at least one pixel wide and high.
    pub open spec fn wf(&self) -> bool {
        self.state matches Lifecycle::Attached(x) ==> x.config.wf()
    }

    pub fn new() -> (r: Self)
        ensures
            r.state == Lifecycle::Uninitialized,
            r.wf(),
    {
        WgpuRenderer { state: Lifecycle::Uninitialized }
    }

    pub fn is_attached(&self) -> (r: bool)
        ensures
            r == (self.state is Attached),
    {
        match self.state {
            Lifecycle::Attached(_) => true,
            _ => false,
        }
    }

    /// Attaches a surface of `width` x `height` given what device negotiation
    /// reported and the outcome of building the pipeline for the planned
    /// configuration (see `plan_surface`). On success the surface is attached
    /// with that configuration and a pipeline for its format, and no geometry
    /// yet; on failure the lifecycle is left uninitialized.
    pub fn create_surface(
        &mut self,
        report: &AdapterReport,
        width: u32,
        height: u32,
        pipeline: Result<(), PipelineError>,
    ) -> (r: Result<SurfaceConfig, AttachError>)
        ensures
            !report.adapter_found || report.formats@.len() == 0 ==> r == Err::<
                SurfaceConfig,
                AttachError,
            >(AttachError::AdapterUnavailable),
            report.adapter_found && report.formats@.len() > 0 && !report.device_granted ==> r
                == Err::<SurfaceConfig, AttachError>(AttachError::DeviceRequestFailed),
            report.adapter_found && report.formats@.len() > 0 && report.device_granted ==> match
                pipeline {
                Err(e) => r == Err::<SurfaceConfig, AttachError>(
                    AttachError::PipelineBuildFailed(e),
                ),
                Ok(_) => planned(*report, width, height, r),
            },
            r is Err ==> final(self).state == Lifecycle::Uninitialized,
            r matches Ok(c) ==> final(self).state == Lifecycle::Attached(
                Session { config: c, pipeline_format: c.format, index_count: None },
            ),
            final(self).wf(),
    {
        match plan_surface(report, width, height) {
            Err(e) => {
                self.state = Lifecycle::Uninitialized;
                Err(e)
            },
            Ok(config) => match pipeline {
                Err(e) => {
                    self.state = Lifecycle::Uninitialized;
                    Err(AttachError::PipelineBuildFailed(e))
                },
                Ok(()) => {
                    self.state = Lifecycle::Attached(
                        Session { config, pipeline_format: config.format, index_count: None },
                    );
                    Ok(config)
                },
            },
        }
    }

    /// Uploads `mesh` for an attached surface: records its index count and
    /// returns the buffers to create. Does nothing without a surface.
    pub fn init(&mut self, mesh: &Mesh) -> (r: Option<GeometryUpload>)
        requires
            VERTEX_WORDS * mesh.verts@.len() <= usize::MAX,
            mesh.indices@.len() <= u32::MAX,
        ensures
            r is Some <==> old(self).state is Attached,
            match old(self).state {
                Lifecycle::Attached(x) => final(self).state == Lifecycle::Attached(
                    Session { index_count: Some(mesh.indices@.len() as u32), ..x },
                ),
                _ => final(self).state == old(self).state,
            },
            r matches Some(g) ==> g.vertex_buffer.contents@.len() == 4 * VERTEX_WORDS
                * mesh.verts@.len() && g.index_buffer.contents@.len() == 4 * mesh.indices@.len()
                && g.vertex_buffer.usage == crate::upload::BufferUsage::Vertex
                && g.index_buffer.usage == crate::upload::BufferUsage::Index,
            old(self).wf() ==> final(self).wf(),
    {
        match self.state {
            Lifecycle::Attached(x) => {
                self.state = Lifecycle::Attached(
                    Session { index_count: Some(mesh.indices.len() as u32), ..x },
                );
                Some(
                    GeometryUpload {
                        vertex_buffer: mesh.create_vertex_buffer(),
                        index_buffer: mesh.create_index_buffer(),
                    },
                )
            },
            _ => None,
        }
    }

    /// Decides a frame, given how acquiring the surface's next image went:
    /// nothing without an attached surface and uploaded geometry; otherwise a
    /// draw of all indices and `instance_count` instances, a reconfiguration
    /// with the last known configuration when the surface was outdated or
    /// lost, or a skipped frame on any other failure.
    pub fn render(&self, status: AcquireStatus, instance_count: u32) -> (r: FrameAction)
        ensures
            r == frame_action(self.state, status, instance_count),
    {
        match self.state {
            Lifecycle::Attached(x) => match self.draw_mesh_instanced(instance_count) {
                None => FrameAction::Idle,
                Some(d) => match acquire_error(status) {
                    None => FrameAction::Draw(d),
                    Some(FrameError::SurfaceAcquireTransient) => FrameAction::Reconfigure(
                        x.config,
                    ),
                    Some(FrameError::SurfaceAcquireFatal) => FrameAction::Skip,
                },
            },
            _ => FrameAction::Idle,
        }
    }

    /// Resizes an attached surface in place to the clamped size, keeping its
    /// device, format and pipeline; returns the configuration to apply when
    /// the size changed. Without a surface this does nothing.
    pub fn resize_surface(&mut self, new_width: u32, new_height: u32) -> (r: Option<SurfaceConfig>)
        ensures
            final(self).state == resized(old(self).state, new_width, new_height),
            r == resize_reconfigure(old(self).state, new_width, new_height),
            old(self).wf() ==> final(self).wf(),
    {
        match self.state {
            Lifecycle::Attached(x) => {
                let width = clamp_dimension(new_width);
                let height = clamp_dimension(new_height);
                let config = SurfaceConfig { width, height, ..x.config };
                self.state = Lifecycle::Attached(Session { config, ..x });
                if x.config.width == width && x.config.height == height {
                    None
                } else {
                    Some(config)
                }
            },
            _ => None,
        }
    }

    /// Detaches the surface, releasing surface, device, queue and adapter (in
    /// that order, by the caller) when one is attached; returns whether one
    /// was. Does nothing otherwise.
    pub fn detach_surface(&mut self) -> (r: bool)
        ensures
            final(self).state == detached(old(self).state),
            r == (old(self).state is Attached),
            final(self).wf(),
    {
        match self.state {
            Lifecycle::Attached(_) => {
                self.state = Lifecycle::Detached;
                true
            },
            _ => false,
        }
    }

    /// A single draw of the uploaded mesh, if there is one.
    pub fn draw_mesh(&self) -> (r: Option<DrawCall>)
        ensures
            r == draw_of(self.state, 1),
    {
        self.draw_mesh_instanced(1)
    }

    /// An instanced draw of the uploaded mesh, if there is one.
    pub fn draw_mesh_instanced(&self, instance_count: u32) -> (r: Option<DrawCall>)
        ensures
            r == draw_of(self.state, instance_count),
    {
        match self.state {
            Lifecycle::Attached(x) => match x.index_count {
                Some(n) => Some(DrawCall { index_count: n, instance_count }),
                None => None,
            },
            _ => None,
        }
    }
}

/// The capabilities a rendering backend offers its caller, so that another
/// backend could stand in without changing how the lifecycle is driven.
pub trait Renderer {
    /// Uploads the geometry to draw, returning the buffers to create.
    fn init(&mut self, mesh: &Mesh) -> Option<GeometryUpload>
        requires
            VERTEX_WORDS * mesh.verts@.len() <= usize::MAX,
            mesh.indices@.len() <= u32::MAX,
    ;

    /// Decides the current frame, given how acquiring the next image went.
    fn render(&self, status: AcquireStatus, instance_count: u32) -> FrameAction;

    /// Attaches a surface, given what device negotiation reported.
    fn create_surface(
        &mut self,
        report: &AdapterReport,
        width: u32,
        height: u32,
        pipeline: Result<(), PipelineError>,
    ) -> Result<SurfaceConfig, AttachError>;

    /// Resizes the surface, returning the configuration to apply.
    fn resize_surface(&mut self, new_width: u32, new_height: u32) -> Option<SurfaceConfig>;

    /// Detaches the surface, returning whether one was attached.
    fn detach_surface(&mut self) -> bool;
}

impl Renderer for WgpuRenderer {
    fn init(&mut self, mesh: &Mesh) -> (r: Option<GeometryUpload>)
        ensures
            r is Some <==> old(self).state is Attached,
    {
        WgpuRenderer::init(self, mesh)
    }

    fn render(&self, status: AcquireStatus, instance_count: u32) -> (r: FrameAction)
        ensures
            r == frame_action(self.state, status, instance_count),
    {
        WgpuRenderer::render(self, status, instance_count)
    }

    fn create_surface(
        &mut self,
        report: &AdapterReport,
        width: u32,
        height: u32,
        pipeline: Result<(), PipelineError>,
    ) -> (r: Result<SurfaceConfig, AttachError>)
        ensures
            r is Err ==> final(self).state == Lifecycle::Uninitialized,
            r matches Ok(c) ==> final(self).state == Lifecycle::Attached(
                Session { config: c, pipeline_format: c.format, index_count: None },
            ),
    {
        WgpuRenderer::create_surface(self, report, width, height, pipeline)
    }

    fn resize_surface(&mut self, new_width: u32, new_height: u32) -> (r: Option<SurfaceConfig>)
        ensures
            final(self).state == resized(old(self).state, new_width, new_height),
            r == resize_reconfigure(old(self).state, new_width, new_height),
    {
        WgpuRenderer::resize_surface(self, new_width, new_height)
    }

    fn detach_surface(&mut self) -> (r: bool)
        ensures
            final(self).state == detached(old(self).state),
            r == (old(self).state is Attached),
    {
        WgpuRenderer::detach_surface(self)
    }
}

} // verus!
