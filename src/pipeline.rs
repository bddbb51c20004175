use vstd::prelude::*;

use crate::surface::{PixelFormat, SurfaceConfig};
use crate::vertex::VertexBufferLayout;

verus! {

/// Why building the render pipeline failed.
#[derive(Clone, Debug, PartialEq, Eq)]
pub enum PipelineError {
    /// The shader source at this path could not be read.
    ShaderLoadFailed(String),
    /// The backend rejected the pipeline layout.
    PipelineCompileFailed,
}

#[derive(Clone, Copy, Debug, PartialEq, Eq, Structural)]
pub enum PrimitiveTopology {
    PointList,
    LineList,
    LineStrip,
    TriangleList,
    TriangleStrip,
}

#[derive(Clone, Copy, Debug, PartialEq, Eq, Structural)]
pub enum FrontFace {
    Ccw,
    Cw,
}

#[derive(Clone, Copy, Debug, PartialEq, Eq, Structural)]
pub enum Face {
    Front,
    Back,
}

#[derive(Clone, Copy, Debug, PartialEq, Eq, Structural)]
pub enum PolygonMode {
    Fill,
    Line,
    Point,
}

/// Everything a render pipeline is built from. The pipeline layout has no
/// bind groups and no push constants; the entry point of both stages is
/// `main`.
#[derive(Clone, Debug)]
pub struct PipelineDesc {
    /// Format of the single color target, that of the surface.
    pub format: PixelFormat,
    /// Buffer slot 0 (per vertex) and slot 1 (per instance).
    pub vertex_layout: VertexBufferLayout,
    pub instance_layout: VertexBufferLayout,
    pub vertex_shader_path: String,
    pub fragment_shader_path: String,
    pub topology: PrimitiveTopology,
    pub front_face: FrontFace,
    pub cull_mode: Option<Face>,
    pub polygon_mode: PolygonMode,
    pub sample_count: u32,
    /// All samples enabled.
    pub sample_mask: u64,
    pub alpha_blending: bool,
}

/// The fixed state of the pipeline: triangle list, counter-clockwise front
/// faces, back faces culled, solid fill, one sample, alpha blending.
pub open spec fn fixed_state(p: PipelineDesc) -> bool {
    &&& p.topology == PrimitiveTopology::TriangleList
    &&& p.front_face == FrontFace::Ccw
    &&& p.cull_mode == Some(Face::Back)
    &&& p.polygon_mode == PolygonMode::Fill
    &&& p.sample_count == 1
    &&& p.sample_mask == u64::MAX
    &&& p.alpha_blending
}

/// Describes the render pipeline for the surface configuration `config`: the
/// two shader stages read from the given paths, the two vertex buffer
/// layouts, and the fixed state.
pub fn create_triangle_pipeline(
    config: &SurfaceConfig,
    vertex_layout: VertexBufferLayout,
    instance_layout: VertexBufferLayout,
    shader_vert_path: &str,
    shader_frag_path: &str,
) -> (r: PipelineDesc)
    ensures
        r.format == config.format,
        r.vertex_layout == vertex_layout,
        r.instance_layout == instance_layout,
        r.vertex_shader_path@ == shader_vert_path@,
        r.fragment_shader_path@ == shader_frag_path@,
        fixed_state(r),
{
    PipelineDesc {
        format: config.format,
        vertex_layout,
        instance_layout,
        vertex_shader_path: shader_vert_path.to_owned(),
        fragment_shader_path: shader_frag_path.to_owned(),
        topology: PrimitiveTopology::TriangleList,
        front_face: FrontFace::Ccw,
        cull_mode: Some(Face::Back),
        polygon_mode: PolygonMode::Fill,
        sample_count: 1,
        sample_mask: u64::MAX,
        alpha_blending: true,
    }
}

} // verus!
