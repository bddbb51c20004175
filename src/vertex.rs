use vstd::prelude::*;

use crate::upload::{words_to_bytes, BufferInit, BufferUsage};

verus! {

/// Bit patterns of the IEEE-754 single-precision values the geometry uses.
/// Vertex and instance data are held as these words, which is what the GPU
/// reads from a buffer.
pub const F32_ZERO: u32 = 0x0000_0000;
pub const F32_ONE: u32 = 0x3F80_0000;
pub const F32_HALF: u32 = 0x3F00_0000;
pub const F32_MINUS_HALF: u32 = 0xBF00_0000;
pub const F32_POINT_EIGHT: u32 = 0x3F4C_CCCD;
pub const F32_MINUS_POINT_EIGHT: u32 = 0xBF4C_CCCD;

/// One vertex: a 2D position and an RGB color, each component an `f32` held
/// as its bit pattern.
#[derive(Clone, Copy, Debug)]
pub struct Vertex {
    pub position: [u32; 2],
    pub color: [u32; 3],
}

/// Words a vertex occupies in a vertex buffer.
pub const VERTEX_WORDS: usize = 5;

impl Vertex {
    /// The vertex as laid out in a buffer: position, then color.
    pub open spec fn words(self) -> Seq<u32> {
        seq![self.position[0], self.position[1], self.color[0], self.color[1], self.color[2]]
    }
}

/// Vertices laid out one after another.
pub open spec fn vertex_words(vs: Seq<Vertex>) -> Seq<u32>
    decreases vs.len(),
{
    if vs.len() == 0 {
        Seq::empty()
    } else {
        vertex_words(vs.drop_last()) + vs.last().words()
    }
}

pub proof fn lemma_vertex_words_len(vs: Seq<Vertex>)
    ensures
        vertex_words(vs).len() == VERTEX_WORDS * vs.len(),
    decreases vs.len(),
{
    if vs.len() > 0 {
        lemma_vertex_words_len(vs.drop_last());
    }
}

/// Lays vertices out as buffer words.
pub fn flatten_vertices(vs: &Vec<Vertex>) -> (r: Vec<u32>)
    requires
        VERTEX_WORDS * vs@.len() <= usize::MAX,
    ensures
        r@ == vertex_words(vs@),
        r@.len() == VERTEX_WORDS * vs@.len(),
{
    let mut out: Vec<u32> = Vec::new();
    let mut i: usize = 0;
    while i < vs.len()
        invariant
            i <= vs@.len(),
            out@ == vertex_words(vs@.subrange(0, i as int)),
        decreases vs@.len() - i,
    {
        let v = vs[i];
        out.push(v.position[0]);
        out.push(v.position[1]);
        out.push(v.color[0]);
        out.push(v.color[1]);
        out.push(v.color[2]);
        proof {
            let next = vs@.subrange(0, i + 1);
            assert(next.drop_last() =~= vs@.subrange(0, i as int));
            assert(out@ =~= vertex_words(next));
        }
        i = i + 1;
    }
    assert(vs@.subrange(0, vs@.len() as int) =~= vs@);
    proof {
        lemma_vertex_words_len(vs@);
    }
    out
}

/// Component types a vertex attribute may have.
#[derive(Clone, Copy, Debug, PartialEq, Eq, Structural)]
pub enum VertexFormat {
    Float32x2,
    Float32x3,
    Float32x4,
}

/// Size in bytes of an attribute of this format.
pub open spec fn format_size(f: VertexFormat) -> u64 {
    match f {
        VertexFormat::Float32x2 => 8,
        VertexFormat::Float32x3 => 12,
        VertexFormat::Float32x4 => 16,
    }
}

/// Whether a buffer advances per vertex or per instance.
#[derive(Clone, Copy, Debug, PartialEq, Eq, Structural)]
pub enum VertexStepMode {
    Vertex,
    Instance,
}

#[derive(Clone, Copy, Debug, PartialEq, Eq, Structural)]
pub struct VertexAttribute {
    pub format: VertexFormat,
    pub offset: u64,
    pub shader_location: u32,
}

/// How the shader reads one vertex buffer.
#[derive(Clone, Debug)]
pub struct VertexBufferLayout {
    pub array_stride: u64,
    pub step_mode: VertexStepMode,
    pub attributes: Vec<VertexAttribute>,
}

/// Attributes lie inside the stride, in increasing order without overlap, and
/// read distinct shader locations.
pub open spec fn layout_wf(stride: u64, attrs: Seq<VertexAttribute>) -> bool {
    &&& forall|i: int|
        0 <= i < attrs.len() ==> #[trigger] attrs[i].offset + format_size(attrs[i].format)
            <= stride
    &&& forall|i: int, j: int|
        0 <= i < j < attrs.len() ==> attrs[i].offset + format_size(attrs[i].format)
            <= #[trigger] attrs[j].offset && #[trigger] attrs[i].shader_location
            != attrs[j].shader_location
}

/// Shader locations `lo..hi` hold every attribute of the layout.
pub open spec fn locations_within(attrs: Seq<VertexAttribute>, lo: u32, hi: u32) -> bool {
    forall|i: int|
        0 <= i < attrs.len() ==> lo <= #[trigger] attrs[i].shader_location < hi
}

/// Words an instance occupies in an instance buffer: a 4x4 matrix and a color.
pub const INSTANCE_WORDS: usize = 20;

impl Vertex {
    /// Layout of a per-vertex buffer of `Vertex`: position at location 0,
    /// color at location 1.
    pub fn desc() -> (r: VertexBufferLayout)
        ensures
            r.array_stride == 4 * VERTEX_WORDS,
            r.step_mode == VertexStepMode::Vertex,
            r.attributes@ == seq![
                VertexAttribute { format: VertexFormat::Float32x2, offset: 0, shader_location: 0 },
                VertexAttribute { format: VertexFormat::Float32x3, offset: 8, shader_location: 1 },
            ],
            layout_wf(r.array_stride, r.attributes@),
            locations_within(r.attributes@, 0, 2),
    {
        let attributes = vec![
            VertexAttribute { format: VertexFormat::Float32x2, offset: 0, shader_location: 0 },
            VertexAttribute { format: VertexFormat::Float32x3, offset: 8, shader_location: 1 },
        ];
        VertexBufferLayout { array_stride: 20, step_mode: VertexStepMode::Vertex, attributes }
    }

    /// Layout of a per-instance buffer: the transform's four columns at
    /// locations 2 to 5, the color at location 6.
    pub fn instance_desc() -> (r: VertexBufferLayout)
        ensures
            r.array_stride == 4 * INSTANCE_WORDS,
            r.step_mode == VertexStepMode::Instance,
            r.attributes@.len() == 5,
            forall|k: int|
                0 <= k < 5 ==> #[trigger] r.attributes@[k] == (VertexAttribute {
                    format: VertexFormat::Float32x4,
                    offset: (16 * k) as u64,
                    shader_location: (2 + k) as u32,
                }),
            layout_wf(r.array_stride, r.attributes@),
            locations_within(r.attributes@, 2, 7),
    {
        let mut attributes: Vec<VertexAttribute> = Vec::new();
        let mut k: u32 = 0;
        while k < 5
            invariant
                k <= 5,
                attributes@.len() == k,
                forall|m: int|
                    0 <= m < k ==> #[trigger] attributes@[m] == (VertexAttribute {
                        format: VertexFormat::Float32x4,
                        offset: (16 * m) as u64,
                        shader_location: (2 + m) as u32,
                    }),
            decreases 5 - k,
        {
            attributes.push(
                VertexAttribute {
                    format: VertexFormat::Float32x4,
                    offset: 16 * (k as u64),
                    shader_location: 2 + k,
                },
            );
            k = k + 1;
        }
        VertexBufferLayout { array_stride: 80, step_mode: VertexStepMode::Instance, attributes }
    }
}

/// The vertices of a triangle with a red top, green left and blue right corner.
pub fn triangle_vertices() -> (r: [Vertex; 3])
    ensures
        r@ == seq![
            Vertex { position: [F32_ZERO, F32_POINT_EIGHT], color: [F32_ONE, F32_ZERO, F32_ZERO] },
            Vertex {
                position: [F32_MINUS_POINT_EIGHT, F32_MINUS_POINT_EIGHT],
                color: [F32_ZERO, F32_ONE, F32_ZERO],
            },
            Vertex {
                position: [F32_POINT_EIGHT, F32_MINUS_POINT_EIGHT],
                color: [F32_ZERO, F32_ZERO, F32_ONE],
            },
        ],
{
    let r = [
        Vertex { position: [F32_ZERO, F32_POINT_EIGHT], color: [F32_ONE, F32_ZERO, F32_ZERO] },
        Vertex {
            position: [F32_MINUS_POINT_EIGHT, F32_MINUS_POINT_EIGHT],
            color: [F32_ZERO, F32_ONE, F32_ZERO],
        },
        Vertex {
            position: [F32_POINT_EIGHT, F32_MINUS_POINT_EIGHT],
            color: [F32_ZERO, F32_ZERO, F32_ONE],
        },
    ];
    assert(r@ =~= seq![r[0], r[1], r[2]]);
    r
}

/// The vertex buffer to create for the triangle.
pub fn create_vertex_buffer() -> (r: BufferInit)
    ensures
        r.usage == BufferUsage::Vertex,
        r.contents@.len() == 4 * VERTEX_WORDS * 3,
{
    let tri = triangle_vertices();
    let vs = vec![tri[0], tri[1], tri[2]];
    let words = flatten_vertices(&vs);
    BufferInit { usage: BufferUsage::Vertex, contents: words_to_bytes(&words) }
}

} // verus!
