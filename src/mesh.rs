use vstd::prelude::*;

use crate::upload::{words_to_bytes, BufferInit, BufferUsage};
use crate::vertex::{
    flatten_vertices, vertex_words, Vertex, F32_HALF, F32_MINUS_HALF, F32_ONE, F32_ZERO,
    INSTANCE_WORDS, VERTEX_WORDS,
};

verus! {

/// One draw repetition of a mesh: a 4x4 transform given as four columns, and
/// an RGBA color; every component an `f32` held as its bit pattern.
#[derive(Clone, Copy, Debug)]
pub struct Instance {
    pub transform: [[u32; 4]; 4],
    pub color: [u32; 4],
}

/// An instance as the shader reads it: the transform flattened column by
/// column, then the color.
#[derive(Clone, Copy, Debug)]
pub struct InstanceRaw {
    pub transform: [u32; 16],
    pub color: [u32; 4],
}

impl InstanceRaw {
    pub open spec fn words(self) -> Seq<u32> {
        self.transform@ + self.color@
    }
}

/// Instances laid out one after another.
pub open spec fn instance_words(raws: Seq<InstanceRaw>) -> Seq<u32>
    decreases raws.len(),
{
    if raws.len() == 0 {
        Seq::empty()
    } else {
        instance_words(raws.drop_last()) + raws.last().words()
    }
}

pub proof fn lemma_instance_words_len(raws: Seq<InstanceRaw>)
    ensures
        instance_words(raws).len() == INSTANCE_WORDS * raws.len(),
    decreases raws.len(),
{
    if raws.len() > 0 {
        lemma_instance_words_len(raws.drop_last());
    }
}

/// The column-major translation matrix for the offset `(x, y, z)`, flattened:
/// the identity with the offset in the last column.
pub fn translation_matrix_flat(x: u32, y: u32, z: u32) -> (r: [u32; 16])
    ensures
        r@ == seq![
            F32_ONE, F32_ZERO, F32_ZERO, F32_ZERO,
            F32_ZERO, F32_ONE, F32_ZERO, F32_ZERO,
            F32_ZERO, F32_ZERO, F32_ONE, F32_ZERO,
            x, y, z, F32_ONE,
        ],
{
    let r = [
        F32_ONE, F32_ZERO, F32_ZERO, F32_ZERO,
        F32_ZERO, F32_ONE, F32_ZERO, F32_ZERO,
        F32_ZERO, F32_ZERO, F32_ONE, F32_ZERO,
        x, y, z, F32_ONE,
    ];
    assert(r@ =~= seq![
        r[0], r[1], r[2], r[3], r[4], r[5], r[6], r[7],
        r[8], r[9], r[10], r[11], r[12], r[13], r[14], r[15],
    ]);
    r
}

impl Instance {
    /// The instance as the shader reads it: entry `4 * c + k` of the flat
    /// transform is row `k` of column `c`.
    pub fn to_raw(&self) -> (r: InstanceRaw)
        ensures
            forall|c: int, k: int|
                0 <= c < 4 && 0 <= k < 4 ==> #[trigger] r.transform@[4 * c + k]
                    == self.transform@[c]@[k],
            r.color@ == self.color@,
    {
        let m = &self.transform;
        let transform = [
            m[0][0], m[0][1], m[0][2], m[0][3],
            m[1][0], m[1][1], m[1][2], m[1][3],
            m[2][0], m[2][1], m[2][2], m[2][3],
            m[3][0], m[3][1], m[3][2], m[3][3],
        ];
        let color = [self.color[0], self.color[1], self.color[2], self.color[3]];
        assert(color@ =~= self.color@);
        InstanceRaw { transform, color }
    }
}

/// Lays instances out as buffer words, each in its raw form.
pub fn flatten_instances(instances: &Vec<Instance>) -> (r: Vec<u32>)
    requires
        INSTANCE_WORDS * instances@.len() <= usize::MAX,
    ensures
        r@.len() == INSTANCE_WORDS * instances@.len(),
        exists|raws: Seq<InstanceRaw>|
            {
                &&& raws.len() == instances@.len()
                &&& forall|i: int|
                    0 <= i < raws.len() ==> (#[trigger] raws[i]).color@ == instances@[i].color@
                        && forall|c: int, k: int|
                        0 <= c < 4 && 0 <= k < 4 ==> #[trigger] raws[i].transform@[4 * c + k]
                            == instances@[i].transform@[c]@[k]
                &&& r@ == instance_words(raws)
            },
{
    let mut out: Vec<u32> = Vec::new();
    let mut i: usize = 0;
    let ghost mut raws: Seq<InstanceRaw> = Seq::empty();
    while i < instances.len()
        invariant
            i <= instances@.len(),
            INSTANCE_WORDS * instances@.len() <= usize::MAX,
            raws.len() == i,
            forall|j: int|
                0 <= j < raws.len() ==> (#[trigger] raws[j]).color@ == instances@[j].color@
                    && forall|c: int, k: int|
                    0 <= c < 4 && 0 <= k < 4 ==> #[trigger] raws[j].transform@[4 * c + k]
                        == instances@[j].transform@[c]@[k],
            out@ == instance_words(raws),
        decreases instances@.len() - i,
    {
        let raw = instances[i].to_raw();
        let mut w: usize = 0;
        while w < 16
            invariant
                w <= 16,
                out@ == instance_words(raws) + raw.transform@.subrange(0, w as int),
            decreases 16 - w,
        {
            out.push(raw.transform[w]);
            assert(raw.transform@.subrange(0, w + 1) =~= raw.transform@.subrange(0, w as int).push(
                raw.transform@[w as int],
            ));
            w = w + 1;
        }
        let mut k: usize = 0;
        while k < 4
            invariant
                k <= 4,
                out@ == instance_words(raws) + raw.transform@ + raw.color@.subrange(0, k as int),
            decreases 4 - k,
        {
            assert(raw.transform@.subrange(0, 16) =~= raw.transform@);
            out.push(raw.color[k]);
            assert(raw.color@.subrange(0, k + 1) =~= raw.color@.subrange(0, k as int).push(
                raw.color@[k as int],
            ));
            k = k + 1;
        }
        proof {
            assert(raw.color@.subrange(0, 4) =~= raw.color@);
            let next = raws.push(raw);
            assert(next.drop_last() =~= raws);
            assert(out@ =~= instance_words(next));
            raws = next;
        }
        i = i + 1;
    }
    proof {
        lemma_instance_words_len(raws);
    }
    out
}

/// Host-side geometry: vertices and the indices of its triangles.
#[derive(Clone, Debug)]
pub struct Mesh {
    pub verts: Vec<Vertex>,
    pub indices: Vec<u32>,
}

impl Mesh {
    /// Every index names a vertex.
    pub open spec fn wf(&self) -> bool {
        forall|i: int| 0 <= i < self.indices@.len() ==> #[trigger] self.indices@[i] < self.verts@.len()
    }

    pub fn new(verts: Vec<Vertex>, indices: Vec<u32>) -> (r: Self)
        ensures
            r.verts@ == verts@,
            r.indices@ == indices@,
    {
        Mesh { verts, indices }
    }

    /// A unit quad with a red, green, blue and yellow corner (clockwise from
    /// the top left), drawn as two counter-clockwise triangles.
    pub fn sample_quad() -> (r: Self)
        ensures
            r.verts@ == seq![
                Vertex { position: [F32_MINUS_HALF, F32_HALF], color: [F32_ONE, F32_ZERO, F32_ZERO] },
                Vertex { position: [F32_HALF, F32_HALF], color: [F32_ZERO, F32_ONE, F32_ZERO] },
                Vertex { position: [F32_HALF, F32_MINUS_HALF], color: [F32_ZERO, F32_ZERO, F32_ONE] },
                Vertex {
                    position: [F32_MINUS_HALF, F32_MINUS_HALF],
                    color: [F32_ONE, F32_ONE, F32_ZERO],
                },
            ],
            r.indices@ == seq![0u32, 2, 1, 0, 3, 2],
            r.wf(),
    {
        let verts = vec![
            Vertex { position: [F32_MINUS_HALF, F32_HALF], color: [F32_ONE, F32_ZERO, F32_ZERO] },
            Vertex { position: [F32_HALF, F32_HALF], color: [F32_ZERO, F32_ONE, F32_ZERO] },
            Vertex { position: [F32_HALF, F32_MINUS_HALF], color: [F32_ZERO, F32_ZERO, F32_ONE] },
            Vertex { position: [F32_MINUS_HALF, F32_MINUS_HALF], color: [F32_ONE, F32_ONE, F32_ZERO] },
        ];
        let indices: Vec<u32> = vec![0, 2, 1, 0, 3, 2];
        Mesh::new(verts, indices)
    }

    /// The per-instance buffer to create for `instances`.
    pub fn create_instance_buffer(instances: &Vec<Instance>) -> (r: BufferInit)
        requires
            INSTANCE_WORDS * instances@.len() <= usize::MAX,
        ensures
            r.usage == BufferUsage::Vertex,
            r.contents@.len() == 4 * INSTANCE_WORDS * instances@.len(),
    {
        let words = flatten_instances(instances);
        BufferInit { usage: BufferUsage::Vertex, contents: words_to_bytes(&words) }
    }

    /// The vertex buffer to create for this mesh.
    pub fn create_vertex_buffer(&self) -> (r: BufferInit)
        requires
            VERTEX_WORDS * self.verts@.len() <= usize::MAX,
        ensures
            r.usage == BufferUsage::Vertex,
            r.contents@.len() == 4 * VERTEX_WORDS * self.verts@.len(),
    {
        let words = flatten_vertices(&self.verts);
        assert(words@ == vertex_words(self.verts@));
        BufferInit { usage: BufferUsage::Vertex, contents: words_to_bytes(&words) }
    }

    /// The index buffer to create for this mesh.
    pub fn create_index_buffer(&self) -> (r: BufferInit)
        ensures
            r.usage == BufferUsage::Index,
            r.contents@.len() == 4 * self.indices@.len(),
    {
        BufferInit { usage: BufferUsage::Index, contents: words_to_bytes(&self.indices) }
    }
}

} // verus!
