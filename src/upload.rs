use vstd::prelude::*;

verus! {

/// What a GPU buffer is created for.
#[derive(Clone, Copy, Debug, PartialEq, Eq, Structural)]
pub enum BufferUsage {
    Vertex,
    Index,
}

/// A GPU buffer to create, initialised with `contents` and immutable after.
#[derive(Clone, Debug)]
pub struct BufferInit {
    pub usage: BufferUsage,
    pub contents: Vec<u8>,
}

/// Relies on bytemuck::cast_slice from `u32` to `u8`: it reinterprets the
/// words in place as their bytes (in the machine's byte order), four per word,
/// and never fails for this pair of types.
#[verifier::external_body]
pub(crate) fn words_to_bytes(words: &Vec<u32>) -> (r: Vec<u8>)
    ensures
        r@.len() == 4 * words@.len(),
{
    bytemuck::cast_slice::<u32, u8>(words.as_slice()).to_vec()
}

} // verus!
