//! Byte layout of the vertex buffer and the index data of the textured
//! quad.
//!
//! A vertex is a packed run of float attributes (a position of three
//! components, a texture coordinate of two), each component four bytes
//! wide. The offsets and the stride that the vertex buffer descriptor
//! needs are plain arithmetic over the component counts, and are computed
//! and proved here; the quad's index list is proved to stay inside its
//! four vertices, which is what the indexed draw call requires.

use vstd::prelude::*;

verus! {

/// Bytes per attribute component: every attribute of the quad's vertex is
/// made of 32-bit floats.
pub const COMPONENT_BYTES: u32 = 4;

/// The quad has four vertices, one per corner.
pub const QUAD_VERTEX_COUNT: u16 = 4;

/// Byte size of the first `n` attributes of a vertex whose attributes
/// have `counts` components each: four bytes per component, packed with
/// no padding.
pub open spec fn packed_bytes(counts: Seq<u32>, n: int) -> int
    decreases n,
{
    if n <= 0 {
        0
    } else {
        packed_bytes(counts, n - 1) + COMPONENT_BYTES * counts[n - 1]
    }
}

/// The packed size grows with the number of attributes taken.
pub proof fn lemma_packed_bytes_mono(counts: Seq<u32>, m: int, n: int)
    requires
        0 <= m <= n,
    ensures
        packed_bytes(counts, m) <= packed_bytes(counts, n),
    decreases n,
{
    if m < n {
        lemma_packed_bytes_mono(counts, m, n - 1);
    }
}

/// Compute the byte offset of each attribute and the stride of the whole
/// vertex, for attributes of `counts` components each. Returns `None`
/// exactly when the packed vertex would not fit the 32-bit stride the
/// vertex buffer descriptor carries.
pub fn attr_layout(counts: &Vec<u32>) -> (r: Option<(Vec<u32>, u32)>)
    ensures
        r is Some <==> packed_bytes(counts@, counts@.len() as int) <= u32::MAX,
        r matches Some(l) ==> {
            &&& l.0@.len() == counts@.len()
            &&& forall|i: int| 0 <= i < l.0@.len() ==> l.0@[i] == packed_bytes(counts@, i)
            &&& l.1 == packed_bytes(counts@, counts@.len() as int)
        },
{
    let mut offsets: Vec<u32> = Vec::new();
    let mut at: u64 = 0;
    let mut i: usize = 0;
    while i < counts.len()
        invariant
            i <= counts@.len(),
            at == packed_bytes(counts@, i as int),
            at <= u32::MAX,
            offsets@.len() == i,
            forall|j: int| 0 <= j < i ==> offsets@[j] == packed_bytes(counts@, j),
        decreases counts@.len() - i,
    {
        offsets.push(at as u32);
        at = at + (COMPONENT_BYTES as u64) * (counts[i] as u64);
        if at > u32::MAX as u64 {
            proof {
                lemma_packed_bytes_mono(counts@, i + 1, counts@.len() as int);
            }
            return None;
        }
        i += 1;
    }
    Some((offsets, at as u32))
}

/// Whether every index stays below the vertex count, as an indexed draw
/// over `n` vertices requires.
pub open spec fn indices_in_bounds(indices: Seq<u16>, n: u16) -> bool {
    forall|i: int| 0 <= i < indices.len() ==> indices[i] < n
}

/// The index list of the textured quad: two counter-clockwise triangles
/// over its four corners, every index inside the quad's vertices.
pub fn quad_indices() -> (r: Vec<u16>)
    ensures
        r@ =~= seq![0u16, 1u16, 2u16, 2u16, 3u16, 0u16],
        indices_in_bounds(r@, QUAD_VERTEX_COUNT),
{
    let mut v: Vec<u16> = Vec::new();
    v.push(0);
    v.push(1);
    v.push(2);
    v.push(2);
    v.push(3);
    v.push(0);
    v
}

} // verus!
