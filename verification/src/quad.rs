//! The rectangle on which the picture is drawn, and the bytes of vertex and
//! index buffers.
//!
//! These buffers are read by the fixed stages of the graphics pipeline and
//! not by the ray tracer: they are words as they lie in memory, with no
//! header and no padding.

use vstd::prelude::*;
use crate::layout::le_bytes;
use crate::math::{F32, Vec2, Vec3};

verus! {

/// The bit pattern of the number one.
pub const ONE: u32 = 0x3f80_0000;

/// The bit pattern of the number minus one.
pub const MINUS_ONE: u32 = 0xbf80_0000;

/// How many bytes a vertex takes in a vertex buffer.
pub const VERTEX_SIZE: usize = 20;

/// A corner of the rectangle: where it is, and which point of the picture
/// belongs there.
#[derive(Clone, Copy, Debug, PartialEq, Eq, Structural)]
pub struct Vertex {
    pub position: Vec3,
    pub uvs: Vec2,
}

impl Vertex {
    /// The five numbers of the vertex.
    pub open spec fn words(self) -> Seq<u32> {
        seq![
            self.position.x.bits,
            self.position.y.bits,
            self.position.z.bits,
            self.uvs.x.bits,
            self.uvs.y.bits,
        ]
    }
}

/// The numbers of `vertices`, five for each.
pub open spec fn vertex_words(vertices: Seq<Vertex>) -> Seq<u32> {
    Seq::new(5 * vertices.len(), |i: int| vertices[i / 5].words()[i % 5])
}

/// The bytes of `words`, four for each, least significant first.
pub open spec fn little_endian(words: Seq<u32>) -> Seq<u8> {
    Seq::new(4 * words.len(), |i: int| le_bytes(words[i / 4])[i % 4])
}

/// The bytes of `words`, four for each, most significant first.
pub open spec fn big_endian(words: Seq<u32>) -> Seq<u8> {
    Seq::new(4 * words.len(), |i: int| le_bytes(words[i / 4])[3 - i % 4])
}

/// Whether `bytes` are `words` as a machine keeps them in memory: in the
/// one byte order or the other, the same for all.
pub open spec fn in_memory(words: Seq<u32>, bytes: Seq<u8>) -> bool {
    bytes == little_endian(words) || bytes == big_endian(words)
}

/// The bytes of `words` as they lie in memory.
///
/// Calls `bytemuck::cast_slice` from `u32` to `u8`, which hands out the
/// memory of the slice as bytes and cannot fail for these two types. What
/// the contract claims is that every word lies there in four bytes, in the
/// byte order of the machine.
#[verifier::external_body]
fn memory_of(words: &[u32]) -> (bytes: Vec<u8>)
    ensures
        in_memory(words@, bytes@),
{
    bytemuck::cast_slice::<u32, u8>(words).to_vec()
}

/// The four corners of the rectangle that fills the picture, from the upper
/// left one against the clock.
pub fn quad_vertices() -> (vertices: Vec<Vertex>)
    ensures
        vertices@ == seq![
            corner_at(MINUS_ONE, ONE, 0, ONE),
            corner_at(MINUS_ONE, MINUS_ONE, 0, 0),
            corner_at(ONE, MINUS_ONE, ONE, 0),
            corner_at(ONE, ONE, ONE, ONE),
        ],
{
    let mut vertices: Vec<Vertex> = Vec::new();
    vertices.push(corner(MINUS_ONE, ONE, 0, ONE));
    vertices.push(corner(MINUS_ONE, MINUS_ONE, 0, 0));
    vertices.push(corner(ONE, MINUS_ONE, ONE, 0));
    vertices.push(corner(ONE, ONE, ONE, ONE));
    assert(vertices@ =~= seq![
        corner_at(MINUS_ONE, ONE, 0, ONE),
        corner_at(MINUS_ONE, MINUS_ONE, 0, 0),
        corner_at(ONE, MINUS_ONE, ONE, 0),
        corner_at(ONE, ONE, ONE, ONE),
    ]);
    vertices
}

/// The two triangles of the rectangle, as places among its corners.
pub fn quad_indices() -> (indices: Vec<u32>)
    ensures
        indices@ == seq![0u32, 1, 2, 2, 3, 0],
{
    let mut indices: Vec<u32> = Vec::new();
    indices.push(0);
    indices.push(1);
    indices.push(2);
    indices.push(2);
    indices.push(3);
    indices.push(0);
    assert(indices@ =~= seq![0u32, 1, 2, 2, 3, 0]);
    indices
}

/// The corner at `(x, y, 0)` to which the point `(u, v)` of the picture
/// belongs, all given as bit patterns.
pub open spec fn corner_at(x: u32, y: u32, u: u32, v: u32) -> Vertex {
    Vertex {
        position: Vec3 { x: F32 { bits: x }, y: F32 { bits: y }, z: F32 { bits: 0 } },
        uvs: Vec2 { x: F32 { bits: u }, y: F32 { bits: v } },
    }
}

fn corner(x: u32, y: u32, u: u32, v: u32) -> (vertex: Vertex)
    ensures
        vertex == corner_at(x, y, u, v),
{
    Vertex {
        position: Vec3 { x: F32 { bits: x }, y: F32 { bits: y }, z: F32 { bits: 0 } },
        uvs: Vec2 { x: F32 { bits: u }, y: F32 { bits: v } },
    }
}

/// The bytes of a vertex buffer that holds `vertices`: five words for each,
/// as they lie in memory.
pub fn vertex_bytes(vertices: &[Vertex]) -> (bytes: Vec<u8>)
    ensures
        in_memory(vertex_words(vertices@), bytes@),
        bytes@.len() == VERTEX_SIZE * vertices@.len(),
{
    let mut words: Vec<u32> = Vec::new();
    let mut i: usize = 0;
    while i < vertices.len()
        invariant
            i <= vertices@.len(),
            words@ == vertex_words(vertices@.take(i as int)),
        decreases vertices@.len() - i,
    {
        let vertex = vertices[i];
        words.push(vertex.position.x.bits);
        words.push(vertex.position.y.bits);
        words.push(vertex.position.z.bits);
        words.push(vertex.uvs.x.bits);
        words.push(vertex.uvs.y.bits);
        i = i + 1;
        assert(words@ =~= vertex_words(vertices@.take(i as int)));
    }
    assert(vertices@.take(i as int) =~= vertices@);
    memory_of(words.as_slice())
}

/// The bytes of an index buffer that holds `indices`: one word for each,
/// as they lie in memory.
pub fn index_bytes(indices: &[u32]) -> (bytes: Vec<u8>)
    ensures
        in_memory(indices@, bytes@),
        bytes@.len() == 4 * indices@.len(),
{
    memory_of(indices)
}

} // verus!
