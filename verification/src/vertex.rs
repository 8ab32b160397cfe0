//! One vertex of the mesh, as the pipeline reads it.

use vstd::prelude::*;
use crate::pod::{Pod, u32_le, u32_of_le, push_u32_le, read_u32_le};
use crate::pod::{lemma_u32_le_round_trip, lemma_u32_of_le_round_trip};

verus! {

/// The number of bytes that one vertex takes in a vertex buffer.
pub const VERTEX_SIZE: usize = 24;

/// The byte offset of the position within a vertex.
pub const POSITION_OFFSET: usize = 0;

/// The byte offset of the normal within a vertex.
pub const NORMAL_OFFSET: usize = 12;

/// A position and an outward normal, each of three single precision
/// numbers held as their IEEE 754 bit patterns.
#[derive(Clone, Copy, Debug, PartialEq, Eq)]
pub struct Vertex {
    pub position: [u32; 3],
    pub normal: [u32; 3],
}

/// The bytes of three numbers, in order.
pub open spec fn triple_le(t: [u32; 3]) -> Seq<u8> {
    u32_le(t[0]) + u32_le(t[1]) + u32_le(t[2])
}

impl Pod for Vertex {
    open spec fn encoding(&self) -> Seq<u8> {
        triple_le(self.position) + triple_le(self.normal)
    }

    fn bytes(&self) -> (out: Vec<u8>) {
        let mut out: Vec<u8> = Vec::new();
        push_u32_le(&mut out, self.position[0]);
        push_u32_le(&mut out, self.position[1]);
        push_u32_le(&mut out, self.position[2]);
        push_u32_le(&mut out, self.normal[0]);
        push_u32_le(&mut out, self.normal[1]);
        push_u32_le(&mut out, self.normal[2]);
        assert(out@ =~= self.encoding());
        out
    }
}

impl Vertex {
    /// The vertex that `bytes` stand for, where there are as many as a vertex takes.
    pub open spec fn decoding(bytes: Seq<u8>) -> Vertex
        recommends
            bytes.len() == VERTEX_SIZE,
    {
        Vertex {
            position: [
                u32_of_le(bytes[0], bytes[1], bytes[2], bytes[3]),
                u32_of_le(bytes[4], bytes[5], bytes[6], bytes[7]),
                u32_of_le(bytes[8], bytes[9], bytes[10], bytes[11]),
            ],
            normal: [
                u32_of_le(bytes[12], bytes[13], bytes[14], bytes[15]),
                u32_of_le(bytes[16], bytes[17], bytes[18], bytes[19]),
                u32_of_le(bytes[20], bytes[21], bytes[22], bytes[23]),
            ],
        }
    }

    /// Reads a vertex back from its bytes; `None` unless there are exactly
    /// as many bytes as a vertex takes.
    pub fn from_bytes(bytes: &[u8]) -> (v: Option<Vertex>)
        ensures
            v.is_some() <==> bytes@.len() == VERTEX_SIZE,
            v.is_some() ==> v.unwrap() == Vertex::decoding(bytes@),
    {
        if bytes.len() != VERTEX_SIZE {
            return None;
        }
        let position = [read_u32_le(bytes, 0), read_u32_le(bytes, 4), read_u32_le(bytes, 8)];
        let normal = [read_u32_le(bytes, 12), read_u32_le(bytes, 16), read_u32_le(bytes, 20)];
        Some(Vertex { position, normal })
    }

    /// Every vertex takes the same number of bytes.
    pub proof fn lemma_encoding_len(self)
        ensures
            self.encoding().len() == VERTEX_SIZE,
    {
    }

    /// A vertex written out and read back is the same vertex.
    pub proof fn lemma_decode_encode(self)
        ensures
            Vertex::decoding(self.encoding()) == self,
    {
        lemma_u32_le_round_trip(self.position[0]);
        lemma_u32_le_round_trip(self.position[1]);
        lemma_u32_le_round_trip(self.position[2]);
        lemma_u32_le_round_trip(self.normal[0]);
        lemma_u32_le_round_trip(self.normal[1]);
        lemma_u32_le_round_trip(self.normal[2]);
        let d = Vertex::decoding(self.encoding());
        assert(d.position =~= self.position);
        assert(d.normal =~= self.normal);
    }

    /// Bytes read as a vertex and written out again are the same bytes.
    pub proof fn lemma_encode_decode(bytes: Seq<u8>)
        requires
            bytes.len() == VERTEX_SIZE,
        ensures
            Vertex::decoding(bytes).encoding() == bytes,
    {
        lemma_u32_of_le_round_trip(bytes[0], bytes[1], bytes[2], bytes[3]);
        lemma_u32_of_le_round_trip(bytes[4], bytes[5], bytes[6], bytes[7]);
        lemma_u32_of_le_round_trip(bytes[8], bytes[9], bytes[10], bytes[11]);
        lemma_u32_of_le_round_trip(bytes[12], bytes[13], bytes[14], bytes[15]);
        lemma_u32_of_le_round_trip(bytes[16], bytes[17], bytes[18], bytes[19]);
        lemma_u32_of_le_round_trip(bytes[20], bytes[21], bytes[22], bytes[23]);
        assert(Vertex::decoding(bytes).encoding() =~= bytes);
    }
}

} // verus!
