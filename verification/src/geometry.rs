//! Vertex data for the sandbox's shapes, over exact integer coordinates.
//!
//! Positions are micro-units (`SCALE` per whole unit), colors are 8-bit
//! channels, texture coordinates are 0-or-1 corners. The host converts these
//! to the float layouts its vertex buffers want.

use crate::math::V3;
use vstd::prelude::*;

verus! {

/// An 8-bit RGBA color.
#[derive(Clone, Copy, Debug, PartialEq, Eq, Structural)]
pub struct Rgba {
    pub r: u8,
    pub g: u8,
    pub b: u8,
    pub a: u8,
}

/// A corner of the unit texture square.
#[derive(Clone, Copy, Debug, PartialEq, Eq, Structural)]
pub struct TexCoord {
    pub u: u8,
    pub v: u8,
}

/// A vertex carrying a position and a color.
#[derive(Clone, Copy, Debug, PartialEq, Eq, Structural)]
pub struct VertexPC {
    pub pos: V3,
    pub color: Rgba,
}

/// A vertex carrying a position and a texture coordinate.
#[derive(Clone, Copy, Debug, PartialEq, Eq, Structural)]
pub struct VertexPT {
    pub pos: V3,
    pub tex: TexCoord,
}

/// Every index points at an existing vertex.
pub open spec fn indices_valid(indices: Seq<u32>, vertex_count: nat) -> bool {
    forall|i: int| 0 <= i < indices.len() ==> (#[trigger] indices[i]) < vertex_count
}

} // verus!
