//! The two demo triangles, three colored vertices each.

use crate::geometry::{Rgba, VertexPC};
use crate::math::V3;
use vstd::prelude::*;

verus! {

pub struct Tri1 {
    pub vertices: Vec<VertexPC>,
}

pub struct Tri2 {
    pub vertices: Vec<VertexPC>,
}

/// Left triangle: red bottom right, green bottom left, blue top.
pub open spec fn tri1_vertices() -> Seq<VertexPC> {
    seq![
        (VertexPC {
            pos: V3 { x: 0, y: -500_000i64, z: 0 },
            color: Rgba { r: 255, g: 0, b: 0, a: 255 },
        }),
        (VertexPC {
            pos: V3 { x: -1_000_000i64, y: -500_000i64, z: 0 },
            color: Rgba { r: 0, g: 255, b: 0, a: 255 },
        }),
        (VertexPC {
            pos: V3 { x: -500_000i64, y: 500_000, z: 0 },
            color: Rgba { r: 0, g: 0, b: 255, a: 255 },
        }),
    ]
}

/// Right triangle, in teal, pink and pale yellow.
pub open spec fn tri2_vertices() -> Seq<VertexPC> {
    seq![
        (VertexPC {
            pos: V3 { x: 1_000_000, y: -500_000i64, z: 0 },
            color: Rgba { r: 0, g: 180, b: 180, a: 255 },
        }),
        (VertexPC {
            pos: V3 { x: 0, y: -500_000i64, z: 0 },
            color: Rgba { r: 255, g: 102, b: 178, a: 255 },
        }),
        (VertexPC {
            pos: V3 { x: 500_000, y: 500_000, z: 0 },
            color: Rgba { r: 255, g: 255, b: 133, a: 255 },
        }),
    ]
}

impl Tri1 {
    pub open spec fn wf(self) -> bool {
        self.vertices@.len() == 3
    }

    pub fn new() -> (t: Tri1)
        ensures
            t.vertices@ == tri1_vertices(),
            t.wf(),
    {
        let vertices: Vec<VertexPC> = vec![
            VertexPC {
                pos: V3 { x: 0, y: -500_000i64, z: 0 },
                color: Rgba { r: 255, g: 0, b: 0, a: 255 },
            },
            VertexPC {
                pos: V3 { x: -1_000_000i64, y: -500_000i64, z: 0 },
                color: Rgba { r: 0, g: 255, b: 0, a: 255 },
            },
            VertexPC {
                pos: V3 { x: -500_000i64, y: 500_000, z: 0 },
                color: Rgba { r: 0, g: 0, b: 255, a: 255 },
            },
        ];
        proof {
            assert(vertices@ =~= tri1_vertices());
        }
        Tri1 { vertices }
    }

    /// Number of vertices a draw call must cover.
    pub fn vertex_count(&self) -> (n: i32)
        requires
            self.wf(),
        ensures
            n == 3,
    {
        self.vertices.len() as i32
    }
}

impl Tri2 {
    pub open spec fn wf(self) -> bool {
        self.vertices@.len() == 3
    }

    pub fn new() -> (t: Tri2)
        ensures
            t.vertices@ == tri2_vertices(),
            t.wf(),
    {
        let vertices: Vec<VertexPC> = vec![
            VertexPC {
                pos: V3 { x: 1_000_000, y: -500_000i64, z: 0 },
                color: Rgba { r: 0, g: 180, b: 180, a: 255 },
            },
            VertexPC {
                pos: V3 { x: 0, y: -500_000i64, z: 0 },
                color: Rgba { r: 255, g: 102, b: 178, a: 255 },
            },
            VertexPC {
                pos: V3 { x: 500_000, y: 500_000, z: 0 },
                color: Rgba { r: 255, g: 255, b: 133, a: 255 },
            },
        ];
        proof {
            assert(vertices@ =~= tri2_vertices());
        }
        Tri2 { vertices }
    }

    /// Number of vertices a draw call must cover.
    pub fn vertex_count(&self) -> (n: i32)
        requires
            self.wf(),
        ensures
            n == 3,
    {
        self.vertices.len() as i32
    }
}

} // verus!
