//! Triangle topology of the globe and the colour of each vertex.
use vstd::prelude::*;
use crate::geometry::{NDC_ONE, Rgb};

verus! {

/// A vertex position in world space, `NDC_ONE` standing for 1.0.
#[derive(Clone, Copy, Debug, PartialEq, Eq, Structural)]
pub struct WorldPoint {
    pub x: i32,
    pub y: i32,
    pub z: i32,
}

/// A colour channel from a coordinate: the coordinate times 255, truncated
/// toward zero and saturated to `0..=255`.
pub open spec fn channel(c: int) -> int {
    if c <= 0 {
        0
    } else if c * 255 / (NDC_ONE as int) >= 255 {
        255
    } else {
        c * 255 / (NDC_ONE as int)
    }
}

/// The colour of a vertex: `x`, `y`, `z` give red, green and blue.
pub open spec fn color_of(p: WorldPoint) -> Rgb {
    Rgb { r: channel(p.x as int) as u8, g: channel(p.y as int) as u8, b: channel(p.z as int) as u8 }
}

fn channel_of(c: i32) -> (r: u8)
    ensures
        r == channel(c as int),
{
    if c <= 0 {
        0
    } else {
        let v = (c as i64) * 255 / NDC_ONE;
        if v >= 255 {
            255
        } else {
            v as u8
        }
    }
}

/// The colour of a vertex at world position `p`.
pub fn vertex_color(p: WorldPoint) -> (r: Rgb)
    ensures
        r == color_of(p),
{
    Rgb { r: channel_of(p.x), g: channel_of(p.y), b: channel_of(p.z) }
}

/// The triangles of a mesh: each run of three `indices` names one triangle,
/// clockwise as seen from outside; `colors` holds one colour per vertex.
pub struct Mesh {
    pub colors: Vec<Rgb>,
    pub indices: Vec<u32>,
}

/// The indices form whole triangles and each names one of `n` vertices.
pub open spec fn valid_indices(indices: Seq<u32>, n: nat) -> bool {
    &&& indices.len() % 3 == 0
    &&& forall|i: int| 0 <= i < indices.len() ==> (#[trigger] indices[i]) < n
}

impl Mesh {
    pub open spec fn wf(&self) -> bool {
        valid_indices(self.indices@, self.colors@.len())
    }

    /// Number of vertices.
    pub open spec fn vertex_count(&self) -> nat {
        self.colors@.len()
    }

    /// Number of triangles.
    pub open spec fn triangle_count(&self) -> nat {
        self.indices@.len() / 3
    }

    /// Builds a mesh, refusing index data that does not form whole triangles
    /// or that names a vertex past the end.
    pub fn new(colors: Vec<Rgb>, indices: Vec<u32>) -> (r: Option<Mesh>)
        ensures
            r.is_some() <==> valid_indices(indices@, colors@.len()),
            r matches Some(m) ==> m.colors@ == colors@ && m.indices@ == indices@ && m.wf(),
    {
        if indices.len() % 3 != 0 {
            return None;
        }
        let n = colors.len();
        let mut i: usize = 0;
        while i < indices.len()
            invariant
                0 <= i <= indices.len(),
                n == colors@.len(),
                forall|j: int| 0 <= j < i ==> (#[trigger] indices@[j]) < n,
            decreases indices.len() - i,
        {
            if indices[i] as usize >= n {
                return None;
            }
            i = i + 1;
        }
        Some(Mesh { colors, indices })
    }
}

} // verus!
