use vstd::prelude::*;
use crate::gfx_app::renderer::{DrawCommand, Encoder};
use crate::shaders::Projection;
use crate::terrain::terrain::Terrain;
use genmesh::generators::{IndexedPolygon, Plane};
use genmesh::{Triangulate, Vertices};

pub mod terrain;

verus! {

/// Cells of the terrain's plane along each axis.
pub const PLANE_CELLS: usize = 32;

/// Vertices that the cells of the terrain's plane share.
pub const PLANE_VERTICES: usize = 1089;

/// Indices that draw the terrain's plane: two triangles for each cell.
pub const PLANE_INDICES: usize = 6144;

/// The `k`-th index of a plane with `x` cells in a row.
///
/// Cell `q` lies in column `q % x` of row `q / x`, and its first corner is the
/// shared vertex `base = (q / x) * (x + 1) + q % x`. Its two triangles are
/// `base, base + 1, base + x + 2` and `base + x + 2, base + x + 1, base`.
pub open spec fn plane_index(x: nat, k: nat) -> nat {
    let q = k / 6;
    let base = (q / x) * (x + 1) + q % x;
    let corner = k % 6;
    if corner == 0 || corner == 5 {
        base
    } else if corner == 1 {
        base + 1
    } else if corner == 2 || corner == 3 {
        base + x + 2
    } else {
        base + x + 1
    }
}

/// The indices of a plane of `x` by `y` cells, cell by cell.
pub open spec fn plane_index_data(x: nat, y: nat) -> Seq<u32> {
    Seq::new(6 * x * y, |k: int| plane_index(x, k as nat) as u32)
}

/// The triangle indices of a plane of `x` by `y` cells, from genmesh:
/// `Plane::subdivide`, then `indexed_polygon_iter`, `triangulate` and
/// `vertices`.
///
/// Trusted: the polygons come in the order of their number, each as the quad
/// `base, base + 1, base + x + 2, base + x + 1`; a quad is cut into the
/// triangles of its corners 0, 1, 2 and 2, 3, 0; and the corners of each
/// triangle come in order. No index is cut short, since each is below
/// `(x + 1) * (y + 1)`.
#[verifier::external_body]
fn plane_indices(x: usize, y: usize) -> (v: Vec<u32>)
    requires
        x > 0,
        y > 0,
        (x + 1) * (y + 1) <= u32::MAX,
    ensures
        v@ == plane_index_data(x as nat, y as nat),
{
    Plane::subdivide(x, y).indexed_polygon_iter().triangulate().vertices().map(|i| i as u32).collect()
}

/// Every index of a plane names one of the vertices that its cells share.
pub proof fn lemma_plane_index_in_range(x: nat, y: nat, k: nat)
    requires
        x > 0,
        k < 6 * x * y,
    ensures
        plane_index(x, k) < (x + 1) * (y + 1),
{
    let q = k / 6;
    let row = q / x;
    let col = q % x;
    assert(q < x * y) by (nonlinear_arith)
        requires
            k < 6 * x * y,
            q == k / 6,
    ;
    assert(row < y) by (nonlinear_arith)
        requires
            q < x * y,
            row == q / x,
            x > 0,
    ;
    assert(col < x);
    assert(row * (x + 1) + col + x + 2 < (x + 1) * (y + 1)) by (nonlinear_arith)
        requires
            row + 1 <= y,
            col + 1 <= x,
    ;
}

/// One tile of the terrain as the tile shader reads it: column and row of its
/// picture on the tile sheet, and two unused numbers.
#[derive(Clone, Copy, Debug, PartialEq, Eq)]
pub struct TileMapData {
    pub data: [u32; 4],
}

impl TileMapData {
    /// The tile that stands for "nothing here".
    pub fn new_empty() -> (t: TileMapData)
        ensures
            t.data@ == seq![32u32, 32u32, 0u32, 0u32],
    {
        let t = TileMapData { data: [32, 32, 0, 0] };
        assert(t.data@ =~= seq![32u32, 32u32, 0u32, 0u32]);
        t
    }

    pub fn new(data: [u32; 4]) -> (t: TileMapData)
        ensures
            t.data == data,
    {
        TileMapData { data }
    }
}

/// The terrain as it is drawn.
#[derive(Clone, Copy, Debug, PartialEq, Eq)]
pub struct Drawable {
    pub projection: Projection,
}

impl Drawable {
    pub fn new(projection: Projection) -> (d: Drawable)
        ensures
            d.projection == projection,
    {
        Drawable { projection }
    }

    /// Takes over the tick's transform.
    pub fn update(&mut self, world_to_clip: &Projection)
        ensures
            final(self).projection == *world_to_clip,
    {
        self.projection = *world_to_clip;
    }
}

/// Holds the terrain's tiles, the indices of its plane and the transform
/// under which the terrain is drawn, and records its draw operation.
#[derive(Debug)]
pub struct DrawSystem {
    pub data: Vec<TileMapData>,
    /// Indices into the shared vertices of the plane, three for each triangle.
    pub index_data: Vec<u32>,
    /// The transform of the terrain. It is fixed when the system is made.
    pub projection: Projection,
}

impl DrawSystem {
    pub fn new(terrain: Terrain, projection: Projection) -> (s: DrawSystem)
        ensures
            s.data == terrain.tiles,
            s.projection == projection,
            s.index_data@ == plane_index_data(PLANE_CELLS as nat, PLANE_CELLS as nat),
            s.index_data@.len() == PLANE_INDICES,
            forall|k: int|
                0 <= k < s.index_data@.len() ==> (#[trigger] s.index_data@[k]) < PLANE_VERTICES,
    {
        let index_data = plane_indices(PLANE_CELLS, PLANE_CELLS);
        assert forall|k: int| 0 <= k < index_data@.len() implies (#[trigger] index_data@[k])
            < PLANE_VERTICES by {
            lemma_plane_index_in_range(PLANE_CELLS as nat, PLANE_CELLS as nat, k as nat);
        }
        DrawSystem { data: terrain.tiles, index_data, projection }
    }

    /// Records the operation that draws the terrain, under the system's own
    /// transform: the terrain does not follow the camera of `drawable`.
    pub fn draw(&self, drawable: &Drawable, encoder: &mut Encoder)
        ensures
            final(encoder)@ == old(encoder)@.push(
                DrawCommand::Terrain { projection: self.projection },
            ),
    {
        encoder.record(DrawCommand::Terrain { projection: self.projection });
    }
}

/// Copies the tick's transform into the terrain.
#[derive(Clone, Copy, Debug)]
pub struct PreDrawSystem;

impl PreDrawSystem {
    pub fn new() -> PreDrawSystem {
        PreDrawSystem {  }
    }

    /// One tick of the propagation: every entity that has a terrain holds
    /// `world_to_clip` afterwards; the others stay without one.
    pub fn run(&mut self, terrain: &mut Vec<Option<Drawable>>, world_to_clip: &Projection)
        ensures
            final(terrain)@.len() == old(terrain)@.len(),
            forall|i: int|
                #![trigger final(terrain)@[i]]
                0 <= i < old(terrain)@.len() ==> final(terrain)@[i] == if old(
                    terrain,
                )@[i].is_some() {
                    Some(Drawable { projection: *world_to_clip })
                } else {
                    None
                },
    {
        let n: usize = terrain.len();
        let mut i: usize = 0;
        while i < n
            invariant
                i <= n,
                n == terrain@.len(),
                n == old(terrain)@.len(),
                forall|j: int|
                    #![trigger terrain@[j]]
                    i <= j < n ==> terrain@[j] == old(terrain)@[j],
                forall|j: int|
                    #![trigger terrain@[j]]
                    0 <= j < i ==> terrain@[j] == if old(terrain)@[j].is_some() {
                        Some(Drawable { projection: *world_to_clip })
                    } else {
                        None
                    },
            decreases n - i,
        {
            match &mut terrain[i] {
                Some(t) => {
                    t.update(world_to_clip);
                },
                None => {},
            }
            i += 1;
        }
    }
}

} // verus!
