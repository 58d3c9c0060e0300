use vstd::prelude::*;
use crate::graphics::orientation::Orientation;
use crate::shaders::{Position, Projection};

pub mod terrain_shape_objects;

verus! {

/// A shape that lies on the terrain.
#[derive(Clone, Copy, Debug, PartialEq, Eq)]
pub struct TerrainShapeDrawable {
    pub projection: Projection,
    pub position: Position,
    pub orientation: Orientation,
}

impl TerrainShapeDrawable {
    pub fn new(projection: Projection, position: Position, orientation: Orientation) -> (d:
        TerrainShapeDrawable)
        ensures
            d == (TerrainShapeDrawable { projection, position, orientation }),
    {
        TerrainShapeDrawable { projection, position, orientation }
    }

    /// Takes over the tick's transform; nothing else changes.
    pub fn update(&mut self, world_to_clip: &Projection)
        ensures
            *final(self) == (TerrainShapeDrawable { projection: *world_to_clip, ..*old(self) }),
    {
        self.projection = *world_to_clip;
    }
}

} // verus!
