use vstd::prelude::*;
use crate::graphics::orientation::Orientation;
use crate::shaders::{Position, Projection};
use crate::terrain_shape::TerrainShapeDrawable;

verus! {

/// The shapes that lie on the terrain.
#[derive(Debug)]
pub struct TerrainShapeObjects {
    pub objects: Vec<TerrainShapeDrawable>,
}

impl TerrainShapeObjects {
    /// The shapes of the map: one, at (0, 255), facing down.
    pub fn new(projection: Projection) -> (t: TerrainShapeObjects)
        ensures
            t.objects@ == seq![
                TerrainShapeDrawable {
                    projection,
                    position: Position { x: 0, y: 255 },
                    orientation: Orientation::Down,
                },
            ],
    {
        let mut objects: Vec<TerrainShapeDrawable> = Vec::new();
        objects.push(
            TerrainShapeDrawable::new(projection, Position::new(0, 255), Orientation::Down),
        );
        assert(objects@ =~= seq![
            TerrainShapeDrawable {
                projection,
                position: Position { x: 0, y: 255 },
                orientation: Orientation::Down,
            },
        ]);
        TerrainShapeObjects { objects }
    }
}

} // verus!
