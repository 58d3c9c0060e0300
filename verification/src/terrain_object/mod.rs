use vstd::prelude::*;
use crate::character::controls::CharacterInputState;
use crate::gfx_app::renderer::{DrawCommand, Encoder};
use crate::shaders::{Position, Projection};
use crate::terrain_object::terrain_objects::TerrainObjects;

pub mod terrain_objects;

verus! {

/// What a terrain object looks like. It is fixed when the object is made.
#[derive(Clone, Copy, Debug, PartialEq, Eq, Structural)]
pub enum TerrainTexture {
    House,
    Tree,
    Ammo,
}

impl TerrainTexture {
    /// Width and height of the picture of this kind of object, in pixels.
    pub open spec fn extent(self) -> (u32, u32) {
        match self {
            TerrainTexture::Ammo => (5, 7),
            TerrainTexture::House => (125, 125),
            TerrainTexture::Tree => (120, 120),
        }
    }

    /// Exec form of `extent`.
    pub fn size(self) -> (s: (u32, u32))
        ensures
            s == self.extent(),
    {
        match self {
            TerrainTexture::Ammo => (5, 7),
            TerrainTexture::House => (125, 125),
            TerrainTexture::Tree => (120, 120),
        }
    }
}

/// An object that stands on the terrain.
#[derive(Clone, Copy, Debug, PartialEq, Eq)]
pub struct TerrainObjectDrawable {
    pub projection: Projection,
    pub position: Position,
    /// The shared movement input as this object last saw it.
    pub previous_position: Position,
    pub object_type: TerrainTexture,
}

impl TerrainObjectDrawable {
    /// An object at `position` that has seen no movement yet.
    pub fn new(projection: Projection, position: Position, object_type: TerrainTexture) -> (d:
        TerrainObjectDrawable)
        ensures
            d.projection == projection,
            d.position == position,
            d.previous_position == (Position { x: 0, y: 0 }),
            d.object_type == object_type,
    {
        TerrainObjectDrawable {
            projection,
            position,
            previous_position: Position::origin(),
            object_type,
        }
    }

    /// Where the object stands when the shared movement is zero. An update
    /// never changes it.
    pub open spec fn anchor(self) -> (int, int) {
        (self.position.x - self.previous_position.x, self.position.y - self.previous_position.y)
    }

    /// Whether the object can follow the movement `movement`.
    pub open spec fn can_update(self, movement: Position) -> bool {
        self.position.can_shift(movement, self.previous_position)
    }

    /// The object after it has followed `movement` under the transform
    /// `world_to_clip`.
    pub open spec fn updated(self, world_to_clip: Projection, movement: Position)
        -> TerrainObjectDrawable {
        TerrainObjectDrawable {
            projection: world_to_clip,
            position: Position {
                x: (self.position.x + movement.x - self.previous_position.x) as i64,
                y: (self.position.y + movement.y - self.previous_position.y) as i64,
            },
            previous_position: movement,
            object_type: self.object_type,
        }
    }

    /// Exec test of `can_update`.
    pub fn fits_update(&self, ci: &CharacterInputState) -> (b: bool)
        ensures
            b == self.can_update(ci.movement),
    {
        self.position.fits_shift(ci.movement, self.previous_position)
    }

    /// Takes over the tick's transform and moves the object by what the
    /// shared movement has changed since the object last saw it.
    pub fn update(&mut self, world_to_clip: &Projection, ci: &CharacterInputState)
        requires
            old(self).can_update(ci.movement),
        ensures
            *final(self) == old(self).updated(*world_to_clip, ci.movement),
            final(self).projection == *world_to_clip,
            final(self).position.x == old(self).position.x + ci.movement.x - old(
                self,
            ).previous_position.x,
            final(self).position.y == old(self).position.y + ci.movement.y - old(
                self,
            ).previous_position.y,
            final(self).previous_position == ci.movement,
            final(self).object_type == old(self).object_type,
            final(self).anchor() == old(self).anchor(),
    {
        self.projection = *world_to_clip;
        self.position = self.position.shifted(ci.movement, self.previous_position);
        self.previous_position = ci.movement;
    }
}

/// Records the draw operations of terrain objects.
#[derive(Debug)]
pub struct TerrainObjectDrawSystem {
    pub texture: TerrainTexture,
}

impl TerrainObjectDrawSystem {
    pub fn new(texture: TerrainTexture) -> (s: TerrainObjectDrawSystem)
        ensures
            s.texture == texture,
    {
        TerrainObjectDrawSystem { texture }
    }

    /// The operation that draws `drawable` at the time `time_passed`.
    pub open spec fn command(
        self,
        drawable: TerrainObjectDrawable,
        time_passed: u64,
    ) -> DrawCommand {
        DrawCommand::TerrainObject {
            projection: drawable.projection,
            position: drawable.position,
            time_passed,
            texture: self.texture,
        }
    }

    pub fn draw(&self, drawable: &TerrainObjectDrawable, time_passed: u64, encoder: &mut Encoder)
        ensures
            final(encoder)@ == old(encoder)@.push(self.command(*drawable, time_passed)),
    {
        encoder.record(
            DrawCommand::TerrainObject {
                projection: drawable.projection,
                position: drawable.position,
                time_passed,
                texture: self.texture,
            },
        );
    }
}

/// Whether entity `i` has all the components that the propagation to terrain
/// objects joins.
pub open spec fn joined(
    i: int,
    world_to_clip: Seq<Option<Projection>>,
    character_input: Seq<Option<CharacterInputState>>,
    terrain_objects: Seq<Option<TerrainObjects>>,
) -> bool {
    &&& 0 <= i < world_to_clip.len()
    &&& i < character_input.len()
    &&& i < terrain_objects.len()
    &&& world_to_clip[i].is_some()
    &&& character_input[i].is_some()
    &&& terrain_objects[i].is_some()
}

/// Whether every object of every joined entity can follow its entity's
/// movement input.
pub open spec fn can_run(
    world_to_clip: Seq<Option<Projection>>,
    character_input: Seq<Option<CharacterInputState>>,
    terrain_objects: Seq<Option<TerrainObjects>>,
) -> bool {
    forall|i: int|
        #![trigger terrain_objects[i]]
        joined(i, world_to_clip, character_input, terrain_objects)
            ==> terrain_objects[i].unwrap().can_update(character_input[i].unwrap().movement)
}

/// Copies the tick's transform into every terrain object and lets it follow
/// the shared movement.
#[derive(Clone, Copy, Debug)]
pub struct PreDrawSystem;

impl PreDrawSystem {
    /// One tick of the propagation. `world_to_clip[i]` is the transform that
    /// the camera collaborator derived from the camera input of entity `i`, and
    /// `None` where the entity has no camera input.
    ///
    /// An entity that lacks one of the three components is left as it is.
    pub fn run(
        &mut self,
        world_to_clip: &Vec<Option<Projection>>,
        character_input: &Vec<Option<CharacterInputState>>,
        terrain_objects: &mut Vec<Option<TerrainObjects>>,
    )
        requires
            can_run(world_to_clip@, character_input@, old(terrain_objects)@),
        ensures
            final(terrain_objects)@.len() == old(terrain_objects)@.len(),
            forall|i: int|
                #![trigger final(terrain_objects)@[i]]
                0 <= i < old(terrain_objects)@.len() ==> {
                    if joined(i, world_to_clip@, character_input@, old(terrain_objects)@) {
                        &&& final(terrain_objects)@[i].is_some()
                        &&& final(terrain_objects)@[i].unwrap()@ == old(
                            terrain_objects,
                        )@[i].unwrap().updated(
                            world_to_clip@[i].unwrap(),
                            character_input@[i].unwrap().movement,
                        )
                    } else {
                        final(terrain_objects)@[i] == old(terrain_objects)@[i]
                    }
                },
    {
        let n: usize = terrain_objects.len();
        let mut i: usize = 0;
        while i < n
            invariant
                i <= n,
                n == terrain_objects@.len(),
                n == old(terrain_objects)@.len(),
                can_run(world_to_clip@, character_input@, old(terrain_objects)@),
                forall|j: int|
                    #![trigger terrain_objects@[j]]
                    i <= j < n ==> terrain_objects@[j] == old(terrain_objects)@[j],
                forall|j: int|
                    #![trigger terrain_objects@[j]]
                    0 <= j < i ==> {
                        if joined(j, world_to_clip@, character_input@, old(terrain_objects)@) {
                            &&& terrain_objects@[j].is_some()
                            &&& terrain_objects@[j].unwrap()@ == old(
                                terrain_objects,
                            )@[j].unwrap().updated(
                                world_to_clip@[j].unwrap(),
                                character_input@[j].unwrap().movement,
                            )
                        } else {
                            terrain_objects@[j] == old(terrain_objects)@[j]
                        }
                    },
            decreases n - i,
        {
            if i < world_to_clip.len() && i < character_input.len() {
                match (&world_to_clip[i], &character_input[i], &mut terrain_objects[i]) {
                    (Some(projection), Some(ci), Some(objects)) => {
                        objects.update(projection, ci);
                    },
                    _ => {},
                }
            }
            i += 1;
        }
    }
}

/// Following the same movement a second time moves no object: the propagation
/// may reach an object any number of times in a tick.
pub proof fn lemma_update_is_idempotent(
    d: TerrainObjectDrawable,
    world_to_clip: Projection,
    movement: Position,
)
    requires
        d.can_update(movement),
    ensures
        d.updated(world_to_clip, movement).can_update(movement),
        d.updated(world_to_clip, movement).updated(world_to_clip, movement) == d.updated(
            world_to_clip,
            movement,
        ),
        d.updated(world_to_clip, movement).anchor() == d.anchor(),
{
}

} // verus!
