use vstd::prelude::*;
use crate::critter::CharacterSprite;
use crate::gfx_app::renderer::{DrawCommand, Encoder};
use crate::graphics::animation::{committed_direction, AnimationTable};
use crate::graphics::orientation::{Orientation, Stance};
use crate::shaders::{CharacterSheet, Position, Projection};

pub mod controls;

verus! {

/// Four numbers that describe the character to its shader.
#[derive(Clone, Copy, Debug, PartialEq, Eq)]
pub struct CharacterData {
    pub data: [u32; 4],
}

impl CharacterData {
    pub fn new(data: [u32; 4]) -> (c: CharacterData)
        ensures
            c.data == data,
    {
        CharacterData { data }
    }
}

/// The player's character as it is drawn.
#[derive(Clone, Copy, Debug, PartialEq, Eq)]
pub struct Drawable {
    pub projection: Projection,
    pub position: Position,
    /// Where the character faces now.
    pub orientation: Orientation,
    pub stance: Stance,
    /// The facing that the animation shows; see `AnimationTable::select`.
    pub direction: Orientation,
}

impl Drawable {
    /// A character at the origin that stands still and faces right.
    pub fn new(projection: Projection) -> (d: Drawable)
        ensures
            d == (Drawable {
                projection,
                position: Position { x: 0, y: 0 },
                orientation: Orientation::Right,
                stance: Stance::Still,
                direction: Orientation::Right,
            }),
    {
        Drawable {
            projection,
            position: Position::origin(),
            orientation: Orientation::Right,
            stance: Stance::Still,
            direction: Orientation::Right,
        }
    }

    /// Takes over the tick's transform; nothing else changes.
    pub fn update(&mut self, world_to_clip: &Projection)
        ensures
            *final(self) == (Drawable { projection: *world_to_clip, ..*old(self) }),
    {
        self.projection = *world_to_clip;
    }
}

/// The counter that numbers the frames of the animation shown in `stance`.
pub open spec fn sub_frame(stance: Stance, sprite: CharacterSprite) -> nat {
    if stance == Stance::Firing {
        sprite.character_fire_idx as nat
    } else {
        sprite.character_idx as nat
    }
}

/// Selects the character's frames and records its draw operations.
pub struct DrawSystem {
    pub table: AnimationTable,
}

impl DrawSystem {
    pub fn new(table: AnimationTable) -> (s: DrawSystem)
        ensures
            s.table == table,
    {
        DrawSystem { table }
    }

    /// Whether a frame can be selected for `drawable`.
    pub open spec fn can_draw(self, drawable: Drawable, sprite: CharacterSprite) -> bool {
        self.table.can_select(
            drawable.stance,
            drawable.orientation,
            drawable.direction,
            sub_frame(drawable.stance, sprite),
        )
    }

    /// The cell that is selected for `drawable`.
    pub open spec fn sheet_of(self, drawable: Drawable, sprite: CharacterSprite) -> CharacterSheet {
        self.table.sheet_of(
            drawable.stance,
            drawable.orientation,
            drawable.direction,
            sub_frame(drawable.stance, sprite),
        )
    }

    /// The operation that draws `drawable`.
    pub open spec fn command(self, drawable: Drawable, sprite: CharacterSprite) -> DrawCommand {
        DrawCommand::Character {
            projection: drawable.projection,
            position: drawable.position,
            sheet: self.sheet_of(drawable, sprite),
        }
    }

    /// Exec test of `can_draw`.
    pub fn fits_draw(&self, drawable: &Drawable, sprite: &CharacterSprite) -> (b: bool)
        ensures
            b == self.can_draw(*drawable, *sprite),
    {
        let k: usize = if drawable.stance.is_firing() {
            sprite.character_fire_idx
        } else {
            sprite.character_idx
        };
        self.table.fits_select(drawable.stance, drawable.orientation, drawable.direction, k)
    }

    /// Selects the frame of `drawable` and commits its direction.
    pub fn get_next_sprite(&self, sprite: &CharacterSprite, drawable: &mut Drawable) -> (sheet:
        CharacterSheet)
        requires
            self.can_draw(*old(drawable), *sprite),
        ensures
            sheet == self.sheet_of(*old(drawable), *sprite),
            *final(drawable) == after_draw(*old(drawable)),
    {
        let k: usize = if drawable.stance.is_firing() {
            sprite.character_fire_idx
        } else {
            sprite.character_idx
        };
        let (sheet, committed) = self.table.select(
            drawable.stance,
            drawable.orientation,
            drawable.direction,
            k,
        );
        drawable.direction = committed;
        sheet
    }

    /// Records the operation that draws `drawable`, and commits its direction.
    pub fn draw(&self, drawable: &mut Drawable, sprite: &CharacterSprite, encoder: &mut Encoder)
        requires
            self.can_draw(*old(drawable), *sprite),
        ensures
            final(encoder)@ == old(encoder)@.push(self.command(*old(drawable), *sprite)),
            *final(drawable) == after_draw(*old(drawable)),
    {
        let projection = drawable.projection;
        let position = drawable.position;
        let sheet = self.get_next_sprite(sprite, drawable);
        encoder.record(DrawCommand::Character { projection, position, sheet });
    }
}

/// The character after it has been drawn: only its committed direction may
/// have changed.
pub open spec fn after_draw(drawable: Drawable) -> Drawable {
    Drawable {
        direction: committed_direction(drawable.stance, drawable.orientation, drawable.direction),
        ..drawable
    }
}

/// Whether entity `i` has a character and a camera transform.
pub open spec fn joined(
    i: int,
    character: Seq<Option<Drawable>>,
    world_to_clip: Seq<Option<Projection>>,
) -> bool {
    &&& 0 <= i < character.len()
    &&& i < world_to_clip.len()
    &&& character[i].is_some()
    &&& world_to_clip[i].is_some()
}

/// Copies the tick's transform into every character.
#[derive(Clone, Copy, Debug)]
pub struct PreDrawSystem;

impl PreDrawSystem {
    pub fn new() -> PreDrawSystem {
        PreDrawSystem {  }
    }

    /// One tick of the propagation. `world_to_clip[i]` is the transform that
    /// the camera collaborator derived from the input of entity `i`, and
    /// `None` where the entity has no input.
    ///
    /// Afterwards every character with an input holds exactly its transform
    /// and is otherwise unchanged; an entity that lacks one of the two is left
    /// as it is.
    pub fn run(
        &mut self,
        character: &mut Vec<Option<Drawable>>,
        world_to_clip: &Vec<Option<Projection>>,
    )
        ensures
            final(character)@.len() == old(character)@.len(),
            forall|i: int|
                #![trigger final(character)@[i]]
                0 <= i < old(character)@.len() ==> {
                    if joined(i, old(character)@, world_to_clip@) {
                        &&& final(character)@[i] == Some(
                            Drawable {
                                projection: world_to_clip@[i].unwrap(),
                                ..old(character)@[i].unwrap()
                            },
                        )
                        &&& final(character)@[i].unwrap().projection == world_to_clip@[i].unwrap()
                    } else {
                        final(character)@[i] == old(character)@[i]
                    }
                },
    {
        let n: usize = character.len();
        let mut i: usize = 0;
        while i < n
            invariant
                i <= n,
                n == character@.len(),
                n == old(character)@.len(),
                forall|j: int|
                    #![trigger character@[j]]
                    i <= j < n ==> character@[j] == old(character)@[j],
                forall|j: int|
                    #![trigger character@[j]]
                    0 <= j < i ==> {
                        if joined(j, old(character)@, world_to_clip@) {
                            character@[j] == Some(
                                Drawable {
                                    projection: world_to_clip@[j].unwrap(),
                                    ..old(character)@[j].unwrap()
                                },
                            )
                        } else {
                            character@[j] == old(character)@[j]
                        }
                    },
            decreases n - i,
        {
            if i < world_to_clip.len() {
                match (&mut character[i], &world_to_clip[i]) {
                    (Some(c), Some(projection)) => {
                        c.update(projection);
                    },
                    _ => {},
                }
            }
            i += 1;
        }
    }
}

} // verus!
