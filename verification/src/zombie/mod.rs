use vstd::prelude::*;
use crate::character::controls::CharacterInputState;
use crate::critter::{CritterData, ZombieSprite, ZOMBIE_STILL_FRAMES, ZOMBIE_WALK_FRAMES};
use crate::game::constants::{SPRITE_OFFSET, STILL_SPRITE_OFFSET, ZOMBIESHEET_TOTAL_WIDTH};
use crate::gfx_app::renderer::{DrawCommand, Encoder};
use crate::graphics::animation::{committed_direction, AnimationTable};
use crate::graphics::orientation::{Orientation, Stance};
use crate::shaders::{CharacterSheet, Position, Projection};

verus! {

/// Where a zombie stands while the player has not moved: x coordinate.
pub const ZOMBIE_START_X: i64 = 256;

/// Where a zombie stands while the player has not moved: y coordinate.
pub const ZOMBIE_START_Y: i64 = -32;

/// Where a zombie stands while the player has not moved.
pub open spec fn start_position() -> Position {
    Position { x: ZOMBIE_START_X, y: ZOMBIE_START_Y }
}

/// A zombie as it is drawn.
#[derive(Clone, Copy, Debug, PartialEq, Eq)]
pub struct ZombieDrawable {
    pub projection: Projection,
    pub position: Position,
    /// Where the zombie faces now.
    pub orientation: Orientation,
    pub stance: Stance,
    /// The facing that the animation shows; see `AnimationTable::select`.
    pub direction: Orientation,
}

impl ZombieDrawable {
    /// A zombie that stands still and faces left.
    pub fn new(projection: Projection) -> (z: ZombieDrawable)
        ensures
            z == (ZombieDrawable {
                projection,
                position: Position { x: 256, y: 0 },
                orientation: Orientation::Left,
                stance: Stance::Still,
                direction: Orientation::Left,
            }),
    {
        ZombieDrawable {
            projection,
            position: Position { x: 256, y: 0 },
            orientation: Orientation::Left,
            stance: Stance::Still,
            direction: Orientation::Left,
        }
    }

    /// Whether the zombie's place for the player's movement `movement` can
    /// be stored.
    pub open spec fn can_update(movement: Position) -> bool {
        start_position().can_add(movement)
    }

    /// The zombie after `update`.
    pub open spec fn updated(self, world_to_clip: Projection, movement: Position)
        -> ZombieDrawable {
        ZombieDrawable {
            projection: world_to_clip,
            position: Position {
                x: (ZOMBIE_START_X + movement.x) as i64,
                y: (ZOMBIE_START_Y + movement.y) as i64,
            },
            stance: Stance::Still,
            ..self
        }
    }

    /// Exec test of `can_update`.
    pub fn fits_update(ci: &CharacterInputState) -> (b: bool)
        ensures
            b == ZombieDrawable::can_update(ci.movement),
    {
        Position::new(ZOMBIE_START_X, ZOMBIE_START_Y).fits_add(ci.movement)
    }

    /// Takes over the tick's transform, stands still, and is placed at its
    /// start position displaced by the player's movement.
    pub fn update(&mut self, world_to_clip: &Projection, ci: &CharacterInputState)
        requires
            ZombieDrawable::can_update(ci.movement),
        ensures
            *final(self) == old(self).updated(*world_to_clip, ci.movement),
            final(self).projection == *world_to_clip,
            final(self).position.x == ZOMBIE_START_X + ci.movement.x,
            final(self).position.y == ZOMBIE_START_Y + ci.movement.y,
    {
        self.projection = *world_to_clip;
        self.stance = Stance::Still;
        self.position = Position::new(ZOMBIE_START_X, ZOMBIE_START_Y).plus(ci.movement);
    }
}

/// The zombie after it has been drawn: only its committed direction may have
/// changed.
pub open spec fn after_draw(drawable: ZombieDrawable) -> ZombieDrawable {
    ZombieDrawable {
        direction: committed_direction(drawable.stance, drawable.orientation, drawable.direction),
        ..drawable
    }
}

/// Selects the zombies' frames and records their draw operations.
pub struct ZombieDrawSystem {
    pub table: AnimationTable,
}

impl ZombieDrawSystem {
    /// A system over the zombie sheet, whose frames are `data`: four idle
    /// frames per direction, then eight walking frames per direction.
    pub fn new(data: Vec<CritterData>) -> (s: ZombieDrawSystem)
        ensures
            s.table.frames == data,
            s.table.sheet_total_width == ZOMBIESHEET_TOTAL_WIDTH,
            s.table.frame_spacing == SPRITE_OFFSET,
            s.table.stationary_frame_count == ZOMBIE_STILL_FRAMES,
            s.table.moving_frame_count == ZOMBIE_WALK_FRAMES,
            s.table.moving_table_offset == STILL_SPRITE_OFFSET,
    {
        ZombieDrawSystem {
            table: AnimationTable::new(
                data,
                ZOMBIESHEET_TOTAL_WIDTH,
                SPRITE_OFFSET,
                ZOMBIE_STILL_FRAMES,
                ZOMBIE_WALK_FRAMES,
                STILL_SPRITE_OFFSET,
            ),
        }
    }

    /// Whether a frame can be selected for `drawable`.
    pub open spec fn can_draw(self, drawable: ZombieDrawable, zombie_idx: nat) -> bool {
        self.table.can_select(
            drawable.stance,
            drawable.orientation,
            drawable.direction,
            zombie_idx,
        )
    }

    /// The cell that is selected for `drawable`.
    pub open spec fn sheet_of(self, drawable: ZombieDrawable, zombie_idx: nat) -> CharacterSheet {
        self.table.sheet_of(drawable.stance, drawable.orientation, drawable.direction, zombie_idx)
    }

    /// The operation that draws `drawable`.
    pub open spec fn command(self, drawable: ZombieDrawable, zombie_idx: nat) -> DrawCommand {
        DrawCommand::Zombie {
            projection: drawable.projection,
            position: drawable.position,
            sheet: self.sheet_of(drawable, zombie_idx),
        }
    }

    /// Exec test of `can_draw`.
    pub fn fits_draw(&self, drawable: &ZombieDrawable, zombie: &ZombieSprite) -> (b: bool)
        ensures
            b == self.can_draw(*drawable, zombie.zombie_idx as nat),
    {
        self.table.fits_select(
            drawable.stance,
            drawable.orientation,
            drawable.direction,
            zombie.zombie_idx,
        )
    }

    /// Selects the frame of `drawable` and commits its direction.
    pub fn get_next_sprite(&self, zombie_idx: usize, drawable: &mut ZombieDrawable) -> (sheet:
        CharacterSheet)
        requires
            self.can_draw(*old(drawable), zombie_idx as nat),
        ensures
            sheet == self.sheet_of(*old(drawable), zombie_idx as nat),
            *final(drawable) == after_draw(*old(drawable)),
    {
        let (sheet, committed) = self.table.select(
            drawable.stance,
            drawable.orientation,
            drawable.direction,
            zombie_idx,
        );
        drawable.direction = committed;
        sheet
    }

    /// Records the operation that draws `drawable`, and commits its direction.
    pub fn draw(&self, drawable: &mut ZombieDrawable, zombie: &ZombieSprite, encoder: &mut Encoder)
        requires
            self.can_draw(*old(drawable), zombie.zombie_idx as nat),
        ensures
            final(encoder)@ == old(encoder)@.push(
                self.command(*old(drawable), zombie.zombie_idx as nat),
            ),
            *final(drawable) == after_draw(*old(drawable)),
    {
        let projection = drawable.projection;
        let position = drawable.position;
        let sheet = self.get_next_sprite(zombie.zombie_idx, drawable);
        encoder.record(DrawCommand::Zombie { projection, position, sheet });
    }
}

/// Whether entity `i` has a zombie, a camera transform and a character input.
pub open spec fn joined(
    i: int,
    zombie: Seq<Option<ZombieDrawable>>,
    world_to_clip: Seq<Option<Projection>>,
    character_input: Seq<Option<CharacterInputState>>,
) -> bool {
    &&& 0 <= i < zombie.len()
    &&& i < world_to_clip.len()
    &&& i < character_input.len()
    &&& zombie[i].is_some()
    &&& world_to_clip[i].is_some()
    &&& character_input[i].is_some()
}

/// Whether every joined zombie can be placed for its entity's input.
pub open spec fn can_run(
    zombie: Seq<Option<ZombieDrawable>>,
    world_to_clip: Seq<Option<Projection>>,
    character_input: Seq<Option<CharacterInputState>>,
) -> bool {
    forall|i: int|
        #![trigger character_input[i]]
        joined(i, zombie, world_to_clip, character_input) ==> ZombieDrawable::can_update(
            character_input[i].unwrap().movement,
        )
}

/// Copies the tick's transform into every zombie and places the zombie.
#[derive(Clone, Copy, Debug)]
pub struct PreDrawSystem;

impl PreDrawSystem {
    pub fn new() -> PreDrawSystem {
        PreDrawSystem {  }
    }

    /// One tick of the propagation. `world_to_clip[i]` is the transform that
    /// the camera collaborator derived from the camera input of entity `i`, and
    /// `None` where the entity has no camera input.
    ///
    /// An entity that lacks one of the three components is left as it is.
    pub fn run(
        &mut self,
        zombie: &mut Vec<Option<ZombieDrawable>>,
        world_to_clip: &Vec<Option<Projection>>,
        character_input: &Vec<Option<CharacterInputState>>,
    )
        requires
            can_run(old(zombie)@, world_to_clip@, character_input@),
        ensures
            final(zombie)@.len() == old(zombie)@.len(),
            forall|i: int|
                #![trigger final(zombie)@[i]]
                0 <= i < old(zombie)@.len() ==> {
                    if joined(i, old(zombie)@, world_to_clip@, character_input@) {
                        &&& final(zombie)@[i] == Some(
                            old(zombie)@[i].unwrap().updated(
                                world_to_clip@[i].unwrap(),
                                character_input@[i].unwrap().movement,
                            ),
                        )
                        &&& final(zombie)@[i].unwrap().projection == world_to_clip@[i].unwrap()
                    } else {
                        final(zombie)@[i] == old(zombie)@[i]
                    }
                },
    {
        let n: usize = zombie.len();
        let mut i: usize = 0;
        while i < n
            invariant
                i <= n,
                n == zombie@.len(),
                n == old(zombie)@.len(),
                can_run(old(zombie)@, world_to_clip@, character_input@),
                forall|j: int| #![trigger zombie@[j]] i <= j < n ==> zombie@[j] == old(zombie)@[j],
                forall|j: int|
                    #![trigger zombie@[j]]
                    0 <= j < i ==> {
                        if joined(j, old(zombie)@, world_to_clip@, character_input@) {
                            zombie@[j] == Some(
                                old(zombie)@[j].unwrap().updated(
                                    world_to_clip@[j].unwrap(),
                                    character_input@[j].unwrap().movement,
                                ),
                            )
                        } else {
                            zombie@[j] == old(zombie)@[j]
                        }
                    },
            decreases n - i,
        {
            if i < world_to_clip.len() && i < character_input.len() {
                match (&mut zombie[i], &world_to_clip[i], &character_input[i]) {
                    (Some(z), Some(projection), Some(ci)) => {
                        assert(joined(i as int, old(zombie)@, world_to_clip@, character_input@));
                        z.update(projection, ci);
                    },
                    _ => {},
                }
            }
            i += 1;
        }
    }
}

} // verus!
