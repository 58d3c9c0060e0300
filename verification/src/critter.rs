use vstd::prelude::*;

verus! {

/// Frames of the character's run cycle.
pub const CHARACTER_RUN_FRAMES: usize = 14;

/// Frames of the character's firing animation.
pub const CHARACTER_FIRE_FRAMES: usize = 4;

/// Frames of the zombie's idle animation.
pub const ZOMBIE_STILL_FRAMES: usize = 4;

/// Frames of the zombie's walk cycle.
pub const ZOMBIE_WALK_FRAMES: usize = 8;

/// Frames of the zombie's death animation.
pub const ZOMBIE_DEATH_FRAMES: usize = 6;

/// The sub-frame that follows `idx` in a cycle of `count` frames: the next one,
/// or the first one again after the last.
pub open spec fn next_frame(idx: nat, count: nat) -> nat {
    if idx + 1 < count {
        idx + 1
    } else {
        0
    }
}

/// Exec form of `next_frame`.
pub fn step_frame(idx: usize, count: usize) -> (r: usize)
    ensures
        r == next_frame(idx as nat, count as nat),
        count > 0 ==> r < count,
{
    if count > 0 && idx < count - 1 {
        idx + 1
    } else {
        0
    }
}

/// Rectangle of one frame on its sprite sheet, in whole pixels: x, y, width,
/// height.
#[derive(Clone, Copy, Debug, PartialEq, Eq)]
pub struct CritterData {
    pub data: [u32; 4],
}

impl CritterData {
    pub fn new(data: [u32; 4]) -> (c: CritterData)
        ensures
            c.data == data,
    {
        CritterData { data }
    }

    /// Width of the frame's cell.
    pub open spec fn cell_width(self) -> nat {
        self.data[2] as nat
    }

    pub fn width(&self) -> (w: u32)
        ensures
            w == self.cell_width(),
    {
        self.data[2]
    }
}

/// Sub-frame counters of the character: one for the run cycle, one for the
/// firing animation.
#[derive(Clone, Copy, Debug, PartialEq, Eq, Structural)]
pub struct CharacterSprite {
    pub character_idx: usize,
    pub character_fire_idx: usize,
}

impl CharacterSprite {
    pub fn new() -> (s: CharacterSprite)
        ensures
            s.character_idx == 0,
            s.character_fire_idx == 0,
    {
        CharacterSprite { character_idx: 0, character_fire_idx: 0 }
    }

    /// The counters after one step of the run cycle.
    pub open spec fn after_run(self) -> CharacterSprite {
        CharacterSprite {
            character_idx: next_frame(
                self.character_idx as nat,
                CHARACTER_RUN_FRAMES as nat,
            ) as usize,
            ..self
        }
    }

    /// The counters after one step of the firing animation.
    pub open spec fn after_fire(self) -> CharacterSprite {
        CharacterSprite {
            character_fire_idx: next_frame(
                self.character_fire_idx as nat,
                CHARACTER_FIRE_FRAMES as nat,
            ) as usize,
            ..self
        }
    }

    pub fn update_run(&mut self)
        ensures
            *final(self) == old(self).after_run(),
            final(self).character_idx < CHARACTER_RUN_FRAMES,
    {
        self.character_idx = step_frame(self.character_idx, CHARACTER_RUN_FRAMES);
    }

    pub fn update_fire(&mut self)
        ensures
            *final(self) == old(self).after_fire(),
            final(self).character_fire_idx < CHARACTER_FIRE_FRAMES,
    {
        self.character_fire_idx = step_frame(self.character_fire_idx, CHARACTER_FIRE_FRAMES);
    }
}

/// Sub-frame counter of a zombie, shared by its animations.
#[derive(Clone, Copy, Debug, PartialEq, Eq, Structural)]
pub struct ZombieSprite {
    pub zombie_idx: usize,
}

impl ZombieSprite {
    pub fn new() -> (s: ZombieSprite)
        ensures
            s.zombie_idx == 0,
    {
        ZombieSprite { zombie_idx: 0 }
    }

    /// The counter after one step of a cycle of `count` frames.
    pub open spec fn after(self, count: nat) -> ZombieSprite {
        ZombieSprite { zombie_idx: next_frame(self.zombie_idx as nat, count) as usize }
    }

    pub fn update_walk(&mut self)
        ensures
            *final(self) == old(self).after(ZOMBIE_WALK_FRAMES as nat),
            final(self).zombie_idx < ZOMBIE_WALK_FRAMES,
    {
        self.zombie_idx = step_frame(self.zombie_idx, ZOMBIE_WALK_FRAMES);
    }

    pub fn update_still(&mut self)
        ensures
            *final(self) == old(self).after(ZOMBIE_STILL_FRAMES as nat),
            final(self).zombie_idx < ZOMBIE_STILL_FRAMES,
    {
        self.zombie_idx = step_frame(self.zombie_idx, ZOMBIE_STILL_FRAMES);
    }

    pub fn update_normal_death(&mut self)
        ensures
            *final(self) == old(self).after(ZOMBIE_DEATH_FRAMES as nat),
            final(self).zombie_idx < ZOMBIE_DEATH_FRAMES,
    {
        self.zombie_idx = step_frame(self.zombie_idx, ZOMBIE_DEATH_FRAMES);
    }
}

} // verus!
