use vstd::prelude::*;
use crate::bullet;
use crate::bullet::bullets::{advanced, can_advance, survivors, Bullets};
use crate::bullet::BulletDrawable;
use crate::character;
use crate::critter::{
    CharacterSprite,
    ZombieSprite,
    ZOMBIE_DEATH_FRAMES,
    ZOMBIE_STILL_FRAMES,
    ZOMBIE_WALK_FRAMES,
};
use crate::gfx_app::renderer::{DrawCommand, Encoder, EncoderQueue, Holder, CLEAR_COLOR};
use crate::graphics::cooldown::Cooldown;
use crate::graphics::orientation::Stance;
use crate::terrain;
use crate::zombie;
use crate::zombie::{ZombieDrawSystem, ZombieDrawable};

verus! {

/// The component stores that a frame joins. Entity `i` has its components at
/// place `i` of each store, and `None` where it lacks one.
pub struct World {
    pub terrain: Vec<Option<terrain::Drawable>>,
    pub character: Vec<Option<character::Drawable>>,
    pub character_sprite: Vec<Option<CharacterSprite>>,
    pub zombie: Vec<Option<ZombieDrawable>>,
    pub zombie_sprite: Vec<Option<ZombieSprite>>,
    pub bullets: Vec<Option<Bullets>>,
}

impl World {
    /// A world without entities.
    pub fn new() -> (w: World)
        ensures
            w.terrain@.len() == 0,
            w.character@.len() == 0,
            w.character_sprite@.len() == 0,
            w.zombie@.len() == 0,
            w.zombie_sprite@.len() == 0,
            w.bullets@.len() == 0,
    {
        World {
            terrain: Vec::new(),
            character: Vec::new(),
            character_sprite: Vec::new(),
            zombie: Vec::new(),
            zombie_sprite: Vec::new(),
            bullets: Vec::new(),
        }
    }

    /// Whether entity `i` has every component that a frame joins. Only such
    /// an entity is animated and drawn.
    pub open spec fn joined(self, i: int) -> bool {
        &&& 0 <= i < self.terrain@.len()
        &&& i < self.character@.len()
        &&& i < self.character_sprite@.len()
        &&& i < self.zombie@.len()
        &&& i < self.zombie_sprite@.len()
        &&& i < self.bullets@.len()
        &&& self.terrain@[i].is_some()
        &&& self.character@[i].is_some()
        &&& self.character_sprite@[i].is_some()
        &&& self.zombie@[i].is_some()
        &&& self.zombie_sprite@[i].is_some()
        &&& self.bullets@[i].is_some()
    }

    /// Whether every bullet of every joined entity can take one step.
    pub open spec fn can_advance(self) -> bool {
        forall|i: int|
            #![trigger self.bullets@[i]]
            self.joined(i) ==> can_advance(self.bullets@[i].unwrap()@)
    }

    /// Exec test of `joined`.
    pub fn is_joined(&self, i: usize) -> (b: bool)
        ensures
            b == self.joined(i as int),
    {
        i < self.terrain.len() && i < self.character.len() && i < self.character_sprite.len() && i
            < self.zombie.len() && i < self.zombie_sprite.len() && i < self.bullets.len()
            && self.terrain[i].is_some() && self.character[i].is_some()
            && self.character_sprite[i].is_some() && self.zombie[i].is_some()
            && self.zombie_sprite[i].is_some() && self.bullets[i].is_some()
    }

    /// Exec test of `can_advance`.
    pub fn fits_advance(&self) -> (b: bool)
        ensures
            b == self.can_advance(),
    {
        let mut i: usize = 0;
        while i < self.bullets.len()
            invariant
                i <= self.bullets.len(),
                forall|j: int|
                    #![trigger self.bullets@[j]]
                    0 <= j < i && self.joined(j) ==> can_advance(self.bullets@[j].unwrap()@),
            decreases self.bullets.len() - i,
        {
            if self.is_joined(i) {
                match &self.bullets[i] {
                    Some(b) => {
                        if !b.fits_advance() {
                            assert(!can_advance(self.bullets@[i as int].unwrap()@));
                            return false;
                        }
                    },
                    None => {},
                }
            }
            i += 1;
        }
        true
    }
}

/// The character's counters after the tick that left the countdowns at
/// `cooldown`.
///
/// The run cycle steps when the movement countdown reads zero and the
/// character walks. Otherwise the firing animation steps when the fire
/// countdown reads zero and the character fires. No tick steps both.
pub open spec fn character_sprite_after(
    cooldown: Cooldown,
    stance: Stance,
    sprite: CharacterSprite,
) -> CharacterSprite {
    if cooldown.movement == 0 && stance == Stance::Walking {
        sprite.after_run()
    } else if cooldown.fire == 0 && stance == Stance::Firing {
        sprite.after_fire()
    } else {
        sprite
    }
}

/// The zombie's counter after the tick that left the countdowns at
/// `cooldown`: it steps, in the cycle of the zombie's stance, when the movement
/// countdown reads zero.
pub open spec fn zombie_sprite_after(
    cooldown: Cooldown,
    stance: Stance,
    sprite: ZombieSprite,
) -> ZombieSprite {
    if cooldown.movement == 0 {
        match stance {
            Stance::NormalDeath => sprite.after(ZOMBIE_DEATH_FRAMES as nat),
            Stance::Walking => sprite.after(ZOMBIE_WALK_FRAMES as nat),
            Stance::Still => sprite.after(ZOMBIE_STILL_FRAMES as nat),
            Stance::Firing => sprite,
        }
    } else {
        sprite
    }
}

/// Exec form of `character_sprite_after`.
pub fn step_character_sprite(cooldown: &Cooldown, stance: Stance, sprite: &mut CharacterSprite)
    ensures
        *final(sprite) == character_sprite_after(*cooldown, stance, *old(sprite)),
{
    if cooldown.movement_ready() && stance.is_moving() {
        sprite.update_run();
    } else if cooldown.fire_ready() && stance.is_firing() {
        sprite.update_fire();
    }
}

/// Exec form of `zombie_sprite_after`.
pub fn step_zombie_sprite(cooldown: &Cooldown, stance: Stance, sprite: &mut ZombieSprite)
    ensures
        *final(sprite) == zombie_sprite_after(*cooldown, stance, *old(sprite)),
{
    if cooldown.movement_ready() {
        match stance {
            Stance::NormalDeath => sprite.update_normal_death(),
            Stance::Walking => sprite.update_walk(),
            Stance::Still => sprite.update_still(),
            Stance::Firing => {},
        }
    }
}

/// Whether the frames of one entity can be selected after the tick that left
/// the countdowns at `cooldown`.
pub open spec fn can_draw_entity(
    character_system: character::DrawSystem,
    zombie_system: ZombieDrawSystem,
    cooldown: Cooldown,
    c: character::Drawable,
    cs: CharacterSprite,
    z: ZombieDrawable,
    zs: ZombieSprite,
) -> bool {
    &&& character_system.can_draw(c, character_sprite_after(cooldown, c.stance, cs))
    &&& zombie_system.can_draw(z, zombie_sprite_after(cooldown, z.stance, zs).zombie_idx as nat)
}

/// The operations that draw one entity: the terrain, its character, its
/// zombie, and its bullets, oldest first.
pub open spec fn entity_commands(
    terrain_system: terrain::DrawSystem,
    character_system: character::DrawSystem,
    zombie_system: ZombieDrawSystem,
    cooldown: Cooldown,
    c: character::Drawable,
    cs: CharacterSprite,
    z: ZombieDrawable,
    zs: ZombieSprite,
    b: Seq<BulletDrawable>,
) -> Seq<DrawCommand> {
    seq![
        DrawCommand::Terrain { projection: terrain_system.projection },
        character_system.command(c, character_sprite_after(cooldown, c.stance, cs)),
        zombie_system.command(z, zombie_sprite_after(cooldown, z.stance, zs).zombie_idx as nat),
    ] + bullet::commands(b)
}

/// The operations that entity `i` of `world` adds to the frame: those that
/// draw it if it is joined, and none otherwise.
pub open spec fn commands_at(
    terrain_system: terrain::DrawSystem,
    character_system: character::DrawSystem,
    zombie_system: ZombieDrawSystem,
    cooldown: Cooldown,
    world: World,
    i: int,
) -> Seq<DrawCommand> {
    if world.joined(i) {
        entity_commands(
            terrain_system,
            character_system,
            zombie_system,
            cooldown,
            world.character@[i].unwrap(),
            world.character_sprite@[i].unwrap(),
            world.zombie@[i].unwrap(),
            world.zombie_sprite@[i].unwrap(),
            world.bullets@[i].unwrap()@,
        )
    } else {
        Seq::empty()
    }
}

/// The operations of a frame over the first `upto` entities of `world`: the
/// two clears, then the operations of each entity in turn.
pub open spec fn frame_commands(
    terrain_system: terrain::DrawSystem,
    character_system: character::DrawSystem,
    zombie_system: ZombieDrawSystem,
    cooldown: Cooldown,
    world: World,
    upto: int,
) -> Seq<DrawCommand>
    decreases upto,
{
    if upto <= 0 {
        seq![DrawCommand::Clear { color: CLEAR_COLOR }, DrawCommand::ClearDepth]
    } else {
        frame_commands(
            terrain_system,
            character_system,
            zombie_system,
            cooldown,
            world,
            upto - 1,
        ) + commands_at(
            terrain_system,
            character_system,
            zombie_system,
            cooldown,
            world,
            upto - 1,
        )
    }
}

/// Whether the frames of every joined entity of `world` can be selected after
/// the tick that left the countdowns at `cooldown`.
pub open spec fn can_draw_frame(
    character_system: character::DrawSystem,
    zombie_system: ZombieDrawSystem,
    cooldown: Cooldown,
    world: World,
) -> bool {
    forall|i: int|
        #![trigger world.terrain@[i]]
        world.joined(i) ==> can_draw_entity(
            character_system,
            zombie_system,
            cooldown,
            world.character@[i].unwrap(),
            world.character_sprite@[i].unwrap(),
            world.zombie@[i].unwrap(),
            world.zombie_sprite@[i].unwrap(),
        )
}

/// The per-tick driver: it paces the animations, draws every joined entity
/// into the command buffer that is lent to it, and moves and culls the
/// bullets.
pub struct DrawSystem {
    pub terrain_system: terrain::DrawSystem,
    pub character_system: character::DrawSystem,
    pub zombie_system: ZombieDrawSystem,
    pub bullet_system: bullet::DrawSystem,
    pub encoder_queue: EncoderQueue,
    pub cooldown: Cooldown,
}

impl DrawSystem {
    pub fn new(
        terrain_system: terrain::DrawSystem,
        character_system: character::DrawSystem,
        zombie_system: ZombieDrawSystem,
        bullet_system: bullet::DrawSystem,
        encoder_queue: EncoderQueue,
    ) -> (s: DrawSystem)
        ensures
            s.terrain_system == terrain_system,
            s.character_system == character_system,
            s.zombie_system == zombie_system,
            s.bullet_system == bullet_system,
            s.encoder_queue == encoder_queue,
            s.cooldown == (Cooldown { movement: 1_000_000, fire: 1_000_000 }),
    {
        DrawSystem {
            terrain_system,
            character_system,
            zombie_system,
            bullet_system,
            encoder_queue,
            cooldown: Cooldown::new(),
        }
    }

    /// Whether a tick of `delta` microseconds can run on `world`: a command
    /// buffer waits for the update stage and its owner listens, every frame
    /// that the tick selects lies in its table, and every bullet can take its
    /// step.
    pub open spec fn can_run(self, world: World, delta: u64) -> bool {
        &&& self.encoder_queue.wf()
        &&& self.encoder_queue.holder == Holder::Lent
        &&& self.encoder_queue.owner_connected
        &&& can_draw_frame(
            self.character_system,
            self.zombie_system,
            self.cooldown.after(delta),
            world,
        )
        &&& world.can_advance()
    }

    /// Exec test of `can_run`.
    pub fn fits_run(&self, world: &World, delta: u64) -> (b: bool)
        ensures
            b == self.can_run(*world, delta),
    {
        if !self.encoder_queue.ready() {
            return false;
        }
        if self.encoder_queue.slot.is_none() {
            return false;
        }
        let mut cooldown: Cooldown = self.cooldown;
        cooldown.tick(delta);
        let n: usize = world.terrain.len();
        let mut i: usize = 0;
        while i < n
            invariant
                i <= n,
                n == world.terrain@.len(),
                cooldown == self.cooldown.after(delta),
                forall|j: int|
                    #![trigger world.terrain@[j]]
                    0 <= j < i && world.joined(j) ==> can_draw_entity(
                        self.character_system,
                        self.zombie_system,
                        cooldown,
                        world.character@[j].unwrap(),
                        world.character_sprite@[j].unwrap(),
                        world.zombie@[j].unwrap(),
                        world.zombie_sprite@[j].unwrap(),
                    ),
            decreases n - i,
        {
            if world.is_joined(i) {
                let c: character::Drawable = world.character[i].unwrap();
                let mut cs: CharacterSprite = world.character_sprite[i].unwrap();
                let z: ZombieDrawable = world.zombie[i].unwrap();
                let mut zs: ZombieSprite = world.zombie_sprite[i].unwrap();
                step_character_sprite(&cooldown, c.stance, &mut cs);
                step_zombie_sprite(&cooldown, z.stance, &mut zs);
                if !self.character_system.fits_draw(&c, &cs) || !self.zombie_system.fits_draw(
                    &z,
                    &zs,
                ) {
                    return false;
                }
            }
            i += 1;
        }
        world.fits_advance()
    }

    /// Draws one joined entity: steps its counters, then records its terrain,
    /// its character, its zombie and its bullets, committing the directions of
    /// the character and the zombie.
    pub fn draw_entity(
        &self,
        t: &terrain::Drawable,
        c: &mut character::Drawable,
        cs: &mut CharacterSprite,
        z: &mut ZombieDrawable,
        zs: &mut ZombieSprite,
        b: &Bullets,
        encoder: &mut Encoder,
    )
        requires
            can_draw_entity(
                self.character_system,
                self.zombie_system,
                self.cooldown,
                *old(c),
                *old(cs),
                *old(z),
                *old(zs),
            ),
        ensures
            *final(cs) == character_sprite_after(self.cooldown, old(c).stance, *old(cs)),
            *final(zs) == zombie_sprite_after(self.cooldown, old(z).stance, *old(zs)),
            *final(c) == character::after_draw(*old(c)),
            *final(z) == zombie::after_draw(*old(z)),
            final(encoder)@ == old(encoder)@ + entity_commands(
                self.terrain_system,
                self.character_system,
                self.zombie_system,
                self.cooldown,
                *old(c),
                *old(cs),
                *old(z),
                *old(zs),
                b@,
            ),
    {
        self.terrain_system.draw(t, encoder);
        step_character_sprite(&self.cooldown, c.stance, cs);
        step_zombie_sprite(&self.cooldown, z.stance, zs);
        self.character_system.draw(c, cs, encoder);
        self.zombie_system.draw(z, zs, encoder);
        self.bullet_system.draw(b, encoder);
        assert(encoder@ =~= old(encoder)@ + entity_commands(
            self.terrain_system,
            self.character_system,
            self.zombie_system,
            self.cooldown,
            *old(c),
            *old(cs),
            *old(z),
            *old(zs),
            b@,
        ));
    }

    /// One tick of `delta` microseconds.
    ///
    /// The update stage takes the command buffer that waits for it. The
    /// countdowns advance. The frame is cleared, and every joined entity is
    /// animated and drawn, in the order of the stores. Then the bullets of
    /// every joined entity move by one step and are culled. An entity that
    /// lacks a component is skipped: nothing is drawn for it, and none of its
    /// components changes. At the end the buffer waits for its owner, with the
    /// frame's operations behind what it held before.
    pub fn run(&mut self, world: &mut World, delta: u64)
        requires
            old(self).can_run(*old(world), delta),
        ensures
            final(self).cooldown == old(self).cooldown.after(delta),
            final(self).terrain_system == old(self).terrain_system,
            final(self).character_system == old(self).character_system,
            final(self).zombie_system == old(self).zombie_system,
            final(self).bullet_system == old(self).bullet_system,
            final(self).encoder_queue.wf(),
            final(self).encoder_queue.holder == Holder::Returned,
            final(self).encoder_queue.owner_connected,
            final(self).encoder_queue.waiting() == old(self).encoder_queue.waiting()
                + frame_commands(
                old(self).terrain_system,
                old(self).character_system,
                old(self).zombie_system,
                old(self).cooldown.after(delta),
                *old(world),
                old(world).terrain@.len() as int,
            ),
            final(world).terrain@ == old(world).terrain@,
            final(world).character@.len() == old(world).character@.len(),
            final(world).character_sprite@.len() == old(world).character_sprite@.len(),
            final(world).zombie@.len() == old(world).zombie@.len(),
            final(world).zombie_sprite@.len() == old(world).zombie_sprite@.len(),
            final(world).bullets@.len() == old(world).bullets@.len(),
            forall|i: int|
                #![trigger final(world).character@[i]]
                0 <= i < old(world).character@.len() ==> final(world).character@[i] == if old(
                    world,
                ).joined(i) {
                    Some(character::after_draw(old(world).character@[i].unwrap()))
                } else {
                    old(world).character@[i]
                },
            forall|i: int|
                #![trigger final(world).character_sprite@[i]]
                0 <= i < old(world).character_sprite@.len() ==> final(world).character_sprite@[i]
                    == if old(world).joined(i) {
                    Some(
                        character_sprite_after(
                            old(self).cooldown.after(delta),
                            old(world).character@[i].unwrap().stance,
                            old(world).character_sprite@[i].unwrap(),
                        ),
                    )
                } else {
                    old(world).character_sprite@[i]
                },
            forall|i: int|
                #![trigger final(world).zombie@[i]]
                0 <= i < old(world).zombie@.len() ==> final(world).zombie@[i] == if old(
                    world,
                ).joined(i) {
                    Some(zombie::after_draw(old(world).zombie@[i].unwrap()))
                } else {
                    old(world).zombie@[i]
                },
            forall|i: int|
                #![trigger final(world).zombie_sprite@[i]]
                0 <= i < old(world).zombie_sprite@.len() ==> final(world).zombie_sprite@[i]
                    == if old(world).joined(i) {
                    Some(
                        zombie_sprite_after(
                            old(self).cooldown.after(delta),
                            old(world).zombie@[i].unwrap().stance,
                            old(world).zombie_sprite@[i].unwrap(),
                        ),
                    )
                } else {
                    old(world).zombie_sprite@[i]
                },
            forall|i: int|
                #![trigger final(world).bullets@[i]]
                0 <= i < old(world).bullets@.len() ==> {
                    &&& final(world).bullets@[i].is_some() == old(world).bullets@[i].is_some()
                    &&& old(world).bullets@[i].is_some() ==> final(world).bullets@[i].unwrap()@
                        == if old(world).joined(i) {
                        survivors(advanced(old(world).bullets@[i].unwrap()@))
                    } else {
                        old(world).bullets@[i].unwrap()@
                    }
                    &&& !old(world).joined(i) ==> final(world).bullets@[i] == old(
                        world,
                    ).bullets@[i]
                },
    {
        let mut encoder: Encoder = self.encoder_queue.receive().unwrap();
        let ghost base = encoder@;
        self.cooldown.tick(delta);
        encoder.clear(CLEAR_COLOR);
        encoder.clear_depth();
        assert(encoder@ =~= base + frame_commands(
            self.terrain_system,
            self.character_system,
            self.zombie_system,
            self.cooldown,
            *old(world),
            0,
        ));
        let n: usize = world.terrain.len();
        let mut i: usize = 0;
        while i < n
            invariant
                i <= n,
                n == old(world).terrain@.len(),
                self.cooldown == old(self).cooldown.after(delta),
                self.terrain_system == old(self).terrain_system,
                self.character_system == old(self).character_system,
                self.zombie_system == old(self).zombie_system,
                self.bullet_system == old(self).bullet_system,
                self.encoder_queue.wf(),
                self.encoder_queue.holder == Holder::Update,
                self.encoder_queue.owner_connected,
                can_draw_frame(
                    self.character_system,
                    self.zombie_system,
                    self.cooldown,
                    *old(world),
                ),
                world.terrain@ == old(world).terrain@,
                world.bullets@ == old(world).bullets@,
                world.character@.len() == old(world).character@.len(),
                world.character_sprite@.len() == old(world).character_sprite@.len(),
                world.zombie@.len() == old(world).zombie@.len(),
                world.zombie_sprite@.len() == old(world).zombie_sprite@.len(),
                encoder@ == base + frame_commands(
                    self.terrain_system,
                    self.character_system,
                    self.zombie_system,
                    self.cooldown,
                    *old(world),
                    i as int,
                ),
                forall|j: int|
                    #![trigger world.character@[j]]
                    0 <= j < world.character@.len() ==> world.character@[j] == if j < i && old(
                        world,
                    ).joined(j) {
                        Some(character::after_draw(old(world).character@[j].unwrap()))
                    } else {
                        old(world).character@[j]
                    },
                forall|j: int|
                    #![trigger world.character_sprite@[j]]
                    0 <= j < world.character_sprite@.len() ==> world.character_sprite@[j] == if j
                        < i && old(world).joined(j) {
                        Some(
                            character_sprite_after(
                                self.cooldown,
                                old(world).character@[j].unwrap().stance,
                                old(world).character_sprite@[j].unwrap(),
                            ),
                        )
                    } else {
                        old(world).character_sprite@[j]
                    },
                forall|j: int|
                    #![trigger world.zombie@[j]]
                    0 <= j < world.zombie@.len() ==> world.zombie@[j] == if j < i && old(
                        world,
                    ).joined(j) {
                        Some(zombie::after_draw(old(world).zombie@[j].unwrap()))
                    } else {
                        old(world).zombie@[j]
                    },
                forall|j: int|
                    #![trigger world.zombie_sprite@[j]]
                    0 <= j < world.zombie_sprite@.len() ==> world.zombie_sprite@[j] == if j < i
                        && old(world).joined(j) {
                        Some(
                            zombie_sprite_after(
                                self.cooldown,
                                old(world).zombie@[j].unwrap().stance,
                                old(world).zombie_sprite@[j].unwrap(),
                            ),
                        )
                    } else {
                        old(world).zombie_sprite@[j]
                    },
            decreases n - i,
        {
            assert(world.joined(i as int) == old(world).joined(i as int));
            if world.is_joined(i) {
                let t: terrain::Drawable = world.terrain[i].unwrap();
                let mut c: character::Drawable = world.character[i].unwrap();
                let mut cs: CharacterSprite = world.character_sprite[i].unwrap();
                let mut z: ZombieDrawable = world.zombie[i].unwrap();
                let mut zs: ZombieSprite = world.zombie_sprite[i].unwrap();
                match &world.bullets[i] {
                    Some(b) => {
                        self.draw_entity(&t, &mut c, &mut cs, &mut z, &mut zs, b, &mut encoder);
                    },
                    None => {},
                }
                world.character.set(i, Some(c));
                world.character_sprite.set(i, Some(cs));
                world.zombie.set(i, Some(z));
                world.zombie_sprite.set(i, Some(zs));
            }
            i += 1;
        }
        let ghost drawn = *world;
        assert forall|j: int| #![trigger drawn.terrain@[j]] drawn.joined(j) == old(world).joined(
            j,
        ) by {
            if 0 <= j < n {
                assert(drawn.joined(j) == old(world).joined(j));
            }
        }
        let m: usize = world.bullets.len();
        let mut k: usize = 0;
        while k < m
            invariant
                k <= m,
                m == old(world).bullets@.len(),
                m == world.bullets@.len(),
                old(world).can_advance(),
                world.terrain == drawn.terrain,
                world.character == drawn.character,
                world.character_sprite == drawn.character_sprite,
                world.zombie == drawn.zombie,
                world.zombie_sprite == drawn.zombie_sprite,
                drawn.bullets@ == old(world).bullets@,
                forall|j: int|
                    #![trigger drawn.terrain@[j]]
                    drawn.joined(j) == old(world).joined(j),
                forall|j: int|
                    #![trigger world.bullets@[j]]
                    k <= j < m ==> world.bullets@[j] == old(world).bullets@[j],
                forall|j: int|
                    #![trigger world.bullets@[j]]
                    0 <= j < k ==> {
                        &&& world.bullets@[j].is_some() == old(world).bullets@[j].is_some()
                        &&& old(world).bullets@[j].is_some() ==> world.bullets@[j].unwrap()@
                            == if old(world).joined(j) {
                            survivors(advanced(old(world).bullets@[j].unwrap()@))
                        } else {
                            old(world).bullets@[j].unwrap()@
                        }
                        &&& !old(world).joined(j) ==> world.bullets@[j] == old(world).bullets@[j]
                    },
            decreases m - k,
        {
            assert(world.joined(k as int) == drawn.joined(k as int));
            if world.is_joined(k) {
                match &mut world.bullets[k] {
                    Some(b) => {
                        b.advance();
                        b.remove_old_bullets();
                    },
                    None => {},
                }
            }
            k += 1;
        }
        self.encoder_queue.give_back(encoder);
    }
}

} // verus!
