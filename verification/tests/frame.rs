use zombie_shooter::bullet;
use zombie_shooter::bullet::bullets::Bullets;
use zombie_shooter::bullet::collision::Collision;
use zombie_shooter::character;
use zombie_shooter::critter::{CharacterSprite, CritterData, ZombieSprite};
use zombie_shooter::game::constants::TILEMAP_BUF_LENGTH;
use zombie_shooter::gfx_app::renderer::{DrawCommand, Encoder, EncoderQueue, Holder, CLEAR_COLOR};
use zombie_shooter::gfx_app::system::{
    step_character_sprite, step_zombie_sprite, DrawSystem, World,
};
use zombie_shooter::graphics::animation::AnimationTable;
use zombie_shooter::graphics::cooldown::Cooldown;
use zombie_shooter::graphics::orientation::{Orientation, Stance};
use zombie_shooter::shaders::{CharacterSheet, Position, Projection};
use zombie_shooter::terrain;
use zombie_shooter::zombie::{ZombieDrawSystem, ZombieDrawable};

fn projection(seed: u32) -> Projection {
    Projection { model: [[seed; 4]; 4], view: [[seed + 1; 4]; 4], proj: [[seed + 2; 4]; 4] }
}

fn frames(len: usize) -> Vec<CritterData> {
    (0..len).map(|_| CritterData::new([0, 0, 39, 50])).collect()
}

fn system() -> DrawSystem {
    let map = vec![1u32; TILEMAP_BUF_LENGTH];
    DrawSystem::new(
        terrain::DrawSystem::new(terrain::terrain::generate(&map), projection(7)),
        character::DrawSystem::new(AnimationTable::new(frames(200), 4100, 2, 1, 14, 9)),
        ZombieDrawSystem::new(frames(96)),
        bullet::DrawSystem::new(),
        EncoderQueue::new(),
    )
}

fn entity(world: &mut World, stance: Stance, orientation: Orientation) {
    let mut c = character::Drawable::new(projection(10));
    c.stance = stance;
    c.orientation = orientation;
    c.direction = orientation;
    world.terrain.push(Some(terrain::Drawable::new(projection(1))));
    world.character.push(Some(c));
    world.character_sprite.push(Some(CharacterSprite::new()));
    world.zombie.push(Some(ZombieDrawable::new(projection(20))));
    world.zombie_sprite.push(Some(ZombieSprite::new()));
    world.bullets.push(Some(Bullets::new()));
}

fn tick(s: &mut DrawSystem, world: &mut World, delta: u64) -> Vec<DrawCommand> {
    s.encoder_queue.lend(Encoder::new());
    assert!(s.fits_run(world, delta));
    s.run(world, delta);
    assert_eq!(s.encoder_queue.holder, Holder::Returned);
    s.encoder_queue.collect().unwrap().commands
}

#[test]
fn new_system_starts_with_full_countdowns() {
    let s = system();
    assert_eq!(s.cooldown, Cooldown { movement: 1_000_000, fire: 1_000_000 });
    assert_eq!(s.zombie_system.table.stationary_frame_count, 4);
    assert_eq!(s.zombie_system.table.moving_frame_count, 8);
    assert_eq!(s.zombie_system.table.moving_table_offset, 32);
    assert_eq!(s.zombie_system.table.sheet_total_width, 9184);
    assert_eq!(s.zombie_system.table.frame_spacing, 2);
}

#[test]
fn empty_frame_only_clears() {
    let mut s = system();
    let mut w = World::new();
    let commands = tick(&mut s, &mut w, 16_000);
    assert_eq!(commands, vec![DrawCommand::Clear { color: CLEAR_COLOR }, DrawCommand::ClearDepth]);
    assert_eq!(s.cooldown, Cooldown { movement: 984_000, fire: 984_000 });
}

#[test]
fn walking_character_steps_once_when_the_countdown_reaches_zero() {
    let mut s = system();
    let mut w = World::new();
    entity(&mut w, Stance::Walking, Orientation::Right);
    s.cooldown = Cooldown { movement: 16_000, fire: 500_000 };
    tick(&mut s, &mut w, 16_000);
    assert_eq!(s.cooldown.movement, 0);
    assert_eq!(w.character_sprite[0], Some(CharacterSprite { character_idx: 1, character_fire_idx: 0 }));
    tick(&mut s, &mut w, 16_000);
    assert_eq!(s.cooldown.movement, 54_000);
    assert_eq!(w.character_sprite[0], Some(CharacterSprite { character_idx: 1, character_fire_idx: 0 }));
}

#[test]
fn zombie_counter_steps_with_the_movement_countdown() {
    let mut s = system();
    let mut w = World::new();
    entity(&mut w, Stance::Still, Orientation::Right);
    s.cooldown = Cooldown { movement: 5, fire: 5_000 };
    tick(&mut s, &mut w, 5);
    assert_eq!(w.zombie_sprite[0], Some(ZombieSprite { zombie_idx: 1 }));
    assert_eq!(w.character_sprite[0], Some(CharacterSprite::new()));
    tick(&mut s, &mut w, 5);
    assert_eq!(w.zombie_sprite[0], Some(ZombieSprite { zombie_idx: 1 }));
}

#[test]
fn firing_steps_when_the_fire_countdown_reaches_zero() {
    let mut s = system();
    let mut w = World::new();
    entity(&mut w, Stance::Firing, Orientation::Up);
    s.cooldown = Cooldown { movement: 900, fire: 100 };
    tick(&mut s, &mut w, 100);
    assert_eq!(s.cooldown, Cooldown { movement: 800, fire: 0 });
    assert_eq!(w.character_sprite[0], Some(CharacterSprite { character_idx: 0, character_fire_idx: 1 }));
    assert_eq!(w.zombie_sprite[0], Some(ZombieSprite::new()));
}

#[test]
fn firing_wins_when_both_countdowns_reach_zero() {
    let mut s = system();
    let mut w = World::new();
    entity(&mut w, Stance::Firing, Orientation::Up);
    s.cooldown = Cooldown { movement: 100, fire: 100 };
    tick(&mut s, &mut w, 100);
    assert_eq!(s.cooldown, Cooldown { movement: 0, fire: 0 });
    assert_eq!(w.character_sprite[0], Some(CharacterSprite { character_idx: 0, character_fire_idx: 1 }));
}

#[test]
fn walking_ignores_the_fire_countdown() {
    let mut s = system();
    let mut w = World::new();
    entity(&mut w, Stance::Walking, Orientation::Up);
    s.cooldown = Cooldown { movement: 900, fire: 100 };
    tick(&mut s, &mut w, 100);
    assert_eq!(w.character_sprite[0], Some(CharacterSprite::new()));
}

#[test]
fn step_functions_by_case() {
    let ready = Cooldown { movement: 0, fire: 0 };
    let waiting = Cooldown { movement: 1, fire: 1 };
    let mut cs = CharacterSprite { character_idx: 13, character_fire_idx: 3 };
    step_character_sprite(&ready, Stance::Walking, &mut cs);
    assert_eq!(cs, CharacterSprite { character_idx: 0, character_fire_idx: 3 });
    step_character_sprite(&ready, Stance::Firing, &mut cs);
    assert_eq!(cs, CharacterSprite { character_idx: 0, character_fire_idx: 0 });
    step_character_sprite(&ready, Stance::Still, &mut cs);
    step_character_sprite(&ready, Stance::NormalDeath, &mut cs);
    step_character_sprite(&waiting, Stance::Walking, &mut cs);
    step_character_sprite(&waiting, Stance::Firing, &mut cs);
    assert_eq!(cs, CharacterSprite { character_idx: 0, character_fire_idx: 0 });
    let mut zs = ZombieSprite { zombie_idx: 4 };
    step_zombie_sprite(&ready, Stance::Firing, &mut zs);
    assert_eq!(zs.zombie_idx, 4);
    step_zombie_sprite(&ready, Stance::NormalDeath, &mut zs);
    assert_eq!(zs.zombie_idx, 5);
    step_zombie_sprite(&ready, Stance::Walking, &mut zs);
    assert_eq!(zs.zombie_idx, 6);
    step_zombie_sprite(&ready, Stance::Still, &mut zs);
    assert_eq!(zs.zombie_idx, 0);
    step_zombie_sprite(&waiting, Stance::Still, &mut zs);
    assert_eq!(zs.zombie_idx, 0);
}

#[test]
fn frame_draws_each_joined_entity_in_order() {
    let mut s = system();
    let mut w = World::new();
    entity(&mut w, Stance::Walking, Orientation::Right);
    entity(&mut w, Stance::Still, Orientation::Left);
    w.bullets[0].as_mut().unwrap().add_bullet(Position::new(0, 0), Position::new(1, 0), 5);
    w.bullets[0].as_mut().unwrap().add_bullet(Position::new(7, 7), Position::new(0, 1), 6);
    w.zombie[1].as_mut().unwrap().stance = Stance::Walking;
    w.zombie[1].as_mut().unwrap().orientation = Orientation::Down;
    w.zombie_sprite[1] = Some(ZombieSprite { zombie_idx: 2 });
    let commands = tick(&mut s, &mut w, 1_000);
    assert_eq!(
        commands,
        vec![
            DrawCommand::Clear { color: CLEAR_COLOR },
            DrawCommand::ClearDepth,
            DrawCommand::Terrain { projection: projection(7) },
            DrawCommand::Character {
                projection: projection(10),
                position: Position { x: 0, y: 0 },
                sheet: CharacterSheet { div: 100, index: 3 * 14 + 0 + 9 },
            },
            DrawCommand::Zombie {
                projection: projection(20),
                position: Position { x: 256, y: 0 },
                sheet: CharacterSheet { div: 224, index: 2 * 4 },
            },
            DrawCommand::Bullet { position: Position { x: 0, y: 0 }, rotation: 5 },
            DrawCommand::Bullet { position: Position { x: 7, y: 7 }, rotation: 6 },
            DrawCommand::Terrain { projection: projection(7) },
            DrawCommand::Character {
                projection: projection(10),
                position: Position { x: 0, y: 0 },
                sheet: CharacterSheet { div: 100, index: 2 * 1 },
            },
            DrawCommand::Zombie {
                projection: projection(20),
                position: Position { x: 256, y: 0 },
                sheet: CharacterSheet { div: 224, index: 2 * 8 + 2 + 32 },
            },
        ]
    );
}

#[test]
fn entity_that_lacks_a_component_is_skipped() {
    let mut s = system();
    let mut w = World::new();
    entity(&mut w, Stance::Walking, Orientation::Right);
    entity(&mut w, Stance::Walking, Orientation::Right);
    entity(&mut w, Stance::Walking, Orientation::Right);
    w.zombie_sprite[1] = None;
    w.bullets.pop();
    s.cooldown = Cooldown { movement: 10, fire: 10 };
    let commands = tick(&mut s, &mut w, 10);
    assert_eq!(commands.len(), 2 + 3);
    assert_eq!(w.character_sprite[0].unwrap().character_idx, 1);
    assert_eq!(w.character_sprite[1].unwrap().character_idx, 0);
    assert_eq!(w.character_sprite[2].unwrap().character_idx, 0);
    assert_eq!(w.zombie_sprite[0].unwrap().zombie_idx, 1);
    assert_eq!(w.zombie_sprite[1], None);
    assert_eq!(w.zombie_sprite[2].unwrap().zombie_idx, 0);
}

#[test]
fn bullets_move_and_are_culled_after_the_frame_is_drawn() {
    let mut s = system();
    let mut w = World::new();
    entity(&mut w, Stance::Still, Orientation::Right);
    w.terrain.push(None);
    w.character.push(None);
    w.character_sprite.push(None);
    w.zombie.push(None);
    w.zombie_sprite.push(None);
    w.bullets.push(Some(Bullets::new()));
    {
        let b = w.bullets[0].as_mut().unwrap();
        b.add_bullet(Position::new(0, 0), Position::new(1, 0), 0);
        b.add_bullet(Position::new(5, 5), Position::new(1, 1), 0);
        b.bullets[1].hit();
    }
    w.bullets[1].as_mut().unwrap().add_bullet(Position::new(9, 9), Position::new(-1, -1), 0);
    let commands = tick(&mut s, &mut w, 1);
    assert_eq!(commands.len(), 2 + 3 + 2);
    assert_eq!(commands[5], DrawCommand::Bullet { position: Position { x: 0, y: 0 }, rotation: 0 });
    assert_eq!(commands[6], DrawCommand::Bullet { position: Position { x: 5, y: 5 }, rotation: 0 });
    let first = &w.bullets[0].as_ref().unwrap().bullets;
    assert_eq!(first.len(), 1);
    assert_eq!(first[0].position, Position { x: 1, y: 0 });
    assert_eq!(first[0].status, Collision::Flying);
    let second = &w.bullets[1].as_ref().unwrap().bullets;
    assert_eq!(second.len(), 1);
    assert_eq!(second[0].position, Position { x: 9, y: 9 });
}

#[test]
fn skipped_entity_keeps_all_its_components() {
    let mut s = system();
    let mut w = World::new();
    entity(&mut w, Stance::Walking, Orientation::Right);
    entity(&mut w, Stance::Walking, Orientation::Up);
    w.terrain[1] = None;
    w.character[1].as_mut().unwrap().direction = Orientation::Left;
    w.zombie[1].as_mut().unwrap().stance = Stance::Walking;
    w.zombie[1].as_mut().unwrap().orientation = Orientation::Still;
    {
        let b = w.bullets[1].as_mut().unwrap();
        b.add_bullet(Position::new(9, 9), Position::new(-1, -1), 3);
        b.add_bullet(Position::new(i64::MAX, 0), Position::new(1, 0), 4);
        b.bullets[0].hit();
    }
    let character = w.character[1];
    let zombie = w.zombie[1];
    let bullets = w.bullets[1].as_ref().unwrap().bullets.clone();
    s.cooldown = Cooldown { movement: 10, fire: 10 };
    let commands = tick(&mut s, &mut w, 10);
    assert_eq!(commands.len(), 2 + 3);
    assert_eq!(w.terrain[1], None);
    assert_eq!(w.character[1], character);
    assert_eq!(w.character_sprite[1], Some(CharacterSprite::new()));
    assert_eq!(w.zombie[1], zombie);
    assert_eq!(w.zombie_sprite[1], Some(ZombieSprite::new()));
    assert_eq!(w.bullets[1].as_ref().unwrap().bullets, bullets);
    assert_eq!(w.character_sprite[0].unwrap().character_idx, 1);
}

#[test]
fn terrain_is_drawn_under_the_transform_of_its_system() {
    let mut s = system();
    let mut w = World::new();
    entity(&mut w, Stance::Still, Orientation::Right);
    w.terrain[0] = Some(terrain::Drawable::new(projection(99)));
    let commands = tick(&mut s, &mut w, 1);
    assert_eq!(commands[2], DrawCommand::Terrain { projection: projection(7) });
    assert_eq!(w.terrain[0], Some(terrain::Drawable::new(projection(99))));
}

#[test]
fn drawing_commits_the_direction_of_an_entity_that_stopped_walking() {
    let mut s = system();
    let mut w = World::new();
    entity(&mut w, Stance::Firing, Orientation::Up);
    w.character[0].as_mut().unwrap().direction = Orientation::Left;
    w.zombie[0].as_mut().unwrap().stance = Stance::Walking;
    w.zombie[0].as_mut().unwrap().orientation = Orientation::Still;
    w.zombie[0].as_mut().unwrap().direction = Orientation::Down;
    tick(&mut s, &mut w, 1);
    assert_eq!(w.character[0].unwrap().direction, Orientation::Up);
    assert_eq!(w.character[0].unwrap().orientation, Orientation::Up);
    assert_eq!(w.zombie[0].unwrap().direction, Orientation::Still);
}

#[test]
fn buffer_keeps_what_it_held_before_the_frame() {
    let mut s = system();
    let mut w = World::new();
    let mut e = Encoder::new();
    e.record(DrawCommand::Bullet { position: Position::new(1, 1), rotation: 1 });
    s.encoder_queue.lend(e);
    s.run(&mut w, 0);
    let commands = s.encoder_queue.collect().unwrap().commands;
    assert_eq!(
        commands,
        vec![
            DrawCommand::Bullet { position: Position { x: 1, y: 1 }, rotation: 1 },
            DrawCommand::Clear { color: CLEAR_COLOR },
            DrawCommand::ClearDepth,
        ]
    );
}

#[test]
fn fits_run_refuses_what_run_cannot_take() {
    let mut s = system();
    let mut w = World::new();
    entity(&mut w, Stance::Still, Orientation::Right);
    assert!(!s.fits_run(&w, 1));
    s.encoder_queue.lend(Encoder::new());
    assert!(s.fits_run(&w, 1));
    w.zombie[0].as_mut().unwrap().direction = Orientation::Still;
    w.zombie[0].as_mut().unwrap().stance = Stance::Walking;
    w.zombie[0].as_mut().unwrap().orientation = Orientation::Up;
    assert!(!s.fits_run(&w, 1));
    w.zombie[0].as_mut().unwrap().direction = Orientation::Up;
    assert!(s.fits_run(&w, 1));
    w.bullets[0].as_mut().unwrap().add_bullet(Position::new(0, i64::MIN), Position::new(0, -1), 0);
    assert!(!s.fits_run(&w, 1));
    w.zombie_sprite[0] = None;
    assert!(s.fits_run(&w, 1));
    w.zombie_sprite[0] = Some(ZombieSprite::new());
    assert!(!s.fits_run(&w, 1));
    w.bullets[0] = None;
    assert!(s.fits_run(&w, 1));
    s.encoder_queue.disconnect();
    assert!(!s.fits_run(&w, 1));
}

#[test]
fn world_join_and_bullet_range() {
    let mut w = World::new();
    assert!(!w.is_joined(0));
    entity(&mut w, Stance::Still, Orientation::Right);
    assert!(w.is_joined(0));
    assert!(!w.is_joined(1));
    w.terrain[0] = None;
    assert!(!w.is_joined(0));
    assert!(w.fits_advance());
    w.bullets[0].as_mut().unwrap().add_bullet(Position::new(i64::MAX, 0), Position::new(1, 0), 0);
    assert!(w.fits_advance());
    w.terrain[0] = Some(terrain::Drawable::new(projection(1)));
    assert!(!w.fits_advance());
}

#[test]
fn character_and_zombie_draw_alone() {
    let s = system();
    let mut e = Encoder::new();
    let mut c = character::Drawable::new(projection(3));
    c.stance = Stance::Firing;
    c.orientation = Orientation::DownLeft;
    let sprite = CharacterSprite { character_idx: 9, character_fire_idx: 2 };
    assert!(s.character_system.fits_draw(&c, &sprite));
    s.character_system.draw(&mut c, &sprite, &mut e);
    assert_eq!(c.direction, Orientation::DownLeft);
    let mut z = ZombieDrawable::new(projection(4));
    let zs = ZombieSprite { zombie_idx: 3 };
    assert!(s.zombie_system.fits_draw(&z, &zs));
    let sheet = s.zombie_system.get_next_sprite(3, &mut z);
    assert_eq!(sheet, CharacterSheet { div: 9184 / 41, index: 2 * 4 + 3 });
    s.zombie_system.draw(&mut z, &zs, &mut e);
    assert_eq!(
        e.commands,
        vec![
            DrawCommand::Character {
                projection: projection(3),
                position: Position { x: 0, y: 0 },
                sheet: CharacterSheet { div: 100, index: 6 * 1 + 2 },
            },
            DrawCommand::Zombie {
                projection: projection(4),
                position: Position { x: 256, y: 0 },
                sheet: CharacterSheet { div: 224, index: 11 },
            },
        ]
    );
    let walking = CharacterSprite { character_idx: 9, character_fire_idx: 2 };
    c.stance = Stance::Walking;
    assert_eq!(s.character_system.get_next_sprite(&walking, &mut c).index, 6 * 14 + 9 + 9);
}
