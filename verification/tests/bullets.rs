use zombie_shooter::bullet::bullets::Bullets;
use zombie_shooter::bullet::collision::Collision;
use zombie_shooter::bullet::{BulletDrawable, DrawSystem};
use zombie_shooter::gfx_app::renderer::{DrawCommand, Encoder};
use zombie_shooter::shaders::Position;

fn bullet(x: i64, y: i64, dx: i64, dy: i64, status: Collision) -> BulletDrawable {
    BulletDrawable {
        position: Position::new(x, y),
        movement_direction: Position::new(dx, dy),
        direction: 0,
        status,
    }
}

#[test]
fn new_collection_is_empty() {
    assert!(Bullets::new().bullets.is_empty());
}

#[test]
fn add_bullet_appends_a_flying_bullet() {
    let mut b = Bullets::new();
    b.add_bullet(Position::new(1, 2), Position::new(3, 4), 0x42b4_0000);
    b.add_bullet(Position::new(5, 6), Position::new(-1, 0), 7);
    assert_eq!(b.bullets.len(), 2);
    assert_eq!(
        b.bullets[0],
        BulletDrawable {
            position: Position { x: 1, y: 2 },
            movement_direction: Position { x: 3, y: 4 },
            direction: 0x42b4_0000,
            status: Collision::Flying,
        }
    );
    assert_eq!(b.bullets[1].position, Position { x: 5, y: 6 });
    assert_eq!(b.bullets[1].status, Collision::Flying);
}

#[test]
fn bullet_flies_three_steps_and_survives_the_cull() {
    let mut b = Bullets::new();
    b.add_bullet(Position::new(0, 0), Position::new(1, 0), 0);
    for _ in 0..3 {
        assert!(b.fits_advance());
        b.advance();
    }
    assert_eq!(b.bullets[0].position, Position { x: 3, y: 0 });
    b.remove_old_bullets();
    assert_eq!(b.bullets.len(), 1);
    assert_eq!(b.bullets[0].position, Position { x: 3, y: 0 });
    assert_eq!(b.bullets[0].status, Collision::Flying);
}

#[test]
fn advance_moves_every_bullet_by_its_own_step() {
    let mut b = Bullets {
        bullets: vec![
            bullet(0, 0, 2, -3, Collision::Flying),
            bullet(10, 10, -1, 1, Collision::Hit),
        ],
    };
    b.advance();
    assert_eq!(b.bullets[0], bullet(2, -3, 2, -3, Collision::Flying));
    assert_eq!(b.bullets[1], bullet(9, 11, -1, 1, Collision::Hit));
}

#[test]
fn cull_keeps_the_flying_bullets_in_order() {
    let mut b = Bullets {
        bullets: vec![
            bullet(1, 0, 0, 0, Collision::Flying),
            bullet(2, 0, 0, 0, Collision::Hit),
            bullet(3, 0, 0, 0, Collision::Flying),
            bullet(4, 0, 0, 0, Collision::Hit),
            bullet(5, 0, 0, 0, Collision::Flying),
        ],
    };
    b.remove_old_bullets();
    let xs: Vec<i64> = b.bullets.iter().map(|p| p.position.x).collect();
    assert_eq!(xs, vec![1, 3, 5]);
    assert!(b.bullets.iter().all(|p| p.status == Collision::Flying));
}

#[test]
fn cull_twice_is_cull_once() {
    let mut b = Bullets {
        bullets: vec![
            bullet(1, 0, 0, 0, Collision::Hit),
            bullet(2, 0, 0, 0, Collision::Flying),
            bullet(3, 0, 0, 0, Collision::Hit),
        ],
    };
    b.remove_old_bullets();
    let once = b.bullets.clone();
    b.remove_old_bullets();
    assert_eq!(b.bullets, once);
    assert_eq!(once, vec![bullet(2, 0, 0, 0, Collision::Flying)]);
}

#[test]
fn cull_of_an_empty_collection() {
    let mut b = Bullets::new();
    b.remove_old_bullets();
    assert!(b.bullets.is_empty());
}

#[test]
fn cull_removes_everything_when_nothing_flies() {
    let mut b = Bullets {
        bullets: vec![bullet(1, 0, 0, 0, Collision::Hit), bullet(2, 0, 0, 0, Collision::Hit)],
    };
    b.remove_old_bullets();
    assert!(b.bullets.is_empty());
}

#[test]
fn hit_bullet_is_gone_after_the_next_cull() {
    let mut b = Bullets::new();
    b.add_bullet(Position::new(0, 0), Position::new(1, 1), 0);
    b.add_bullet(Position::new(9, 9), Position::new(1, 1), 0);
    b.bullets[0].hit();
    b.advance();
    b.remove_old_bullets();
    assert_eq!(b.bullets, vec![bullet(10, 10, 1, 1, Collision::Flying)]);
}

#[test]
fn fits_advance_sees_a_step_past_the_last_coordinate() {
    let mut b = Bullets::new();
    b.add_bullet(Position::new(i64::MAX, 0), Position::new(1, 0), 0);
    assert!(!b.fits_advance());
    let mut ok = Bullets::new();
    ok.add_bullet(Position::new(i64::MAX - 1, i64::MIN + 1), Position::new(1, -1), 0);
    assert!(ok.fits_advance());
    ok.advance();
    assert_eq!(ok.bullets[0].position, Position { x: i64::MAX, y: i64::MIN });
}

#[test]
fn single_bullet_update_and_flags() {
    let mut p = BulletDrawable::new(Position::new(4, 5), Position::new(-4, -5), 9);
    assert!(p.is_flying());
    assert!(p.fits_advance());
    p.update();
    assert_eq!(p.position, Position { x: 0, y: 0 });
    p.hit();
    assert!(!p.is_flying());
    assert_eq!(p.status, Collision::Hit);
}

#[test]
fn bullets_are_drawn_oldest_first() {
    let mut b = Bullets::new();
    b.add_bullet(Position::new(1, 2), Position::new(0, 0), 11);
    b.add_bullet(Position::new(3, 4), Position::new(0, 0), 22);
    let mut e = Encoder::new();
    e.clear_depth();
    DrawSystem::new().draw(&b, &mut e);
    assert_eq!(
        e.commands,
        vec![
            DrawCommand::ClearDepth,
            DrawCommand::Bullet { position: Position { x: 1, y: 2 }, rotation: 11 },
            DrawCommand::Bullet { position: Position { x: 3, y: 4 }, rotation: 22 },
        ]
    );
}
