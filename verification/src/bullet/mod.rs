use vstd::prelude::*;
use crate::bullet::bullets::Bullets;
use crate::bullet::collision::Collision;
use crate::gfx_app::renderer::{DrawCommand, Encoder};
use crate::shaders::Position;

pub mod bullets;
pub mod collision;

verus! {

/// One projectile.
#[derive(Clone, Copy, Debug, PartialEq, Eq, Structural)]
pub struct BulletDrawable {
    /// Where the bullet is.
    pub position: Position,
    /// Displacement of the bullet in one tick.
    pub movement_direction: Position,
    /// Heading by which the sprite is rotated: the raw 32-bit pattern of the
    /// angle, which the core carries along and never interprets.
    pub direction: u32,
    pub status: Collision,
}

impl BulletDrawable {
    /// The bullet that a shot creates.
    pub open spec fn fired(
        position: Position,
        movement_direction: Position,
        direction: u32,
    ) -> BulletDrawable {
        BulletDrawable { position, movement_direction, direction, status: Collision::Flying }
    }

    /// A bullet that has just been fired: it is in flight.
    pub fn new(position: Position, movement_direction: Position, direction: u32) -> (b:
        BulletDrawable)
        ensures
            b == BulletDrawable::fired(position, movement_direction, direction),
    {
        BulletDrawable { position, movement_direction, direction, status: Collision::Flying }
    }

    /// Whether the bullet is still in flight.
    pub open spec fn in_flight(self) -> bool {
        self.status == Collision::Flying
    }

    /// Whether one step of the bullet stays within the coordinates that can be
    /// stored.
    pub open spec fn can_advance(self) -> bool {
        self.position.can_add(self.movement_direction)
    }

    /// The bullet one tick later: moved by its displacement, otherwise the same.
    pub open spec fn advanced(self) -> BulletDrawable {
        BulletDrawable {
            position: Position {
                x: (self.position.x + self.movement_direction.x) as i64,
                y: (self.position.y + self.movement_direction.y) as i64,
            },
            ..self
        }
    }

    pub fn is_flying(&self) -> (b: bool)
        ensures
            b == self.in_flight(),
    {
        match self.status {
            Collision::Flying => true,
            _ => false,
        }
    }

    /// Exec test of `can_advance`.
    pub fn fits_advance(&self) -> (b: bool)
        ensures
            b == self.can_advance(),
    {
        self.position.fits_add(self.movement_direction)
    }

    /// Moves the bullet by one tick's displacement.
    pub fn update(&mut self)
        requires
            old(self).can_advance(),
        ensures
            *final(self) == old(self).advanced(),
            final(self).position.x == old(self).position.x + old(self).movement_direction.x,
            final(self).position.y == old(self).position.y + old(self).movement_direction.y,
    {
        self.position = self.position.plus(self.movement_direction);
    }

    /// Records what the collision collaborator found: the bullet has hit
    /// something and is no longer in flight.
    pub fn hit(&mut self)
        ensures
            *final(self) == (BulletDrawable { status: Collision::Hit, ..*old(self) }),
    {
        self.status = Collision::Hit;
    }
}

/// The operation that draws `bullet`.
pub open spec fn command(bullet: BulletDrawable) -> DrawCommand {
    DrawCommand::Bullet { position: bullet.position, rotation: bullet.direction }
}

/// The operations that draw the bullets `s`, in their order.
pub open spec fn commands(s: Seq<BulletDrawable>) -> Seq<DrawCommand> {
    Seq::new(s.len(), |i: int| command(s[i]))
}

/// Records the draw operations of bullets.
#[derive(Clone, Copy, Debug)]
pub struct DrawSystem;

impl DrawSystem {
    pub fn new() -> DrawSystem {
        DrawSystem {  }
    }

    /// Records one operation for every bullet, oldest first.
    pub fn draw(&self, bullets: &Bullets, encoder: &mut Encoder)
        ensures
            final(encoder)@ == old(encoder)@ + commands(bullets@),
    {
        let n: usize = bullets.bullets.len();
        let mut i: usize = 0;
        while i < n
            invariant
                i <= n,
                n == bullets@.len(),
                encoder@ == old(encoder)@ + commands(bullets@).take(i as int),
            decreases n - i,
        {
            let b: BulletDrawable = bullets.bullets[i];
            assert(commands(bullets@).take(i as int + 1) =~= commands(bullets@).take(
                i as int,
            ).push(command(b)));
            encoder.record(DrawCommand::Bullet { position: b.position, rotation: b.direction });
            i += 1;
        }
        assert(commands(bullets@).take(n as int) =~= commands(bullets@));
    }
}

} // verus!
