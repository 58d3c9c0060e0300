use vstd::prelude::*;

verus! {

/// A point or a displacement in the plane, in whole world units.
#[derive(Clone, Copy, Debug, PartialEq, Eq, Structural)]
pub struct Position {
    pub x: i64,
    pub y: i64,
}

/// One 4x4 matrix, row by row; each element is the raw 32-bit pattern of a
/// single-precision number.
pub type Matrix = [[u32; 4]; 4];

/// Snapshot of the world-to-clip transform: model, view and projection matrix.
/// The core copies it whole and never looks inside.
#[derive(Clone, Copy, Debug, PartialEq, Eq)]
pub struct Projection {
    pub model: Matrix,
    pub view: Matrix,
    pub proj: Matrix,
}

/// Cell of a sprite sheet: the number of columns of the sheet for the frame's
/// cell size, and the flat index of the frame.
#[derive(Clone, Copy, Debug, PartialEq, Eq, Structural)]
pub struct CharacterSheet {
    pub div: u64,
    pub index: usize,
}

/// Whether `v` can be stored in a coordinate.
pub open spec fn is_coordinate(v: int) -> bool {
    i64::MIN <= v <= i64::MAX
}

impl Position {
    pub fn new(x: i64, y: i64) -> (p: Position)
        ensures
            p.x == x,
            p.y == y,
    {
        Position { x, y }
    }

    pub fn origin() -> (p: Position)
        ensures
            p.x == 0,
            p.y == 0,
    {
        Position { x: 0, y: 0 }
    }

    /// Whether `self + step` has coordinates that can be stored.
    pub open spec fn can_add(self, step: Position) -> bool {
        is_coordinate(self.x + step.x) && is_coordinate(self.y + step.y)
    }

    /// Whether `self + gained - lost` has coordinates that can be stored.
    pub open spec fn can_shift(self, gained: Position, lost: Position) -> bool {
        is_coordinate(self.x + gained.x - lost.x) && is_coordinate(self.y + gained.y - lost.y)
    }

    /// Exec test of `can_add`.
    pub fn fits_add(self, step: Position) -> (b: bool)
        ensures
            b == self.can_add(step),
    {
        self.x.checked_add(step.x).is_some() && self.y.checked_add(step.y).is_some()
    }

    /// Exec test of `can_shift`.
    pub fn fits_shift(self, gained: Position, lost: Position) -> (b: bool)
        ensures
            b == self.can_shift(gained, lost),
    {
        let x: i128 = self.x as i128 + gained.x as i128 - lost.x as i128;
        let y: i128 = self.y as i128 + gained.y as i128 - lost.y as i128;
        i64::MIN as i128 <= x && x <= i64::MAX as i128 && i64::MIN as i128 <= y && y
            <= i64::MAX as i128
    }

    /// The point reached from `self` by the displacement `step`.
    pub fn plus(self, step: Position) -> (p: Position)
        requires
            self.can_add(step),
        ensures
            p.x == self.x + step.x,
            p.y == self.y + step.y,
    {
        Position { x: self.x + step.x, y: self.y + step.y }
    }

    /// `self + gained - lost`, where only the result has to be storable.
    pub fn shifted(self, gained: Position, lost: Position) -> (p: Position)
        requires
            self.can_shift(gained, lost),
        ensures
            p.x == self.x + gained.x - lost.x,
            p.y == self.y + gained.y - lost.y,
    {
        let x: i128 = self.x as i128 + gained.x as i128 - lost.x as i128;
        let y: i128 = self.y as i128 + gained.y as i128 - lost.y as i128;
        Position { x: x as i64, y: y as i64 }
    }
}

} // verus!
