use vstd::prelude::*;

verus! {

/// Number of `Orientation` variants, and so of rows a table indexed by
/// orientation can have.
pub const ORIENTATION_COUNT: usize = 9;

/// Facing of an entity: eight compass directions and `Still` for "none".
///
/// The order of the variants is part of the interface: animation tables are
/// laid out with one row per variant, in this order.
#[derive(Clone, Copy, Debug, PartialEq, Eq, Structural)]
pub enum Orientation {
    Up,
    Down,
    Left,
    Right,
    UpLeft,
    UpRight,
    DownLeft,
    DownRight,
    Still,
}

/// Action mode of an entity.
#[derive(Clone, Copy, Debug, PartialEq, Eq, Structural)]
pub enum Stance {
    Still,
    Walking,
    Firing,
    NormalDeath,
}

impl Orientation {
    /// Row of this orientation in a table indexed by orientation.
    pub open spec fn row(self) -> nat {
        match self {
            Orientation::Up => 0,
            Orientation::Down => 1,
            Orientation::Left => 2,
            Orientation::Right => 3,
            Orientation::UpLeft => 4,
            Orientation::UpRight => 5,
            Orientation::DownLeft => 6,
            Orientation::DownRight => 7,
            Orientation::Still => 8,
        }
    }

    /// The orientation whose row is `n`, if there is one.
    pub open spec fn at_row(n: nat) -> Option<Orientation> {
        if n == 0 {
            Some(Orientation::Up)
        } else if n == 1 {
            Some(Orientation::Down)
        } else if n == 2 {
            Some(Orientation::Left)
        } else if n == 3 {
            Some(Orientation::Right)
        } else if n == 4 {
            Some(Orientation::UpLeft)
        } else if n == 5 {
            Some(Orientation::UpRight)
        } else if n == 6 {
            Some(Orientation::DownLeft)
        } else if n == 7 {
            Some(Orientation::DownRight)
        } else if n == 8 {
            Some(Orientation::Still)
        } else {
            None
        }
    }

    /// The table row of this orientation, as a machine integer.
    pub fn ordinal(self) -> (n: usize)
        ensures
            n == self.row(),
            n < ORIENTATION_COUNT,
    {
        match self {
            Orientation::Up => 0,
            Orientation::Down => 1,
            Orientation::Left => 2,
            Orientation::Right => 3,
            Orientation::UpLeft => 4,
            Orientation::UpRight => 5,
            Orientation::DownLeft => 6,
            Orientation::DownRight => 7,
            Orientation::Still => 8,
        }
    }

    /// Inverse of `ordinal`: `None` exactly when `n` is not a row.
    pub fn from_ordinal(n: usize) -> (o: Option<Orientation>)
        ensures
            o == Orientation::at_row(n as nat),
            o.is_some() <==> n < ORIENTATION_COUNT,
    {
        if n == 0 {
            Some(Orientation::Up)
        } else if n == 1 {
            Some(Orientation::Down)
        } else if n == 2 {
            Some(Orientation::Left)
        } else if n == 3 {
            Some(Orientation::Right)
        } else if n == 4 {
            Some(Orientation::UpLeft)
        } else if n == 5 {
            Some(Orientation::UpRight)
        } else if n == 6 {
            Some(Orientation::DownLeft)
        } else if n == 7 {
            Some(Orientation::DownRight)
        } else if n == 8 {
            Some(Orientation::Still)
        } else {
            None
        }
    }

    /// Whether the entity faces one of the eight compass directions.
    pub fn is_directed(self) -> (b: bool)
        ensures
            b == (self != Orientation::Still),
    {
        match self {
            Orientation::Still => false,
            _ => true,
        }
    }
}

impl Stance {
    /// Whether the entity stands in place and shows its idle frames.
    pub open spec fn stationary(self) -> bool {
        self == Stance::Still
    }

    /// Whether the entity moves and shows its walk cycle.
    pub open spec fn moving(self) -> bool {
        self == Stance::Walking
    }

    pub fn is_stationary(self) -> (b: bool)
        ensures
            b == self.stationary(),
    {
        match self {
            Stance::Still => true,
            _ => false,
        }
    }

    pub fn is_moving(self) -> (b: bool)
        ensures
            b == self.moving(),
    {
        match self {
            Stance::Walking => true,
            _ => false,
        }
    }

    pub fn is_firing(self) -> (b: bool)
        ensures
            b == (self == Stance::Firing),
    {
        match self {
            Stance::Firing => true,
            _ => false,
        }
    }
}

/// Every orientation is found again from its row, and every row below
/// `ORIENTATION_COUNT` belongs to exactly one orientation.
pub proof fn lemma_rows_are_stable(o: Orientation, n: nat)
    ensures
        o.row() < ORIENTATION_COUNT,
        Orientation::at_row(o.row()) == Some(o),
        n < ORIENTATION_COUNT ==> Orientation::at_row(n).is_some() && Orientation::at_row(
            n,
        ).unwrap().row() == n,
        n >= ORIENTATION_COUNT ==> Orientation::at_row(n).is_none(),
{
}

/// Two orientations with the same row are the same orientation.
pub proof fn lemma_row_is_injective(a: Orientation, b: Orientation)
    requires
        a.row() == b.row(),
    ensures
        a == b,
{
}

} // verus!
