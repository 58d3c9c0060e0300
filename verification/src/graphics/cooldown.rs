use vstd::prelude::*;

verus! {

/// Time between two steps of a movement animation, in microseconds.
pub const MOVEMENT_CADENCE: u64 = 70_000;

/// Time between two steps of a firing animation, in microseconds.
pub const FIRE_CADENCE: u64 = 200_000;

/// Value of both countdowns when the clock is created, in microseconds.
pub const INITIAL_COOLDOWN: u64 = 1_000_000;

/// Value of one countdown after a tick of `elapsed` microseconds.
///
/// A countdown that reads zero when the tick starts is first re-armed with its
/// `cadence`; the elapsed time is then taken off, and the result never goes
/// below zero.
pub open spec fn countdown_after(previous: int, cadence: int, elapsed: int) -> int {
    let armed = if previous == 0 {
        cadence
    } else {
        previous
    };
    if armed >= elapsed {
        armed - elapsed
    } else {
        0
    }
}

/// The two countdowns that pace the animations: one for movement, one for
/// weapon fire. An animation may step on a tick after which its countdown
/// reads zero.
#[derive(Clone, Copy, Debug, PartialEq, Eq, Structural)]
pub struct Cooldown {
    pub movement: u64,
    pub fire: u64,
}

impl Cooldown {
    pub fn new() -> (c: Cooldown)
        ensures
            c.movement == INITIAL_COOLDOWN,
            c.fire == INITIAL_COOLDOWN,
    {
        Cooldown { movement: INITIAL_COOLDOWN, fire: INITIAL_COOLDOWN }
    }

    /// The countdowns after a tick of `elapsed` microseconds.
    pub open spec fn after(self, elapsed: u64) -> Cooldown {
        Cooldown {
            movement: countdown_after(
                self.movement as int,
                MOVEMENT_CADENCE as int,
                elapsed as int,
            ) as u64,
            fire: countdown_after(self.fire as int, FIRE_CADENCE as int, elapsed as int) as u64,
        }
    }

    /// Advances both countdowns by `elapsed` microseconds.
    pub fn tick(&mut self, elapsed: u64)
        ensures
            *final(self) == old(self).after(elapsed),
            final(self).movement == countdown_after(
                old(self).movement as int,
                MOVEMENT_CADENCE as int,
                elapsed as int,
            ),
            final(self).fire == countdown_after(
                old(self).fire as int,
                FIRE_CADENCE as int,
                elapsed as int,
            ),
    {
        if self.movement == 0 {
            self.movement = MOVEMENT_CADENCE;
        }
        if self.fire == 0 {
            self.fire = FIRE_CADENCE;
        }
        self.movement = count_down(self.movement, elapsed);
        self.fire = count_down(self.fire, elapsed);
    }

    /// Whether a movement animation may step this tick.
    pub fn movement_ready(&self) -> (b: bool)
        ensures
            b == (self.movement == 0),
    {
        self.movement == 0
    }

    /// Whether a firing animation may step this tick.
    pub fn fire_ready(&self) -> (b: bool)
        ensures
            b == (self.fire == 0),
    {
        self.fire == 0
    }
}

/// `value` less `elapsed`, floored at zero.
pub fn count_down(value: u64, elapsed: u64) -> (r: u64)
    ensures
        r == if value >= elapsed {
            value - elapsed
        } else {
            0
        },
{
    if value >= elapsed {
        value - elapsed
    } else {
        0
    }
}

/// A countdown that is not zero only loses the elapsed time, down to zero; one
/// that is zero is re-armed first and then loses it.
pub proof fn lemma_countdown_after(previous: int, cadence: int, elapsed: int)
    requires
        0 <= previous,
        0 <= elapsed,
        0 < cadence,
    ensures
        0 <= countdown_after(previous, cadence, elapsed),
        previous != 0 ==> countdown_after(previous, cadence, elapsed) == vstd::math::max(
            0,
            previous - elapsed,
        ),
        previous == 0 ==> countdown_after(previous, cadence, elapsed) == vstd::math::max(
            0,
            cadence - elapsed,
        ),
{
}

/// A countdown that was re-armed on a tick shorter than its cadence does not
/// read zero after that tick.
pub proof fn lemma_rearmed_is_not_ready(cadence: int, elapsed: int)
    requires
        0 <= elapsed < cadence,
    ensures
        countdown_after(0, cadence, elapsed) > 0,
{
}

} // verus!
