use vstd::prelude::*;
use crate::bullet::BulletDrawable;
use crate::shaders::Position;

verus! {

/// The predicate that culling keeps: the bullet is in flight.
pub open spec fn in_flight() -> spec_fn(BulletDrawable) -> bool {
    |b: BulletDrawable| b.in_flight()
}

/// What culling leaves of `s`: the bullets in flight, in their order.
pub open spec fn survivors(s: Seq<BulletDrawable>) -> Seq<BulletDrawable> {
    s.filter(in_flight())
}

/// `s` one tick later: every bullet moved by its own displacement.
pub open spec fn advanced(s: Seq<BulletDrawable>) -> Seq<BulletDrawable> {
    Seq::new(s.len(), |i: int| s[i].advanced())
}

/// Whether every bullet of `s` can take one step.
pub open spec fn can_advance(s: Seq<BulletDrawable>) -> bool {
    forall|i: int| 0 <= i < s.len() ==> (#[trigger] s[i]).can_advance()
}

/// The projectiles of one shooter, oldest first. The collection alone creates
/// and removes them.
pub struct Bullets {
    pub bullets: Vec<BulletDrawable>,
}

impl View for Bullets {
    type V = Seq<BulletDrawable>;

    open spec fn view(&self) -> Seq<BulletDrawable> {
        self.bullets@
    }
}

impl Bullets {
    pub fn new() -> (b: Bullets)
        ensures
            b@ == Seq::<BulletDrawable>::empty(),
    {
        Bullets { bullets: Vec::new() }
    }

    /// Fires a bullet from `position`. `movement_direction` is the displacement
    /// per tick that belongs to the heading `direction`.
    pub fn add_bullet(&mut self, position: Position, movement_direction: Position, direction: u32)
        ensures
            final(self)@ == old(self)@.push(
                BulletDrawable::fired(position, movement_direction, direction),
            ),
    {
        self.bullets.push(BulletDrawable::new(position, movement_direction, direction));
    }

    /// Exec test of `can_advance`.
    pub fn fits_advance(&self) -> (b: bool)
        ensures
            b == can_advance(self@),
    {
        let mut i: usize = 0;
        while i < self.bullets.len()
            invariant
                i <= self.bullets.len(),
                forall|j: int| 0 <= j < i ==> (#[trigger] self@[j]).can_advance(),
            decreases self.bullets.len() - i,
        {
            if !self.bullets[i].fits_advance() {
                return false;
            }
            i += 1;
        }
        true
    }

    /// Moves every bullet by its displacement; nothing else changes.
    pub fn advance(&mut self)
        requires
            can_advance(old(self)@),
        ensures
            final(self)@ == advanced(old(self)@),
            final(self)@.len() == old(self)@.len(),
            forall|i: int|
                0 <= i < old(self)@.len() ==> {
                    &&& (#[trigger] final(self)@[i]).position.x == old(self)@[i].position.x
                        + old(self)@[i].movement_direction.x
                    &&& final(self)@[i].position.y == old(self)@[i].position.y
                        + old(self)@[i].movement_direction.y
                    &&& final(self)@[i].movement_direction == old(self)@[i].movement_direction
                    &&& final(self)@[i].direction == old(self)@[i].direction
                    &&& final(self)@[i].status == old(self)@[i].status
                },
    {
        let n: usize = self.bullets.len();
        let mut i: usize = 0;
        while i < n
            invariant
                i <= n,
                n == old(self)@.len(),
                self@.len() == n,
                can_advance(old(self)@),
                forall|j: int| 0 <= j < i ==> (#[trigger] self@[j]) == old(self)@[j].advanced(),
                forall|j: int| i <= j < n ==> (#[trigger] self@[j]) == old(self)@[j],
            decreases n - i,
        {
            let mut b: BulletDrawable = self.bullets[i];
            assert(b == old(self)@[i as int]);
            b.update();
            self.bullets.set(i, b);
            i += 1;
        }
        assert(self@ =~= advanced(old(self)@));
    }

    /// Removes every bullet that is no longer in flight. The bullets in flight
    /// stay, in their order.
    pub fn remove_old_bullets(&mut self)
        ensures
            final(self)@ == survivors(old(self)@),
    {
        let mut kept: Vec<BulletDrawable> = Vec::new();
        let n: usize = self.bullets.len();
        let mut i: usize = 0;
        while i < n
            invariant
                i <= n,
                n == self@.len(),
                self@ == old(self)@,
                kept@ == survivors(self@.take(i as int)),
            decreases n - i,
        {
            let b: BulletDrawable = self.bullets[i];
            proof {
                assert(self@.take(i as int + 1) =~= self@.take(i as int).push(b));
                self@.take(i as int).lemma_filter_push(b, in_flight());
            }
            if b.is_flying() {
                kept.push(b);
            }
            i += 1;
        }
        proof {
            assert(self@.take(n as int) =~= self@);
        }
        self.bullets = kept;
    }
}

/// Every bullet that culling leaves is in flight.
pub proof fn lemma_survivors_in_flight(s: Seq<BulletDrawable>)
    ensures
        forall|i: int| 0 <= i < survivors(s).len() ==> (#[trigger] survivors(s)[i]).in_flight(),
        survivors(s).len() <= s.len(),
{
    s.lemma_filter_len(in_flight());
    assert forall|i: int| 0 <= i < survivors(s).len() implies (#[trigger] survivors(
        s,
    )[i]).in_flight() by {
        s.lemma_filter_pred(in_flight(), i);
    }
}

/// Culling a collection in which every bullet is in flight changes nothing.
pub proof fn lemma_survivors_of_flying(s: Seq<BulletDrawable>)
    requires
        forall|i: int| 0 <= i < s.len() ==> (#[trigger] s[i]).in_flight(),
    ensures
        survivors(s) == s,
    decreases s.len(),
{
    if s.len() == 0 {
        reveal(Seq::filter);
        assert(survivors(s) =~= s);
    } else {
        let rest = s.drop_last();
        lemma_survivors_of_flying(rest);
        assert(s =~= rest.push(s.last()));
        rest.lemma_filter_push(s.last(), in_flight());
    }
}

/// Culling is idempotent: a second cull, with no status changed in between,
/// leaves exactly what the first one left.
pub proof fn lemma_cull_idempotent(s: Seq<BulletDrawable>)
    ensures
        survivors(survivors(s)) == survivors(s),
{
    lemma_survivors_in_flight(s);
    lemma_survivors_of_flying(survivors(s));
}

/// A bullet in flight before a tick is among the survivors of the cull that
/// follows the tick's advance, moved by its displacement; a bullet that is not
/// in flight is not among them.
pub proof fn lemma_cull_after_advance(s: Seq<BulletDrawable>, i: int)
    requires
        0 <= i < s.len(),
    ensures
        s[i].in_flight() ==> survivors(advanced(s)).contains(s[i].advanced()),
        !s[i].in_flight() ==> !survivors(advanced(s)).contains(s[i].advanced()),
        forall|b: BulletDrawable| !b.in_flight() ==> !survivors(advanced(s)).contains(b),
{
    let a = advanced(s);
    lemma_survivors_in_flight(a);
    assert(a[i] == s[i].advanced());
    if s[i].in_flight() {
        a.lemma_filter_contains(in_flight(), i);
    }
    assert forall|b: BulletDrawable| !b.in_flight() implies !survivors(a).contains(b) by {
        if survivors(a).contains(b) {
            let j = choose|j: int| 0 <= j < survivors(a).len() && survivors(a)[j] == b;
            assert(survivors(a)[j].in_flight());
        }
    }
}

} // verus!
