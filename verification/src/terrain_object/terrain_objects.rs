use vstd::prelude::*;
use crate::character::controls::CharacterInputState;
use crate::shaders::{Position, Projection};
use crate::terrain_object::TerrainObjectDrawable;

verus! {

/// The terrain objects of one entity.
#[derive(Debug)]
pub struct TerrainObjects {
    pub objects: Vec<TerrainObjectDrawable>,
}

impl View for TerrainObjects {
    type V = Seq<TerrainObjectDrawable>;

    open spec fn view(&self) -> Seq<TerrainObjectDrawable> {
        self.objects@
    }
}

impl TerrainObjects {
    pub fn new() -> (t: TerrainObjects)
        ensures
            t@ == Seq::<TerrainObjectDrawable>::empty(),
    {
        TerrainObjects { objects: Vec::new() }
    }

    /// Whether every object can follow `movement`.
    pub open spec fn can_update(self, movement: Position) -> bool {
        forall|i: int| 0 <= i < self@.len() ==> (#[trigger] self@[i]).can_update(movement)
    }

    /// The objects after each has followed `movement` under `world_to_clip`.
    pub open spec fn updated(self, world_to_clip: Projection, movement: Position) -> Seq<
        TerrainObjectDrawable,
    > {
        Seq::new(self@.len(), |i: int| self@[i].updated(world_to_clip, movement))
    }

    /// Exec test of `can_update`.
    pub fn fits_update(&self, ci: &CharacterInputState) -> (b: bool)
        ensures
            b == self.can_update(ci.movement),
    {
        let mut i: usize = 0;
        while i < self.objects.len()
            invariant
                i <= self.objects.len(),
                forall|j: int| 0 <= j < i ==> (#[trigger] self@[j]).can_update(ci.movement),
            decreases self.objects.len() - i,
        {
            if !self.objects[i].fits_update(ci) {
                assert(!self@[i as int].can_update(ci.movement));
                return false;
            }
            i += 1;
        }
        true
    }

    /// Lets every object take over the transform and follow the movement.
    pub fn update(&mut self, world_to_clip: &Projection, ci: &CharacterInputState)
        requires
            old(self).can_update(ci.movement),
        ensures
            final(self)@ == old(self).updated(*world_to_clip, ci.movement),
    {
        let n: usize = self.objects.len();
        let mut i: usize = 0;
        while i < n
            invariant
                i <= n,
                n == self@.len(),
                n == old(self)@.len(),
                old(self).can_update(ci.movement),
                forall|j: int|
                    0 <= j < i ==> (#[trigger] self@[j]) == old(self)@[j].updated(
                        *world_to_clip,
                        ci.movement,
                    ),
                forall|j: int| i <= j < n ==> (#[trigger] self@[j]) == old(self)@[j],
            decreases n - i,
        {
            let mut o: TerrainObjectDrawable = self.objects[i];
            assert(o == old(self)@[i as int]);
            o.update(world_to_clip, ci);
            self.objects.set(i, o);
            i += 1;
        }
        assert(self@ =~= old(self).updated(*world_to_clip, ci.movement));
    }
}

} // verus!
