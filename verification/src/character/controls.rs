use vstd::prelude::*;
use crate::shaders::Position;

verus! {

/// What the input collaborator knows of the player this tick: how far the
/// player has moved in all.
#[derive(Clone, Copy, Debug, PartialEq, Eq, Structural)]
pub struct CharacterInputState {
    pub movement: Position,
}

impl CharacterInputState {
    pub fn new() -> (s: CharacterInputState)
        ensures
            s.movement == (Position { x: 0, y: 0 }),
    {
        CharacterInputState { movement: Position::origin() }
    }
}

} // verus!
