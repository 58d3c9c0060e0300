use vstd::prelude::*;
use crate::shaders::{CharacterSheet, Position, Projection};
use crate::terrain_object::TerrainTexture;

verus! {

/// Colour to which the frame is cleared: red, green, blue and alpha, each in
/// 256ths.
pub const CLEAR_COLOR: [u16; 4] = [16, 16, 20, 256];

/// One operation recorded for the presentation stage.
#[derive(Clone, Copy, Debug, PartialEq, Eq)]
pub enum DrawCommand {
    /// Clear the colour target to `color`.
    Clear { color: [u16; 4] },
    /// Clear the depth target to the far plane.
    ClearDepth,
    Terrain { projection: Projection },
    Character { projection: Projection, position: Position, sheet: CharacterSheet },
    Zombie { projection: Projection, position: Position, sheet: CharacterSheet },
    Bullet { position: Position, rotation: u32 },
    TerrainObject {
        projection: Projection,
        position: Position,
        time_passed: u64,
        texture: TerrainTexture,
    },
}

/// The render-command buffer: the operations recorded so far, in order.
#[derive(Debug)]
pub struct Encoder {
    pub commands: Vec<DrawCommand>,
}

impl View for Encoder {
    type V = Seq<DrawCommand>;

    open spec fn view(&self) -> Seq<DrawCommand> {
        self.commands@
    }
}

impl Encoder {
    /// A buffer with nothing recorded.
    pub fn new() -> (e: Encoder)
        ensures
            e@ == Seq::<DrawCommand>::empty(),
    {
        Encoder { commands: Vec::new() }
    }

    /// Appends one operation.
    pub fn record(&mut self, command: DrawCommand)
        ensures
            final(self)@ == old(self)@.push(command),
    {
        self.commands.push(command);
    }

    /// Records that the colour target is cleared to `color`.
    pub fn clear(&mut self, color: [u16; 4])
        ensures
            final(self)@ == old(self)@.push(DrawCommand::Clear { color }),
    {
        self.commands.push(DrawCommand::Clear { color });
    }

    /// Records that the depth target is cleared.
    pub fn clear_depth(&mut self)
        ensures
            final(self)@ == old(self)@.push(DrawCommand::ClearDepth),
    {
        self.commands.push(DrawCommand::ClearDepth);
    }

    /// Forgets what was recorded, for the next frame.
    pub fn reset(&mut self)
        ensures
            final(self)@ == Seq::<DrawCommand>::empty(),
    {
        self.commands.clear();
    }
}

/// Where the one command buffer is.
#[derive(Clone, Copy, Debug, PartialEq, Eq, Structural)]
pub enum Holder {
    /// The presentation stage holds it.
    Owner,
    /// It waits in the slot for the update stage.
    Lent,
    /// The update stage holds it.
    Update,
    /// It waits in the slot for the presentation stage.
    Returned,
}

/// Single-slot handoff of the command buffer between the presentation stage,
/// which owns it, and the update stage, which borrows it for one tick.
///
/// There is one buffer. It is in the slot, or one of the two stages holds it;
/// `holder` says which.
#[derive(Debug)]
pub struct EncoderQueue {
    pub slot: Option<Encoder>,
    pub holder: Holder,
    /// Whether the presentation stage still listens for the returned buffer.
    pub owner_connected: bool,
}

impl EncoderQueue {
    /// The buffer is in the slot exactly while no stage holds it.
    pub open spec fn wf(&self) -> bool {
        self.slot.is_some() <==> (self.holder == Holder::Lent || self.holder == Holder::Returned)
    }

    /// What waits in the slot; meaningful while the slot is full.
    pub open spec fn waiting(&self) -> Seq<DrawCommand> {
        self.slot.unwrap()@
    }

    /// A handoff whose buffer the presentation stage holds.
    pub fn new() -> (q: EncoderQueue)
        ensures
            q.wf(),
            q.holder == Holder::Owner,
            q.owner_connected,
    {
        EncoderQueue { slot: None, holder: Holder::Owner, owner_connected: true }
    }

    /// The presentation stage lends its buffer to the update stage.
    pub fn lend(&mut self, encoder: Encoder)
        requires
            old(self).wf(),
            old(self).holder == Holder::Owner,
        ensures
            final(self).wf(),
            final(self).holder == Holder::Lent,
            final(self).slot == Some(encoder),
            final(self).owner_connected == old(self).owner_connected,
    {
        self.slot = Some(encoder);
        self.holder = Holder::Lent;
    }

    /// The update stage takes the buffer that was lent to it. `None`, with
    /// nothing changed, while no buffer waits for it: the stage has to wait.
    pub fn receive(&mut self) -> (r: Option<Encoder>)
        requires
            old(self).wf(),
        ensures
            final(self).wf(),
            final(self).owner_connected == old(self).owner_connected,
            old(self).holder == Holder::Lent ==> r == old(self).slot && final(self).holder
                == Holder::Update && final(self).slot.is_none(),
            old(self).holder != Holder::Lent ==> r.is_none() && final(self).holder == old(
                self,
            ).holder && final(self).slot == old(self).slot,
    {
        match self.holder {
            Holder::Lent => {
                self.holder = Holder::Update;
                self.slot.take()
            },
            _ => None,
        }
    }

    /// The update stage gives the buffer back. A presentation stage that is
    /// gone cannot be given anything: that is fatal, and not a case that this
    /// function takes.
    pub fn give_back(&mut self, encoder: Encoder)
        requires
            old(self).wf(),
            old(self).holder == Holder::Update,
            old(self).owner_connected,
        ensures
            final(self).wf(),
            final(self).holder == Holder::Returned,
            final(self).slot == Some(encoder),
            final(self).owner_connected,
    {
        self.slot = Some(encoder);
        self.holder = Holder::Returned;
    }

    /// The presentation stage takes the returned buffer. `None`, with nothing
    /// changed, while none has been returned.
    pub fn collect(&mut self) -> (r: Option<Encoder>)
        requires
            old(self).wf(),
        ensures
            final(self).wf(),
            final(self).owner_connected == old(self).owner_connected,
            old(self).holder == Holder::Returned ==> r == old(self).slot && final(self).holder
                == Holder::Owner && final(self).slot.is_none(),
            old(self).holder != Holder::Returned ==> r.is_none() && final(self).holder == old(
                self,
            ).holder && final(self).slot == old(self).slot,
    {
        match self.holder {
            Holder::Returned => {
                self.holder = Holder::Owner;
                self.slot.take()
            },
            _ => None,
        }
    }

    /// The presentation stage stops listening.
    pub fn disconnect(&mut self)
        ensures
            final(self).slot == old(self).slot,
            final(self).holder == old(self).holder,
            !final(self).owner_connected,
    {
        self.owner_connected = false;
    }

    /// Whether the update stage may start a tick: a buffer waits for it, and
    /// there is someone to give it back to.
    pub fn ready(&self) -> (b: bool)
        ensures
            b == (self.holder == Holder::Lent && self.owner_connected),
    {
        let lent = match self.holder {
            Holder::Lent => true,
            _ => false,
        };
        lent && self.owner_connected
    }
}

} // verus!
