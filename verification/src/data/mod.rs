use vstd::prelude::*;

verus! {

/// Frames of the character's run cycle on the sprite atlas.
pub const RUN_FRAMES: u8 = 14;

/// Directions in which the run cycle is drawn on the sprite atlas.
pub const RUN_ANGLES: usize = 4;

/// Sprites of the character's run cycle: every frame in every direction.
pub const CHARACTER_SPRITES: usize = 56;

/// Names one sprite of the character's run cycle on the atlas: the angle of
/// the direction in degrees, and the number of the frame, counted from one.
#[derive(Clone, Copy, Debug, PartialEq, Eq, Structural)]
pub struct SpriteKey {
    pub angle: u16,
    pub frame: u8,
}

/// The `a`-th direction of the run cycle, in degrees.
pub open spec fn angle_at(a: int) -> u16 {
    if a == 0 {
        45
    } else if a == 1 {
        135
    } else if a == 2 {
        225
    } else {
        315
    }
}

/// The key of the `i`-th sprite of the character's table: the frames follow
/// one another, and each frame comes in the four directions in turn.
pub open spec fn key_at(i: int) -> SpriteKey {
    SpriteKey { angle: angle_at(i % 4), frame: (i / 4 + 1) as u8 }
}

/// The key of the `i`-th sprite of a table that is laid out by direction: the
/// directions follow one another, and each direction comes with its frames in
/// turn.
pub open spec fn key_by_direction(i: int) -> SpriteKey {
    SpriteKey { angle: angle_at(i / 14), frame: (i % 14 + 1) as u8 }
}

/// The decimal digits of `n` in ASCII, without leading zeros.
pub open spec fn decimal(n: nat) -> Seq<u8>
    decreases n,
{
    if n < 10 {
        seq![(48 + n) as u8]
    } else {
        decimal(n / 10).push((48 + n % 10) as u8)
    }
}

/// The number of a frame as the atlas writes it: with two digits at least.
pub open spec fn frame_digits(n: nat) -> Seq<u8> {
    if n < 10 {
        seq![48u8, (48 + n) as u8]
    } else {
        decimal(n)
    }
}

/// The letters `Jog_` in ASCII.
pub open spec fn name_prefix() -> Seq<u8> {
    seq![74u8, 111u8, 103u8, 95u8]
}

/// The name of a sprite on the atlas, in ASCII: `Jog_`, the angle, an
/// underscore, and the number of the frame.
pub open spec fn sprite_name(key: SpriteKey) -> Seq<u8> {
    name_prefix() + decimal(key.angle as nat) + seq![95u8] + frame_digits(key.frame as nat)
}

/// Appends the decimal digits of `n` to `out`.
pub fn push_decimal(out: &mut Vec<u8>, n: u16)
    ensures
        final(out)@ == old(out)@ + decimal(n as nat),
    decreases n,
{
    if n < 10 {
        out.push(48 + n as u8);
        assert(out@ =~= old(out)@ + decimal(n as nat));
    } else {
        push_decimal(out, n / 10);
        out.push(48 + (n % 10) as u8);
        assert(out@ =~= old(out)@ + decimal(n as nat));
    }
}

/// The keys of the character's sprites, in the order of the sprite table.
pub fn character_sprite_keys() -> (keys: Vec<SpriteKey>)
    ensures
        keys@.len() == CHARACTER_SPRITES,
        forall|i: int| 0 <= i < keys@.len() ==> #[trigger] keys@[i] == key_at(i),
{
    let mut keys: Vec<SpriteKey> = Vec::with_capacity(CHARACTER_SPRITES);
    let mut frame: u8 = 1;
    while frame <= RUN_FRAMES
        invariant
            1 <= frame <= RUN_FRAMES + 1,
            keys@.len() == 4 * (frame - 1),
            forall|i: int| 0 <= i < keys@.len() ==> #[trigger] keys@[i] == key_at(i),
        decreases RUN_FRAMES + 1 - frame,
    {
        keys.push(SpriteKey { angle: 45, frame });
        keys.push(SpriteKey { angle: 135, frame });
        keys.push(SpriteKey { angle: 225, frame });
        keys.push(SpriteKey { angle: 315, frame });
        frame += 1;
    }
    keys
}

/// The keys of the character's sprites, direction by direction: the order of
/// an animation table with one row for each direction.
pub fn keys_by_direction() -> (keys: Vec<SpriteKey>)
    ensures
        keys@.len() == CHARACTER_SPRITES,
        forall|i: int| 0 <= i < keys@.len() ==> #[trigger] keys@[i] == key_by_direction(i),
{
    let mut keys: Vec<SpriteKey> = Vec::with_capacity(CHARACTER_SPRITES);
    let mut direction: usize = 0;
    while direction < RUN_ANGLES
        invariant
            direction <= RUN_ANGLES,
            keys@.len() == 14 * direction,
            forall|i: int| 0 <= i < keys@.len() ==> #[trigger] keys@[i] == key_by_direction(i),
        decreases RUN_ANGLES - direction,
    {
        let angle: u16 = if direction == 0 {
            45
        } else if direction == 1 {
            135
        } else if direction == 2 {
            225
        } else {
            315
        };
        let mut frame: u8 = 1;
        while frame <= RUN_FRAMES
            invariant
                direction < RUN_ANGLES,
                angle == angle_at(direction as int),
                1 <= frame <= RUN_FRAMES + 1,
                keys@.len() == 14 * direction + (frame - 1),
                forall|i: int|
                    0 <= i < keys@.len() ==> #[trigger] keys@[i] == key_by_direction(i),
            decreases RUN_FRAMES + 1 - frame,
        {
            keys.push(SpriteKey { angle, frame });
            frame += 1;
        }
        direction += 1;
    }
    keys
}

/// The name of the sprite `key` on the atlas.
pub fn name_of(key: &SpriteKey) -> (name: Vec<u8>)
    ensures
        name@ == sprite_name(*key),
{
    let mut name: Vec<u8> = Vec::new();
    name.push(74);
    name.push(111);
    name.push(103);
    name.push(95);
    assert(name@ =~= name_prefix());
    push_decimal(&mut name, key.angle);
    name.push(95);
    if key.frame < 10 {
        name.push(48);
        name.push(48 + key.frame);
    } else {
        push_decimal(&mut name, key.frame as u16);
    }
    assert(name@ =~= sprite_name(*key));
    name
}

} // verus!
