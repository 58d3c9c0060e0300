use vstd::prelude::*;
use crate::critter::CritterData;
use crate::graphics::orientation::{Orientation, Stance, ORIENTATION_COUNT};
use crate::shaders::CharacterSheet;

verus! {

/// The direction that stays committed after a frame has been selected.
///
/// While the entity stands still, or walks with a facing, the committed
/// direction is kept. In every other case the live orientation is committed.
pub open spec fn committed_direction(
    stance: Stance,
    orientation: Orientation,
    direction: Orientation,
) -> Orientation {
    if stance.stationary() {
        direction
    } else if stance.moving() && orientation != Orientation::Still {
        direction
    } else {
        orientation
    }
}

/// Flat index of a frame in a table with `stationary` idle frames and `moving`
/// walking frames per direction, the walking frames starting at `offset`.
pub open spec fn frame_index(
    stationary: nat,
    moving: nat,
    offset: nat,
    stance: Stance,
    orientation: Orientation,
    direction: Orientation,
    sub_frame: nat,
) -> nat {
    if stance.stationary() {
        direction.row() * stationary + sub_frame
    } else if stance.moving() && orientation != Orientation::Still {
        direction.row() * moving + sub_frame + offset
    } else {
        orientation.row() * stationary + sub_frame
    }
}

/// Flat index at which row `row` starts in a table with `count` frames per row.
fn row_start(row: usize, count: usize) -> (r: u128)
    requires
        row < ORIENTATION_COUNT,
    ensures
        r == row * count,
        r <= 8 * usize::MAX,
{
    assert(row * count <= 8 * usize::MAX) by (nonlinear_arith)
        requires
            0 <= row <= 8,
            0 <= count <= usize::MAX,
    ;
    row as u128 * count as u128
}

/// The frames of one kind of entity on its sprite sheet, with the layout of
/// the sheet: first the idle frames, `stationary_frame_count` per direction,
/// and from `moving_table_offset` on the walking frames, `moving_frame_count`
/// per direction.
pub struct AnimationTable {
    /// Cell of every frame, by flat index.
    pub frames: Vec<CritterData>,
    /// Width of the whole sheet, in pixels.
    pub sheet_total_width: u32,
    /// Gap between two cells, in pixels.
    pub frame_spacing: u32,
    pub stationary_frame_count: usize,
    pub moving_frame_count: usize,
    pub moving_table_offset: usize,
}

impl AnimationTable {
    pub fn new(
        frames: Vec<CritterData>,
        sheet_total_width: u32,
        frame_spacing: u32,
        stationary_frame_count: usize,
        moving_frame_count: usize,
        moving_table_offset: usize,
    ) -> (t: AnimationTable)
        ensures
            t.frames == frames,
            t.sheet_total_width == sheet_total_width,
            t.frame_spacing == frame_spacing,
            t.stationary_frame_count == stationary_frame_count,
            t.moving_frame_count == moving_frame_count,
            t.moving_table_offset == moving_table_offset,
    {
        AnimationTable {
            frames,
            sheet_total_width,
            frame_spacing,
            stationary_frame_count,
            moving_frame_count,
            moving_table_offset,
        }
    }

    /// Flat index of the frame to show.
    pub open spec fn index_of(
        self,
        stance: Stance,
        orientation: Orientation,
        direction: Orientation,
        sub_frame: nat,
    ) -> nat {
        frame_index(
            self.stationary_frame_count as nat,
            self.moving_frame_count as nat,
            self.moving_table_offset as nat,
            stance,
            orientation,
            direction,
            sub_frame,
        )
    }

    /// Number of cells of the width of frame `index` that lie side by side on
    /// the sheet.
    pub open spec fn columns_at(self, index: int) -> int {
        self.sheet_total_width as int / (self.frames@[index].cell_width() + self.frame_spacing)
    }

    /// Whether a frame can be selected: its index lies in the table, and its
    /// cell with the gap has a width.
    pub open spec fn can_select(
        self,
        stance: Stance,
        orientation: Orientation,
        direction: Orientation,
        sub_frame: nat,
    ) -> bool {
        let index = self.index_of(stance, orientation, direction, sub_frame);
        index < self.frames@.len() && self.frames@[index as int].cell_width() + self.frame_spacing
            > 0
    }

    /// The cell that `select` returns.
    pub open spec fn sheet_of(
        self,
        stance: Stance,
        orientation: Orientation,
        direction: Orientation,
        sub_frame: nat,
    ) -> CharacterSheet {
        let index = self.index_of(stance, orientation, direction, sub_frame);
        CharacterSheet { div: self.columns_at(index as int) as u64, index: index as usize }
    }

    /// Flat index of the frame to show, or `None` where it lies outside the
    /// table.
    fn checked_index(
        &self,
        stance: Stance,
        orientation: Orientation,
        direction: Orientation,
        sub_frame: usize,
    ) -> (r: Option<usize>)
        ensures
            r.is_some() <==> self.index_of(stance, orientation, direction, sub_frame as nat)
                < self.frames@.len(),
            r.is_some() ==> r.unwrap() == self.index_of(
                stance,
                orientation,
                direction,
                sub_frame as nat,
            ),
    {
        let len: u128 = self.frames.len() as u128;
        let k: u128 = sub_frame as u128;
        let index: u128 = if stance.is_stationary() {
            row_start(direction.ordinal(), self.stationary_frame_count) + k
        } else if stance.is_moving() && orientation.is_directed() {
            row_start(direction.ordinal(), self.moving_frame_count) + k
                + self.moving_table_offset as u128
        } else {
            row_start(orientation.ordinal(), self.stationary_frame_count) + k
        };
        if index < len {
            Some(index as usize)
        } else {
            None
        }
    }

    /// Exec test of `can_select`.
    pub fn fits_select(
        &self,
        stance: Stance,
        orientation: Orientation,
        direction: Orientation,
        sub_frame: usize,
    ) -> (b: bool)
        ensures
            b == self.can_select(stance, orientation, direction, sub_frame as nat),
    {
        match self.checked_index(stance, orientation, direction, sub_frame) {
            Some(index) => self.frames[index].width() as u64 + self.frame_spacing as u64 > 0,
            None => false,
        }
    }

    /// Selects the frame to show and says which direction is committed from
    /// now on.
    ///
    /// While the entity stands still, the frame is the `sub_frame`-th idle
    /// frame of the committed direction. While it walks with a facing, the
    /// frame is the `sub_frame`-th walking frame of the committed direction.
    /// Otherwise the live orientation is committed, and the frame is the
    /// `sub_frame`-th idle frame of that direction.
    pub fn select(
        &self,
        stance: Stance,
        orientation: Orientation,
        direction: Orientation,
        sub_frame: usize,
    ) -> (r: (CharacterSheet, Orientation))
        requires
            self.can_select(stance, orientation, direction, sub_frame as nat),
        ensures
            r.0 == self.sheet_of(stance, orientation, direction, sub_frame as nat),
            r.0.index == self.index_of(stance, orientation, direction, sub_frame as nat),
            r.0.div == self.columns_at(r.0.index as int),
            r.1 == committed_direction(stance, orientation, direction),
    {
        let found = self.checked_index(stance, orientation, direction, sub_frame);
        let index: usize = found.unwrap();
        let committed = if stance.is_stationary() {
            direction
        } else if stance.is_moving() && orientation.is_directed() {
            direction
        } else {
            orientation
        };
        let cell: u64 = self.frames[index].width() as u64 + self.frame_spacing as u64;
        let div: u64 = self.sheet_total_width as u64 / cell;
        (CharacterSheet { div, index }, committed)
    }
}

/// While the entity stands still, the selected frame is the `k`-th idle frame
/// of the committed direction `d`: with `f` idle frames per direction, frame
/// `d * f + k`. While it walks with a facing, the selected frame is the `k`-th
/// walking frame of `d`: with `m` walking frames per direction starting at
/// `o`, frame `d * m + k + o`. Neither depends on the live orientation, and the
/// committed direction stays `d`.
pub proof fn lemma_index_is_determined(
    f: nat,
    m: nat,
    o: nat,
    d: Orientation,
    orientation: Orientation,
    k: nat,
)
    ensures
        frame_index(f, m, o, Stance::Still, orientation, d, k) == d.row() * f + k,
        committed_direction(Stance::Still, orientation, d) == d,
        orientation != Orientation::Still ==> frame_index(
            f,
            m,
            o,
            Stance::Walking,
            orientation,
            d,
            k,
        ) == d.row() * m + k + o,
        orientation != Orientation::Still ==> committed_direction(
            Stance::Walking,
            orientation,
            d,
        ) == d,
{
}

/// An idle frame `k` below the frame count `f` lies in the row of its
/// direction: frames of different directions do not overlap.
pub proof fn lemma_rows_do_not_overlap(f: nat, d: Orientation, k: nat)
    requires
        k < f,
    ensures
        d.row() * f <= d.row() * f + k < (d.row() + 1) * f,
{
    assert((d.row() + 1) * f == d.row() * f + f) by (nonlinear_arith);
}

} // verus!
