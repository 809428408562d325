//! Frame rotation for the LED matrix, by multiples of 90°.
use crate::color::PixelColor;
use crate::frame::{flipped_h, lemma_cell_index, reversed, transposed, PixelFrame};
use vstd::prelude::*;

verus! {

/// A counter-clockwise angle, multiple of `90°`, used to create rotated
/// `PixelFrame`s.
#[derive(Copy, Clone, Debug, PartialEq, Eq, Structural)]
pub enum Rotate {
    Ccw0,
    Ccw90,
    Ccw180,
    Ccw270,
}

/// The cells of a frame turned 90° counter-clockwise: cell `(r, c)` of the
/// result is cell `(c, 7 - r)` of `cells`.
pub open spec fn rotated_left(cells: Seq<PixelColor>) -> Seq<PixelColor> {
    Seq::new(64, |i: int| cells[(i % 8) * 8 + (7 - i / 8)])
}

/// The cells of a frame turned 90° clockwise: cell `(r, c)` of the result is
/// cell `(7 - c, r)` of `cells`.
pub open spec fn rotated_right(cells: Seq<PixelColor>) -> Seq<PixelColor> {
    Seq::new(64, |i: int| cells[(7 - i % 8) * 8 + i / 8])
}

/// The cells of a frame turned by 180°: cell `(r, c)` of the result is cell
/// `(7 - r, 7 - c)` of `cells`, which is the cells in reverse order.
pub open spec fn rotated_180(cells: Seq<PixelColor>) -> Seq<PixelColor> {
    reversed(cells)
}

/// The cells of a frame turned counter-clockwise by the given angle.
pub open spec fn rotated(cells: Seq<PixelColor>, rotate: Rotate) -> Seq<PixelColor> {
    match rotate {
        Rotate::Ccw0 => cells,
        Rotate::Ccw90 => rotated_left(cells),
        Rotate::Ccw180 => rotated_180(cells),
        Rotate::Ccw270 => rotated_right(cells),
    }
}

impl PixelFrame {
    /// Create a new `PixelFrame` that is rotated by a multiple of `90°`,
    /// counter-clockwise.
    pub fn rotate(&self, rotate: Rotate) -> (frame: Self)
        ensures
            frame@ == rotated(self@, rotate),
    {
        match rotate {
            Rotate::Ccw0 => *self,
            Rotate::Ccw90 => self.rotate_left(),
            Rotate::Ccw180 => self.rotate_180(),
            Rotate::Ccw270 => self.rotate_right(),
        }
    }

    /// Rotate the display to the left by 90 degrees. Creates a new
    /// `PixelFrame`.
    pub fn rotate_left(&self) -> (frame: Self)
        ensures
            frame@ == rotated_left(self@),
    {
        let mut flip_left = *self;
        flip_left.flip_h();
        flip_left.transpose();
        proof {
            lemma_rotations_from_flips(self@);
        }
        flip_left
    }

    /// Rotate the display by 180 degrees. Creates a new `PixelFrame`.
    pub fn rotate_180(&self) -> (frame: Self)
        ensures
            frame@ == rotated_180(self@),
    {
        let mut flip_180 = *self;
        flip_180.reverse();
        flip_180
    }

    /// Rotate the display to the right by 90 degrees. Creates a new
    /// `PixelFrame`.
    pub fn rotate_right(&self) -> (frame: Self)
        ensures
            frame@ == rotated_right(self@),
    {
        let mut flip_right = *self;
        flip_right.transpose();
        flip_right.flip_h();
        proof {
            lemma_rotations_from_flips(self@);
        }
        flip_right
    }
}

/// A quarter turn to the left is a horizontal flip followed by a transpose; a
/// quarter turn to the right is a transpose followed by a horizontal flip.
pub proof fn lemma_rotations_from_flips(cells: Seq<PixelColor>)
    requires
        cells.len() == 64,
    ensures
        rotated_left(cells) == transposed(flipped_h(cells)),
        rotated_right(cells) == flipped_h(transposed(cells)),
{
    assert(rotated_left(cells) =~= transposed(flipped_h(cells)));
    assert(rotated_right(cells) =~= flipped_h(transposed(cells)));
}

/// Four quarter turns to the left give the frame back.
pub proof fn lemma_rotate_left_four_times(cells: Seq<PixelColor>)
    requires
        cells.len() == 64,
    ensures
        rotated_left(rotated_left(rotated_left(rotated_left(cells)))) == cells,
{
    lemma_rotate_left_twice(cells);
    lemma_rotate_left_twice(rotated_180(cells));
    assert(reversed(reversed(cells)) =~= cells);
}

/// Two quarter turns, both to the left or both to the right, are a half turn.
pub proof fn lemma_rotate_left_twice(cells: Seq<PixelColor>)
    requires
        cells.len() == 64,
    ensures
        rotated_left(rotated_left(cells)) == rotated_180(cells),
        rotated_right(rotated_right(cells)) == rotated_180(cells),
{
    assert forall|i: int| 0 <= i < 64 implies rotated_left(rotated_left(cells))[i]
        == rotated_180(cells)[i] by {
        lemma_cell_index(i % 8, 7 - i / 8);
    }
    assert(rotated_left(rotated_left(cells)) =~= rotated_180(cells));
    assert forall|i: int| 0 <= i < 64 implies rotated_right(rotated_right(cells))[i]
        == rotated_180(cells)[i] by {
        lemma_cell_index(7 - i % 8, i / 8);
    }
    assert(rotated_right(rotated_right(cells)) =~= rotated_180(cells));
}

/// A quarter turn to the left and a quarter turn to the right undo each
/// other, in either order.
pub proof fn lemma_rotate_right_undoes_left(cells: Seq<PixelColor>)
    requires
        cells.len() == 64,
    ensures
        rotated_right(rotated_left(cells)) == cells,
        rotated_left(rotated_right(cells)) == cells,
{
    assert forall|i: int| 0 <= i < 64 implies rotated_right(rotated_left(cells))[i]
        == cells[i] by {
        lemma_cell_index(7 - i % 8, i / 8);
    }
    assert(rotated_right(rotated_left(cells)) =~= cells);
    assert forall|i: int| 0 <= i < 64 implies rotated_left(rotated_right(cells))[i]
        == cells[i] by {
        lemma_cell_index(i % 8, 7 - i / 8);
    }
    assert(rotated_left(rotated_right(cells)) =~= cells);
}

/// Two half turns give the frame back.
pub proof fn lemma_rotate_180_twice(cells: Seq<PixelColor>)
    requires
        cells.len() == 64,
    ensures
        rotated_180(rotated_180(cells)) == cells,
{
    assert(rotated_180(rotated_180(cells)) =~= cells);
}

} // verus!
