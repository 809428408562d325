//! `PixelFrame` offset in left/right/top/bottom directions.
use crate::color::PixelColor;
use crate::frame::{
    clip_pixel_frames_offset_bottom, clip_pixel_frames_offset_left,
    clip_pixel_frames_offset_right, clip_pixel_frames_offset_top, slid_bottom, slid_left,
    slid_right, slid_top, solid, PixelFrame,
};
use vstd::prelude::*;

verus! {

/// Offset for `PixelFrame` displacement in a given direction: a number of
/// cells from 0 to 8.
#[derive(Copy, Clone, Debug, PartialEq, Eq, Structural)]
pub enum Offset {
    Left(u8),
    Right(u8),
    Bottom(u8),
    Top(u8),
}

/// The cells that show `first` displaced by `offset`, with `second` sliding
/// into the space that `first` leaves.
pub open spec fn slid(first: Seq<PixelColor>, second: Seq<PixelColor>, offset: Offset) -> Seq<
    PixelColor,
> {
    match offset {
        Offset::Left(n) => slid_left(first, second, n as int),
        Offset::Right(n) => slid_right(first, second, n as int),
        Offset::Bottom(n) => slid_bottom(first, second, n as int),
        Offset::Top(n) => slid_top(first, second, n as int),
    }
}

impl Offset {
    /// The number of cells of the displacement.
    pub open spec fn magnitude(self) -> int {
        match self {
            Offset::Left(n) => n as int,
            Offset::Right(n) => n as int,
            Offset::Bottom(n) => n as int,
            Offset::Top(n) => n as int,
        }
    }

    /// Whether the displacement is one of the 9 positions from 0 to 8.
    pub open spec fn in_range(self) -> bool {
        self.magnitude() <= 8
    }

    /// Whether the displacement is one of the 9 positions from 0 to 8.
    pub fn is_in_range(&self) -> (valid: bool)
        ensures
            valid == self.in_range(),
    {
        match self {
            Offset::Left(n) => *n <= 8,
            Offset::Right(n) => *n <= 8,
            Offset::Bottom(n) => *n <= 8,
            Offset::Top(n) => *n <= 8,
        }
    }

    /// Offset by `offset` pixels to the left of the LED matrix.
    pub fn left(offset: u8) -> (result: Self)
        requires
            offset <= 8,
        ensures
            result == Offset::Left(offset),
            result.in_range(),
    {
        Offset::Left(offset)
    }

    /// Offset by `offset` pixels to the right of the LED matrix.
    pub fn right(offset: u8) -> (result: Self)
        requires
            offset <= 8,
        ensures
            result == Offset::Right(offset),
            result.in_range(),
    {
        Offset::Right(offset)
    }

    /// Offset by `offset` pixels to the bottom of the LED matrix.
    pub fn bottom(offset: u8) -> (result: Self)
        requires
            offset <= 8,
        ensures
            result == Offset::Bottom(offset),
            result.in_range(),
    {
        Offset::Bottom(offset)
    }

    /// Offset by `offset` pixels to the top of the LED matrix.
    pub fn top(offset: u8) -> (result: Self)
        requires
            offset <= 8,
        ensures
            result == Offset::Top(offset),
            result.in_range(),
    {
        Offset::Top(offset)
    }
}

impl PixelFrame {
    /// Offset the `PixelFrame` by a number of pixels in any of the possible
    /// directions. The cells that the frame leaves are black.
    pub fn offset(&self, offset: Offset) -> (frame: Self)
        requires
            offset.in_range(),
        ensures
            frame@ == slid(self@, solid(PixelColor { red: 0, green: 0, blue: 0 }), offset),
    {
        match offset {
            Offset::Left(offset) => self.offset_left(offset),
            Offset::Right(offset) => self.offset_right(offset),
            Offset::Bottom(offset) => self.offset_bottom(offset),
            Offset::Top(offset) => self.offset_top(offset),
        }
    }

    /// The frame moved `offset` cells to the left, black coming in.
    pub fn offset_left(&self, offset: u8) -> (frame: Self)
        requires
            offset <= 8,
        ensures
            frame@ == slid_left(
                self@,
                solid(PixelColor { red: 0, green: 0, blue: 0 }),
                offset as int,
            ),
    {
        clip_pixel_frames_offset_left(*self, PixelFrame::black(), offset)
    }

    /// The frame moved `offset` cells to the right, black coming in.
    pub fn offset_right(&self, offset: u8) -> (frame: Self)
        requires
            offset <= 8,
        ensures
            frame@ == slid_right(
                self@,
                solid(PixelColor { red: 0, green: 0, blue: 0 }),
                offset as int,
            ),
    {
        clip_pixel_frames_offset_right(*self, PixelFrame::black(), offset)
    }

    /// The frame moved `offset` cells to the bottom, black coming in.
    pub fn offset_bottom(&self, offset: u8) -> (frame: Self)
        requires
            offset <= 8,
        ensures
            frame@ == slid_bottom(
                self@,
                solid(PixelColor { red: 0, green: 0, blue: 0 }),
                offset as int,
            ),
    {
        clip_pixel_frames_offset_bottom(*self, PixelFrame::black(), offset)
    }

    /// The frame moved `offset` cells to the top, black coming in.
    pub fn offset_top(&self, offset: u8) -> (frame: Self)
        requires
            offset <= 8,
        ensures
            frame@ == slid_top(
                self@,
                solid(PixelColor { red: 0, green: 0, blue: 0 }),
                offset as int,
            ),
    {
        clip_pixel_frames_offset_top(*self, PixelFrame::black(), offset)
    }
}

} // verus!
