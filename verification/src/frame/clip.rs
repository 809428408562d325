//! Support for combining `PixelFrame`s.
//!
//! A `FrameClip` holds two frames and shows the first sliding out while the
//! second slides in, by columns or by rows.
use crate::color::PixelColor;
use crate::frame::offset::{slid, Offset};
use crate::frame::{
    clip_pixel_frames_offset_bottom, clip_pixel_frames_offset_left,
    clip_pixel_frames_offset_right, clip_pixel_frames_offset_top, lemma_slid_by_all,
    lemma_slid_by_none, lemma_slid_mirror, slid_bottom, slid_left, slid_right, slid_top,
    PixelFrame,
};
use vstd::prelude::*;

verus! {

/// A clip made of two `PixelFrame`s.
#[derive(Copy, Clone, Debug, PartialEq)]
pub struct FrameClip {
    pub first: PixelFrame,
    pub second: PixelFrame,
}

impl PixelFrame {
    /// Create a `FrameClip` with this and another `PixelFrame`.
    pub fn clip(&self, other: &PixelFrame) -> (clip: FrameClip)
        ensures
            clip.first == *self,
            clip.second == *other,
    {
        FrameClip::new(*self, *other)
    }
}

impl FrameClip {
    /// The cells of the frame that the clip shows at the given offset.
    pub open spec fn shown(self, offset: Offset) -> Seq<PixelColor> {
        slid(self.first@, self.second@, offset)
    }

    /// Create a new `FrameClip` from two `PixelFrame`s.
    pub fn new(first: PixelFrame, second: PixelFrame) -> (clip: Self)
        ensures
            clip.first == first,
            clip.second == second,
    {
        FrameClip { first, second }
    }

    /// Offset position for which to create the clipped `PixelFrame`.
    pub fn offset(&self, offset: Offset) -> (frame: PixelFrame)
        requires
            offset.in_range(),
        ensures
            frame@ == self.shown(offset),
    {
        match offset {
            Offset::Left(offset) => self.offset_left(offset),
            Offset::Right(offset) => self.offset_right(offset),
            Offset::Bottom(offset) => self.offset_bottom(offset),
            Offset::Top(offset) => self.offset_top(offset),
        }
    }

    /// Reverse the order of the inner `PixelFrame`s.
    pub fn reverse(self) -> (clip: Self)
        ensures
            clip.first == self.second,
            clip.second == self.first,
    {
        FrameClip::new(self.second, self.first)
    }

    /// The first frame moved `offset` cells to the left, the second coming in.
    pub fn offset_left(&self, offset: u8) -> (frame: PixelFrame)
        requires
            offset <= 8,
        ensures
            frame@ == slid_left(self.first@, self.second@, offset as int),
    {
        clip_pixel_frames_offset_left(self.first, self.second, offset)
    }

    /// The first frame moved `offset` cells to the right, the second coming in.
    pub fn offset_right(&self, offset: u8) -> (frame: PixelFrame)
        requires
            offset <= 8,
        ensures
            frame@ == slid_right(self.first@, self.second@, offset as int),
    {
        clip_pixel_frames_offset_right(self.first, self.second, offset)
    }

    /// The first frame moved `offset` cells to the bottom, the second coming
    /// in.
    pub fn offset_bottom(&self, offset: u8) -> (frame: PixelFrame)
        requires
            offset <= 8,
        ensures
            frame@ == slid_bottom(self.first@, self.second@, offset as int),
    {
        clip_pixel_frames_offset_bottom(self.first, self.second, offset)
    }

    /// The first frame moved `offset` cells to the top, the second coming in.
    pub fn offset_top(&self, offset: u8) -> (frame: PixelFrame)
        requires
            offset <= 8,
        ensures
            frame@ == slid_top(self.first@, self.second@, offset as int),
    {
        clip_pixel_frames_offset_top(self.first, self.second, offset)
    }
}

/// At an offset of 0 cells a clip shows its first frame and at an offset of 8
/// cells its second frame, in every direction.
pub proof fn lemma_clip_ends(clip: FrameClip)
    ensures
        clip.shown(Offset::Left(0)) == clip.first@,
        clip.shown(Offset::Right(0)) == clip.first@,
        clip.shown(Offset::Top(0)) == clip.first@,
        clip.shown(Offset::Bottom(0)) == clip.first@,
        clip.shown(Offset::Left(8)) == clip.second@,
        clip.shown(Offset::Right(8)) == clip.second@,
        clip.shown(Offset::Top(8)) == clip.second@,
        clip.shown(Offset::Bottom(8)) == clip.second@,
{
    lemma_slid_by_none(clip.first@, clip.second@);
    lemma_slid_by_all(clip.first@, clip.second@);
}

/// A clip offset to the right by `n` cells shows what the clip of the same
/// frames in the other order shows when offset to the left by `8 - n` cells;
/// likewise for bottom and top.
pub proof fn lemma_clip_mirror(clip: FrameClip, n: u8)
    requires
        n <= 8,
    ensures
        clip.shown(Offset::Right(n)) == (FrameClip {
            first: clip.second,
            second: clip.first,
        }).shown(Offset::Left((8 - n) as u8)),
        clip.shown(Offset::Bottom(n)) == (FrameClip {
            first: clip.second,
            second: clip.first,
        }).shown(Offset::Top((8 - n) as u8)),
{
    lemma_slid_mirror(clip.first@, clip.second@, n as int);
}

} // verus!
