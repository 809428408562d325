//! Scrolling for pixel frames on the LED matrix.
use crate::color::PixelColor;
use crate::frame::clip::FrameClip;
use crate::frame::offset::{slid, Offset};
use crate::frame::PixelFrame;
use vstd::prelude::*;
use vstd::slice::slice_to_vec;

verus! {

/// The direction in which a sequence of frames moves over the display.
#[derive(Copy, Clone, Debug, PartialEq, Eq, Structural)]
pub enum FrameDirection {
    RightToLeft,
    LeftToRight,
    BottomToTop,
    TopToBottom,
}

impl FrameDirection {
    /// The offset that moves a frame `n` cells in this direction: frames that
    /// move from right to left are offset to the left, and so on.
    pub open spec fn offset_by(self, n: u8) -> Offset {
        match self {
            FrameDirection::RightToLeft => Offset::Left(n),
            FrameDirection::LeftToRight => Offset::Right(n),
            FrameDirection::BottomToTop => Offset::Top(n),
            FrameDirection::TopToBottom => Offset::Bottom(n),
        }
    }

    /// The offset that moves a frame `n` cells in this direction.
    pub fn offset(&self, n: u8) -> (offset: Offset)
        requires
            n <= 8,
        ensures
            offset == self.offset_by(n),
            offset.in_range(),
    {
        match self {
            FrameDirection::RightToLeft => Offset::left(n),
            FrameDirection::LeftToRight => Offset::right(n),
            FrameDirection::BottomToTop => Offset::top(n),
            FrameDirection::TopToBottom => Offset::bottom(n),
        }
    }
}

/// The clips between neighbours: clip `i` leads from frame `i` to frame
/// `i + 1`.
pub open spec fn clips_of(frames: Seq<PixelFrame>) -> Seq<FrameClip> {
    Seq::new(
        (frames.len() - 1) as nat,
        |i: int| FrameClip { first: frames[i], second: frames[i + 1] },
    )
}

/// The cells that a sequence of clips shows at a position: position
/// `8 * i + n`, with `n` from 0 to 7, shows clip `i` offset by `n` cells in the
/// given direction, and the position after the last of these shows the second
/// frame of the last clip.
pub open spec fn shown_at(clips: Seq<FrameClip>, direction: FrameDirection, position: int) -> Seq<
    PixelColor,
> {
    if position == 8 * clips.len() {
        clips.last().second@
    } else {
        clips[position / 8].shown(direction.offset_by((position % 8) as u8))
    }
}

/// A sequence of frames to be scrolled on the LED matrix.
#[derive(Debug, PartialEq)]
pub struct FrameSequence {
    clips: Vec<FrameClip>,
    direction: FrameDirection,
    position: usize,
}

impl FrameSequence {
    #[verifier::type_invariant]
    spec fn well_formed(&self) -> bool {
        &&& self.clips@.len() >= 1
        &&& self.clips@.len() * 8 < usize::MAX
        &&& self.position <= self.clips@.len() * 8 + 1
    }

    /// The clips that the sequence runs through.
    pub closed spec fn spec_clips(&self) -> Seq<FrameClip> {
        self.clips@
    }

    /// The direction in which the frames move.
    pub closed spec fn spec_direction(&self) -> FrameDirection {
        self.direction
    }

    /// The position of the frame that comes next.
    pub closed spec fn spec_position(&self) -> int {
        self.position as int
    }

    /// The number of the last position: 8 for every clip.
    pub open spec fn spec_positions(&self) -> int {
        8 * self.spec_clips().len() as int
    }

    /// Create a new `FrameSequence` from a reference to a `Scroll` and a
    /// `FrameDirection`.
    fn new(scroll: &Scroll, direction: FrameDirection) -> (sequence: Self)
        ensures
            sequence.spec_clips() == clips_of(scroll@),
            sequence.spec_direction() == direction,
            sequence.spec_position() == 0,
    {
        let position = 0usize;
        let clips = scroll.clips();
        proof {
            use_type_invariant(scroll);
        }
        FrameSequence { clips, direction, position }
    }

    /// The clips that the sequence runs through.
    pub fn clips(&self) -> (clips: &Vec<FrameClip>)
        ensures
            clips@ == self.spec_clips(),
            clips@.len() >= 1,
    {
        proof {
            use_type_invariant(self);
        }
        &self.clips
    }

    /// The direction in which the frames move.
    pub fn direction(&self) -> (direction: FrameDirection)
        ensures
            direction == self.spec_direction(),
    {
        self.direction
    }

    /// The position of the frame that comes next.
    pub fn position(&self) -> (position: usize)
        ensures
            position == self.spec_position(),
            position <= self.spec_positions() + 1,
    {
        proof {
            use_type_invariant(self);
        }
        self.position
    }

    /// The number of the last position: 8 for every clip.
    pub fn positions(&self) -> (positions: usize)
        ensures
            positions == self.spec_positions(),
            positions >= 8,
    {
        proof {
            use_type_invariant(self);
        }
        self.clips.len() * 8
    }

    /// The frame that the sequence shows at the given position.
    fn frame_at(&self, position: usize) -> (frame: PixelFrame)
        requires
            position <= self.spec_positions(),
        ensures
            frame@ == shown_at(self.spec_clips(), self.spec_direction(), position as int),
    {
        proof {
            use_type_invariant(self);
        }
        let clip_idx = position / 8;
        if clip_idx == self.clips.len() {
            self.clips[clip_idx - 1].second
        } else {
            let cells = (position % 8) as u8;
            self.clips[clip_idx].offset(self.direction.offset(cells))
        }
    }

    /// The frame at the current position, after which the sequence stands at
    /// the next one. There is one frame for each position from 0 to
    /// `positions()`, and none after that.
    pub fn next(&mut self) -> (frame: Option<PixelFrame>)
        ensures
            final(self).spec_clips() == old(self).spec_clips(),
            final(self).spec_direction() == old(self).spec_direction(),
            old(self).spec_position() <= old(self).spec_positions() ==> {
                &&& frame matches Some(shown)
                &&& shown@ == shown_at(
                    old(self).spec_clips(),
                    old(self).spec_direction(),
                    old(self).spec_position(),
                )
                &&& final(self).spec_position() == old(self).spec_position() + 1
            },
            old(self).spec_position() > old(self).spec_positions() ==> {
                &&& frame is None
                &&& final(self).spec_position() == old(self).spec_position()
            },
    {
        proof {
            use_type_invariant(&*self);
        }
        let positions = self.positions();
        if self.position > positions {
            return None;
        }
        let frame = self.frame_at(self.position);
        self.position += 1;
        Some(frame)
    }

    /// Passes over `n` frames and gives the one after them, if the sequence
    /// has that many left; if not, the sequence stands at its end.
    pub fn nth(&mut self, n: usize) -> (frame: Option<PixelFrame>)
        ensures
            final(self).spec_clips() == old(self).spec_clips(),
            final(self).spec_direction() == old(self).spec_direction(),
            old(self).spec_position() + n <= old(self).spec_positions() ==> {
                &&& frame matches Some(shown)
                &&& shown@ == shown_at(
                    old(self).spec_clips(),
                    old(self).spec_direction(),
                    old(self).spec_position() + n,
                )
                &&& final(self).spec_position() == old(self).spec_position() + n + 1
            },
            old(self).spec_position() + n > old(self).spec_positions() ==> {
                &&& frame is None
                &&& final(self).spec_position() == old(self).spec_positions() + 1
            },
    {
        proof {
            use_type_invariant(&*self);
        }
        let positions = self.positions();
        if self.position > positions || n > positions - self.position {
            self.position = positions + 1;
            None
        } else {
            self.position += n;
            self.next()
        }
    }

    /// The number of frames that the sequence has left.
    pub fn count(self) -> (count: usize)
        ensures
            count == self.spec_positions() + 1 - self.spec_position(),
    {
        proof {
            use_type_invariant(&self);
        }
        self.clips.len() * 8 + 1 - self.position
    }
}

/// At position `8 * k` a sequence over the clips of a scroll shows frame `k`
/// of the scroll, whatever the direction.
pub proof fn lemma_shown_at_frame(frames: Seq<PixelFrame>, direction: FrameDirection, k: int)
    requires
        frames.len() >= 2,
        0 <= k < frames.len(),
    ensures
        shown_at(clips_of(frames), direction, 8 * k) == frames[k]@,
{
    let clips = clips_of(frames);
    if k < frames.len() - 1 {
        assert((8 * k) / 8 == k && (8 * k) % 8 == 0);
        crate::frame::lemma_slid_by_none(clips[k].first@, clips[k].second@);
    }
}

/// A type representing a collection of `PixelFrame`s that may be scrolled.
#[derive(Debug, PartialEq)]
pub struct Scroll(Vec<PixelFrame>);

impl View for Scroll {
    type V = Seq<PixelFrame>;

    closed spec fn view(&self) -> Seq<PixelFrame> {
        self.0@
    }
}

impl Scroll {
    #[verifier::type_invariant]
    spec fn well_formed(&self) -> bool {
        &&& self.0@.len() >= 2
        &&& self.0@.len() * 8 <= usize::MAX
    }

    /// Creates a new scroll from a slice of `PixelFrame`s.
    ///
    /// The scroll needs at least 2 frames to be created.
    pub fn new(frames: &[PixelFrame]) -> (scroll: Self)
        requires
            frames@.len() > 1,
            frames@.len() * 8 <= usize::MAX,
        ensures
            scroll@ == frames@,
    {
        Scroll(slice_to_vec(frames))
    }

    /// The frames of the scroll, in order.
    pub fn frames(&self) -> (frames: &[PixelFrame])
        ensures
            frames@ == self@,
    {
        self.0.as_slice()
    }

    /// The clips between neighbouring frames, in order.
    pub fn clips(&self) -> (clips: Vec<FrameClip>)
        ensures
            clips@ == clips_of(self@),
    {
        proof {
            use_type_invariant(self);
        }
        let mut clips: Vec<FrameClip> = Vec::new();
        let mut index: usize = 1;
        while index < self.0.len()
            invariant
                1 <= index <= self.0@.len(),
                clips@.len() == index - 1,
                forall|i: int| 0 <= i < index - 1 ==> (#[trigger] clips@[i]) == clips_of(self@)[i],
            decreases self.0@.len() - index,
        {
            let base_frame = &self.0[index - 1];
            let next = &self.0[index];
            clips.push(base_frame.clip(next));
            index += 1;
        }
        assert(clips@ =~= clips_of(self@));
        clips
    }

    /// Reverse the order of the frames.
    pub fn reverse(&mut self)
        ensures
            final(self)@ == old(self)@.reverse(),
    {
        proof {
            use_type_invariant(&*self);
        }
        let count = self.0.len();
        let mut reversed: Vec<PixelFrame> = Vec::new();
        let mut index: usize = count;
        while index > 0
            invariant
                count == self.0@.len(),
                index <= count,
                reversed@.len() == count - index,
                forall|i: int|
                    0 <= i < count - index ==> (#[trigger] reversed@[i]) == self.0@[count - 1 - i],
            decreases index,
        {
            index -= 1;
            reversed.push(self.0[index]);
        }
        assert(reversed@ =~= self.0@.reverse());
        self.0 = reversed;
    }

    /// The number of frames.
    pub fn len(&self) -> (count: usize)
        ensures
            count == self@.len(),
            count >= 2,
            count * 8 <= usize::MAX,
    {
        proof {
            use_type_invariant(self);
        }
        self.0.len()
    }

    /// The frames moving from right to left.
    pub fn right_to_left(&self) -> (sequence: FrameSequence)
        ensures
            sequence.spec_clips() == clips_of(self@),
            sequence.spec_direction() == FrameDirection::RightToLeft,
            sequence.spec_position() == 0,
    {
        FrameSequence::new(self, FrameDirection::RightToLeft)
    }

    /// The frames moving from left to right.
    pub fn left_to_right(&self) -> (sequence: FrameSequence)
        ensures
            sequence.spec_clips() == clips_of(self@),
            sequence.spec_direction() == FrameDirection::LeftToRight,
            sequence.spec_position() == 0,
    {
        FrameSequence::new(self, FrameDirection::LeftToRight)
    }

    /// The frames moving from top to bottom.
    pub fn top_to_bottom(&self) -> (sequence: FrameSequence)
        ensures
            sequence.spec_clips() == clips_of(self@),
            sequence.spec_direction() == FrameDirection::TopToBottom,
            sequence.spec_position() == 0,
    {
        FrameSequence::new(self, FrameDirection::TopToBottom)
    }

    /// The frames moving from bottom to top.
    pub fn bottom_to_top(&self) -> (sequence: FrameSequence)
        ensures
            sequence.spec_clips() == clips_of(self@),
            sequence.spec_direction() == FrameDirection::BottomToTop,
            sequence.spec_position() == 0,
    {
        FrameSequence::new(self, FrameDirection::BottomToTop)
    }
}

impl std::ops::Index<usize> for Scroll {
    type Output = PixelFrame;

    fn index(&self, index: usize) -> (frame: &PixelFrame)
        ensures
            *frame == self@[index as int],
    {
        &self.0[index]
    }
}

impl vstd::std_specs::core::IndexSpecImpl<usize> for Scroll {
    open spec fn index_req(&self, index: &usize) -> bool {
        *index < self@.len()
    }
}

} // verus!
