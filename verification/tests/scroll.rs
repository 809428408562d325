//! Scrolls of frames and the sequences of frames that they show.
use sensehat_screen::fonts::FontCollection;
use sensehat_screen::scroll::{FrameDirection, FrameSequence, Scroll};
use sensehat_screen::{Offset, PixelColor, PixelFrame};

fn scroll_one() -> Vec<PixelFrame> {
    vec![PixelFrame::black(), PixelFrame::red()]
}

fn scroll_two() -> Vec<PixelFrame> {
    vec![PixelFrame::black(), PixelFrame::red(), PixelFrame::yellow()]
}

// Helper function to generate a PixelFrame out of a utf16-encoded symbol,
// a stroke color, and a background color.
fn font_pixel_frames(s: &str, stroke: PixelColor, background: PixelColor) -> Vec<PixelFrame> {
    let fonts = FontCollection::new();
    let fstring = fonts.sanitize_str(s).unwrap();
    fstring.pixel_frames(stroke, background)
}

fn assert_starts(sequence: &FrameSequence, frames: &[PixelFrame], direction: FrameDirection) {
    let clips: Vec<_> = frames.windows(2).map(|pair| pair[0].clip(&pair[1])).collect();
    assert_eq!(sequence.clips(), &clips);
    assert_eq!(sequence.direction(), direction);
    assert_eq!(sequence.position(), 0);
}

#[test]
fn scroll_is_created_from_slice_of_at_least_2_pixel_frames() {
    let scroll = Scroll::new(&scroll_one());
    assert_eq!(scroll.frames(), &scroll_one()[..]);
    assert_eq!(scroll, Scroll::new(&[PixelFrame::black(), PixelFrame::red()]));
}

#[test]
fn scroll_has_clips_method_returns_slice_of_clips() {
    let blk = PixelFrame::black();
    let red = PixelFrame::red();
    let ylw = PixelFrame::yellow();
    let scroll = Scroll::new(&scroll_one());
    let expected_clips = vec![blk.clip(&red)];
    assert_eq!(scroll.clips(), expected_clips);

    let scroll = Scroll::new(&scroll_two());
    let expected_clips = vec![blk.clip(&red), red.clip(&ylw)];
    assert_eq!(scroll.clips(), expected_clips);
}

#[test]
fn scroll_has_frames_method_returns_slice_of_pixel_frames() {
    let scroll = Scroll::new(&scroll_one());
    assert_eq!(scroll.frames(), &scroll_one()[..]);
}

#[test]
fn scroll_has_reverse_method_returns_slice_of_pixel_frames() {
    let mut scroll = Scroll::new(&scroll_one());
    scroll.reverse();
    assert_eq!(scroll.frames(), &[PixelFrame::red(), PixelFrame::black()]);
}

#[test]
fn scroll_has_len_method_returns_the_number_of_pixel_frames() {
    let scroll = Scroll::new(&font_pixel_frames(
        "áàäeéìiöòó",
        PixelColor::white(),
        PixelColor::blue(),
    ));
    assert_eq!(scroll.len(), 10);
}

#[test]
fn scrolls_create_right_to_left_frame_sequence() {
    let scroll = Scroll::new(&scroll_one());
    let sequence = scroll.right_to_left();
    assert_starts(&sequence, &scroll_one(), FrameDirection::RightToLeft);
}

#[test]
fn scrolls_create_left_to_right_frame_sequence() {
    let scroll = Scroll::new(&scroll_one());
    let sequence = scroll.left_to_right();
    assert_starts(&sequence, &scroll_one(), FrameDirection::LeftToRight);
}

#[test]
fn scrolls_create_top_to_bottom_frame_sequence() {
    let scroll = Scroll::new(&scroll_one());
    let sequence = scroll.top_to_bottom();
    assert_starts(&sequence, &scroll_one(), FrameDirection::TopToBottom);
}

#[test]
fn scrolls_create_bottom_to_top_frame_sequence() {
    let scroll = Scroll::new(&scroll_one());
    let sequence = scroll.bottom_to_top();
    assert_starts(&sequence, &scroll_one(), FrameDirection::BottomToTop);
}

#[test]
fn scroll_implements_index_trait_with_pixel_frame_output() {
    let scroll = Scroll::new(&scroll_one());
    assert_eq!(scroll[0], PixelFrame::black());
    assert_eq!(scroll[1], PixelFrame::red());
}

#[test]
#[should_panic]
fn scroll_implements_index_trait_with_pixel_frame_output_panics_when_out_of_bounds() {
    let scroll = Scroll::new(&scroll_one());
    assert_eq!(scroll[4], PixelFrame::black());
}

#[test]
fn frame_sequence_positions_method_returns_calculated_positions_if_scroll_has_many_items() {
    let scroll = Scroll::new(&font_pixel_frames(
        "bas  bas  ",
        PixelColor::yellow(),
        PixelColor::black(),
    ));
    let sequence = scroll.left_to_right();
    assert_eq!(sequence.positions(), 72);
}

#[test]
fn frame_sequence_iterator_count_equals_number_of_positions_plus_one() {
    let scroll = Scroll::new(&font_pixel_frames(
        "bas",
        PixelColor::yellow(),
        PixelColor::black(),
    ));
    let seq = scroll.left_to_right();
    let positions_plus_one = seq.positions() + 1;
    assert_eq!(seq.count(), positions_plus_one);
}

#[test]
fn frame_sequence_implements_iterator_of_pixel_frames_left_to_right() {
    let scroll = Scroll::new(&font_pixel_frames(
        "bás",
        PixelColor::yellow(),
        PixelColor::black(),
    ));

    let mut seq = scroll.left_to_right();
    let first_frame = seq.nth(0).unwrap();
    assert_eq!(first_frame, scroll[0]);

    let mut seq = scroll.left_to_right();
    let nth_frame = seq.nth(1).unwrap();
    assert_eq!(nth_frame, scroll[0].clip(&scroll[1]).offset(Offset::right(1)));

    let mut seq = scroll.left_to_right();
    let nth_frame = seq.nth(2).unwrap();
    assert_eq!(nth_frame, scroll[0].clip(&scroll[1]).offset(Offset::right(2)));

    let mut seq = scroll.left_to_right();
    let nth_frame = seq.nth(3).unwrap();
    assert_eq!(nth_frame, scroll[0].clip(&scroll[1]).offset(Offset::right(3)));

    let mut seq = scroll.left_to_right();
    let nth_frame = seq.nth(4).unwrap();
    assert_eq!(nth_frame, scroll[0].clip(&scroll[1]).offset(Offset::right(4)));

    let mut seq = scroll.left_to_right();
    let nth_frame = seq.nth(5).unwrap();
    assert_eq!(nth_frame, scroll[0].clip(&scroll[1]).offset(Offset::right(5)));

    let mut seq = scroll.left_to_right();
    let nth_frame = seq.nth(6).unwrap();
    assert_eq!(nth_frame, scroll[0].clip(&scroll[1]).offset(Offset::right(6)));

    let mut seq = scroll.left_to_right();
    let nth_frame = seq.nth(7).unwrap();
    assert_eq!(nth_frame, scroll[0].clip(&scroll[1]).offset(Offset::right(7)));

    let mut seq = scroll.left_to_right();
    let eighth_frame = seq.nth(8).unwrap();
    assert_eq!(eighth_frame, scroll[1]);

    let mut seq = scroll.left_to_right();
    let nth_frame = seq.nth(9).unwrap();
    assert_eq!(nth_frame, scroll[1].clip(&scroll[2]).offset(Offset::right(1)));

    let mut seq = scroll.left_to_right();
    let nth_frame = seq.nth(10).unwrap();
    assert_eq!(nth_frame, scroll[1].clip(&scroll[2]).offset(Offset::right(2)));

    let mut seq = scroll.left_to_right();
    let nth_frame = seq.nth(11).unwrap();
    assert_eq!(nth_frame, scroll[1].clip(&scroll[2]).offset(Offset::right(3)));

    let mut seq = scroll.left_to_right();
    let nth_frame = seq.nth(12).unwrap();
    assert_eq!(nth_frame, scroll[1].clip(&scroll[2]).offset(Offset::right(4)));

    let mut seq = scroll.left_to_right();
    let twelfth_frame = seq.nth(13).unwrap();
    assert_eq!(twelfth_frame, scroll[1].clip(&scroll[2]).offset(Offset::right(5)));

    let mut seq = scroll.left_to_right();
    let nth_frame = seq.nth(14).unwrap();
    assert_eq!(nth_frame, scroll[1].clip(&scroll[2]).offset(Offset::right(6)));

    let mut seq = scroll.left_to_right();
    let nth_frame = seq.nth(15).unwrap();
    assert_eq!(nth_frame, scroll[1].clip(&scroll[2]).offset(Offset::right(7)));

    let mut seq = scroll.left_to_right();
    let last_frame = seq.nth(16).unwrap();
    assert_eq!(last_frame, scroll[2]);
}

#[test]
fn frame_sequence_implements_iterator_of_pixel_frames_right_to_left() {
    let scroll = Scroll::new(&font_pixel_frames(
        "áàä",
        PixelColor::white(),
        PixelColor::blue(),
    ));

    let mut seq = scroll.right_to_left();
    let first_frame = seq.nth(0).unwrap();
    assert_eq!(first_frame, scroll[0]);

    let mut seq = scroll.right_to_left();
    let nth_frame = seq.nth(1).unwrap();
    assert_eq!(nth_frame, scroll[0].clip(&scroll[1]).offset(Offset::left(1)));

    let mut seq = scroll.right_to_left();
    let nth_frame = seq.nth(2).unwrap();
    assert_eq!(nth_frame, scroll[0].clip(&scroll[1]).offset(Offset::left(2)));

    let mut seq = scroll.right_to_left();
    let nth_frame = seq.nth(3).unwrap();
    assert_eq!(nth_frame, scroll[0].clip(&scroll[1]).offset(Offset::left(3)));

    let mut seq = scroll.right_to_left();
    let nth_frame = seq.nth(4).unwrap();
    assert_eq!(nth_frame, scroll[0].clip(&scroll[1]).offset(Offset::left(4)));

    let mut seq = scroll.right_to_left();
    let nth_frame = seq.nth(5).unwrap();
    assert_eq!(nth_frame, scroll[0].clip(&scroll[1]).offset(Offset::left(5)));

    let mut seq = scroll.right_to_left();
    let nth_frame = seq.nth(6).unwrap();
    assert_eq!(nth_frame, scroll[0].clip(&scroll[1]).offset(Offset::left(6)));

    let mut seq = scroll.right_to_left();
    let nth_frame = seq.nth(7).unwrap();
    assert_eq!(nth_frame, scroll[0].clip(&scroll[1]).offset(Offset::left(7)));

    let mut seq = scroll.right_to_left();
    let eighth_frame = seq.nth(8).unwrap();
    assert_eq!(eighth_frame, scroll[1]);

    let mut seq = scroll.right_to_left();
    let nth_frame = seq.nth(9).unwrap();
    assert_eq!(nth_frame, scroll[1].clip(&scroll[2]).offset(Offset::left(1)));

    let mut seq = scroll.right_to_left();
    let nth_frame = seq.nth(10).unwrap();
    assert_eq!(nth_frame, scroll[1].clip(&scroll[2]).offset(Offset::left(2)));

    let mut seq = scroll.right_to_left();
    let nth_frame = seq.nth(11).unwrap();
    assert_eq!(nth_frame, scroll[1].clip(&scroll[2]).offset(Offset::left(3)));

    let mut seq = scroll.right_to_left();
    let nth_frame = seq.nth(12).unwrap();
    assert_eq!(nth_frame, scroll[1].clip(&scroll[2]).offset(Offset::left(4)));

    let mut seq = scroll.right_to_left();
    let twelfth_frame = seq.nth(13).unwrap();
    assert_eq!(twelfth_frame, scroll[1].clip(&scroll[2]).offset(Offset::left(5)));

    let mut seq = scroll.right_to_left();
    let nth_frame = seq.nth(14).unwrap();
    assert_eq!(nth_frame, scroll[1].clip(&scroll[2]).offset(Offset::left(6)));

    let mut seq = scroll.right_to_left();
    let nth_frame = seq.nth(15).unwrap();
    assert_eq!(nth_frame, scroll[1].clip(&scroll[2]).offset(Offset::left(7)));

    let mut seq = scroll.right_to_left();
    let last_frame = seq.nth(16).unwrap();
    assert_eq!(last_frame, scroll[2]);
}

#[test]
fn frame_sequences_run_through_every_position_once() {
    let frames = scroll_two();
    let scroll = Scroll::new(&frames);
    let directions = [
        (FrameDirection::RightToLeft, Offset::Left(0)),
        (FrameDirection::LeftToRight, Offset::Right(0)),
        (FrameDirection::TopToBottom, Offset::Bottom(0)),
        (FrameDirection::BottomToTop, Offset::Top(0)),
    ];
    for (direction, kind) in directions {
        let mut seq = match direction {
            FrameDirection::RightToLeft => scroll.right_to_left(),
            FrameDirection::LeftToRight => scroll.left_to_right(),
            FrameDirection::TopToBottom => scroll.top_to_bottom(),
            FrameDirection::BottomToTop => scroll.bottom_to_top(),
        };
        assert_eq!(seq.positions(), 16);
        for position in 0..=16usize {
            assert_eq!(seq.position(), position);
            let frame = seq.next().unwrap();
            let n = (position % 8) as u8;
            let offset = match kind {
                Offset::Left(_) => Offset::Left(n),
                Offset::Right(_) => Offset::Right(n),
                Offset::Bottom(_) => Offset::Bottom(n),
                Offset::Top(_) => Offset::Top(n),
            };
            assert_eq!(direction.offset(n), offset);
            let expected = if position == 16 {
                frames[2]
            } else {
                frames[position / 8].clip(&frames[position / 8 + 1]).offset(offset)
            };
            assert_eq!(frame, expected);
            if position % 8 == 0 {
                assert_eq!(frame, frames[position / 8]);
            }
        }
        assert_eq!(seq.position(), 17);
        assert_eq!(seq.next(), None);
        assert_eq!(seq.position(), 17);
        assert_eq!(seq.nth(0), None);
        assert_eq!(seq.count(), 0);
    }
}

#[test]
fn nth_passes_over_frames_and_count_tells_what_is_left() {
    let scroll = Scroll::new(&scroll_two());
    let mut seq = scroll.left_to_right();
    assert_eq!(seq.nth(3).unwrap(), scroll[0].clip(&scroll[1]).offset(Offset::right(3)));
    assert_eq!(seq.position(), 4);
    assert_eq!(seq.nth(3).unwrap(), scroll[0].clip(&scroll[1]).offset(Offset::right(7)));
    assert_eq!(seq.position(), 8);
    assert_eq!(seq.next().unwrap(), scroll[1]);
    assert_eq!(seq.nth(8), None);
    assert_eq!(seq.position(), 17);

    let mut seq = scroll.left_to_right();
    assert_eq!(seq.nth(17), None);
    assert_eq!(seq.position(), 17);
    let mut seq = scroll.left_to_right();
    assert_eq!(seq.nth(usize::MAX), None);
    assert_eq!(seq.count(), 0);

    let mut seq = scroll.top_to_bottom();
    assert_eq!(seq.nth(4).unwrap(), scroll[0].clip(&scroll[1]).offset(Offset::bottom(4)));
    assert_eq!(seq.count(), 12);
}

#[test]
fn scrolls_reverse_and_count_their_frames() {
    let mut scroll = Scroll::new(&scroll_two());
    assert_eq!(scroll.len(), 3);
    scroll.reverse();
    assert_eq!(
        scroll.frames(),
        &[PixelFrame::yellow(), PixelFrame::red(), PixelFrame::black()]
    );
    assert_eq!(scroll.len(), 3);
    assert_eq!(scroll.clips().len(), 2);
    assert_eq!(scroll[0], PixelFrame::yellow());
}
