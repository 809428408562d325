//! What clips and offsets show, cell by cell.
use sensehat_screen::frame::{
    clip_pixel_frames_offset_bottom, clip_pixel_frames_offset_left,
    clip_pixel_frames_offset_right, clip_pixel_frames_offset_top,
};
use sensehat_screen::{FrameClip, Offset, PixelColor, PixelFrame};

/// A frame in which every cell differs: cell `i` has red `base + i`.
fn numbered_from(base: u8) -> PixelFrame {
    let mut cells = [PixelColor::black(); 64];
    for (i, cell) in cells.iter_mut().enumerate() {
        *cell = PixelColor::new(base + i as u8, 0, 0);
    }
    PixelFrame(cells)
}

#[test]
fn black_and_blue_clip_offset_by_two_columns() {
    let a = PixelFrame::black();
    let b = PixelFrame::blue();
    let clip = a.clip(&b);

    let columns = clip.offset(Offset::left(2)).as_columns();
    for column in &columns[..6] {
        assert_eq!(*column, [PixelColor::black(); 8]);
    }
    for column in &columns[6..] {
        assert_eq!(*column, [PixelColor::blue(); 8]);
    }

    let columns = clip.offset(Offset::right(2)).as_columns();
    for column in &columns[..2] {
        assert_eq!(*column, [PixelColor::blue(); 8]);
    }
    for column in &columns[2..] {
        assert_eq!(*column, [PixelColor::black(); 8]);
    }

    let rows = clip.offset(Offset::top(7)).as_rows();
    assert_eq!(rows[0], [PixelColor::black(); 8]);
    for row in &rows[1..] {
        assert_eq!(*row, [PixelColor::blue(); 8]);
    }

    let rows = clip.offset(Offset::bottom(2)).as_rows();
    for row in &rows[..2] {
        assert_eq!(*row, [PixelColor::blue(); 8]);
    }
    for row in &rows[2..] {
        assert_eq!(*row, [PixelColor::black(); 8]);
    }
}

#[test]
fn offsets_of_none_and_of_all_show_the_first_and_the_second_frame() {
    let a = numbered_from(0);
    let b = numbered_from(100);
    let clip = FrameClip::new(a, b);
    assert_eq!(clip.offset(Offset::left(0)), a);
    assert_eq!(clip.offset(Offset::left(8)), b);
    assert_eq!(clip.offset(Offset::right(0)), a);
    assert_eq!(clip.offset(Offset::right(8)), b);
    assert_eq!(clip.offset(Offset::top(0)), a);
    assert_eq!(clip.offset(Offset::top(8)), b);
    assert_eq!(clip.offset(Offset::bottom(0)), a);
    assert_eq!(clip.offset(Offset::bottom(8)), b);
    assert_eq!(a.offset(Offset::left(8)), PixelFrame::black());
    assert_eq!(a.offset(Offset::bottom(0)), a);
}

#[test]
fn every_offset_takes_each_cell_from_where_it_should() {
    let a = numbered_from(0);
    let b = numbered_from(100);
    let clip = a.clip(&b);
    for n in 0..=8usize {
        let left = clip.offset(Offset::left(n as u8));
        let right = clip.offset(Offset::right(n as u8));
        let top = clip.offset(Offset::top(n as u8));
        let bottom = clip.offset(Offset::bottom(n as u8));
        for r in 0..8usize {
            for c in 0..8usize {
                let i = r * 8 + c;
                let expected = if c + n < 8 { a.0[r * 8 + c + n] } else { b.0[r * 8 + c + n - 8] };
                assert_eq!(left.0[i], expected);
                let expected = if c < n { b.0[r * 8 + 8 - n + c] } else { a.0[r * 8 + c - n] };
                assert_eq!(right.0[i], expected);
                let expected = if r + n < 8 { a.0[(r + n) * 8 + c] } else { b.0[(r + n - 8) * 8 + c] };
                assert_eq!(top.0[i], expected);
                let expected = if r < n { b.0[(8 - n + r) * 8 + c] } else { a.0[(r - n) * 8 + c] };
                assert_eq!(bottom.0[i], expected);
            }
        }
    }
}

#[test]
fn an_offset_to_the_right_mirrors_one_to_the_left_of_the_reversed_clip() {
    let a = numbered_from(0);
    let b = numbered_from(100);
    let clip = a.clip(&b);
    let reversed = clip.reverse();
    assert_eq!(reversed.first, b);
    assert_eq!(reversed.second, a);
    for n in 0..=8u8 {
        assert_eq!(clip.offset(Offset::right(n)), reversed.offset(Offset::left(8 - n)));
        assert_eq!(clip.offset(Offset::bottom(n)), reversed.offset(Offset::top(8 - n)));
        assert_eq!(clip.offset(Offset::left(n)), reversed.offset(Offset::right(8 - n)));
        assert_eq!(clip.offset(Offset::top(n)), reversed.offset(Offset::bottom(8 - n)));
    }
}

#[test]
fn clips_offsets_and_plain_functions_agree() {
    let a = numbered_from(0);
    let b = numbered_from(100);
    let clip = a.clip(&b);
    let black = PixelFrame::black();
    for n in 0..=8u8 {
        assert_eq!(clip.offset_left(n), clip_pixel_frames_offset_left(a, b, n));
        assert_eq!(clip.offset_right(n), clip_pixel_frames_offset_right(a, b, n));
        assert_eq!(clip.offset_top(n), clip_pixel_frames_offset_top(a, b, n));
        assert_eq!(clip.offset_bottom(n), clip_pixel_frames_offset_bottom(a, b, n));
        assert_eq!(clip.offset(Offset::Left(n)), clip.offset_left(n));
        assert_eq!(clip.offset(Offset::Right(n)), clip.offset_right(n));
        assert_eq!(clip.offset(Offset::Top(n)), clip.offset_top(n));
        assert_eq!(clip.offset(Offset::Bottom(n)), clip.offset_bottom(n));
        assert_eq!(a.offset_left(n), a.clip(&black).offset_left(n));
        assert_eq!(a.offset_right(n), a.clip(&black).offset_right(n));
        assert_eq!(a.offset_top(n), a.clip(&black).offset_top(n));
        assert_eq!(a.offset_bottom(n), a.clip(&black).offset_bottom(n));
        assert_eq!(a.offset(Offset::Left(n)), a.offset_left(n));
        assert_eq!(a.offset(Offset::Right(n)), a.offset_right(n));
        assert_eq!(a.offset(Offset::Top(n)), a.offset_top(n));
        assert_eq!(a.offset(Offset::Bottom(n)), a.offset_bottom(n));
    }
}

#[test]
fn offsets_know_their_range() {
    for n in 0..=8u8 {
        assert_eq!(Offset::left(n), Offset::Left(n));
        assert_eq!(Offset::right(n), Offset::Right(n));
        assert_eq!(Offset::top(n), Offset::Top(n));
        assert_eq!(Offset::bottom(n), Offset::Bottom(n));
        assert!(Offset::Left(n).is_in_range());
        assert!(Offset::Bottom(n).is_in_range());
    }
    assert!(!Offset::Left(9).is_in_range());
    assert!(!Offset::Right(9).is_in_range());
    assert!(!Offset::Top(200).is_in_range());
    assert!(!Offset::Bottom(255).is_in_range());
}
