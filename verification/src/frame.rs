//! Frames for the LED matrix: 64 colours in row-major order, 8 rows of 8.
use crate::color::{wire_bytes, wire_word, ByteOrder, PixelColor, Rgb565};
use vstd::prelude::*;
use vstd::std_specs::cmp::PartialEqSpecImpl;
use vstd::std_specs::convert::FromSpecImpl;

pub mod clip;
pub mod offset;
pub mod rotate;

pub use self::offset::Offset;

verus! {

/// The cells of a frame with rows and columns exchanged: cell `(r, c)` of the
/// result is cell `(c, r)` of `cells`.
pub open spec fn transposed(cells: Seq<PixelColor>) -> Seq<PixelColor> {
    Seq::new(64, |i: int| cells[(i % 8) * 8 + i / 8])
}

/// The cells of a frame with each row reversed: cell `(r, c)` of the result
/// is cell `(r, 7 - c)` of `cells`.
pub open spec fn flipped_h(cells: Seq<PixelColor>) -> Seq<PixelColor> {
    Seq::new(64, |i: int| cells[(i / 8) * 8 + (7 - i % 8)])
}

/// The cells of a frame with the order of its rows reversed: cell `(r, c)` of
/// the result is cell `(7 - r, c)` of `cells`.
pub open spec fn flipped_v(cells: Seq<PixelColor>) -> Seq<PixelColor> {
    Seq::new(64, |i: int| cells[(7 - i / 8) * 8 + i % 8])
}

/// The cells of a frame in reverse order.
pub open spec fn reversed(cells: Seq<PixelColor>) -> Seq<PixelColor> {
    Seq::new(64, |i: int| cells[63 - i])
}

/// The 8 rows of a frame, top to bottom, each left to right.
pub open spec fn rows_of(cells: Seq<PixelColor>) -> Seq<Seq<PixelColor>> {
    Seq::new(8, |r: int| Seq::new(8, |c: int| cells[r * 8 + c]))
}

/// The 8 columns of a frame, left to right, each top to bottom.
pub open spec fn columns_of(cells: Seq<PixelColor>) -> Seq<Seq<PixelColor>> {
    Seq::new(8, |c: int| Seq::new(8, |r: int| cells[r * 8 + c]))
}

/// The cells of the frame with the given 8 rows.
pub open spec fn cells_from_rows(rows: Seq<Seq<PixelColor>>) -> Seq<PixelColor> {
    Seq::new(64, |i: int| rows[i / 8][i % 8])
}

/// The cells of the frame with the given 8 columns.
pub open spec fn cells_from_columns(columns: Seq<Seq<PixelColor>>) -> Seq<PixelColor> {
    Seq::new(64, |i: int| columns[i % 8][i / 8])
}

/// An array of 8 vectors of 8 colours as a sequence of sequences.
pub open spec fn grid_view(grid: [[PixelColor; 8]; 8]) -> Seq<Seq<PixelColor>> {
    Seq::new(8, |i: int| grid@[i]@)
}

/// A frame of pixels. This is the basic representation for the LED matrix
/// display.
#[derive(Copy, Clone, Debug)]
pub struct PixelFrame(pub [PixelColor; 64]);

impl View for PixelFrame {
    type V = Seq<PixelColor>;

    open spec fn view(&self) -> Seq<PixelColor> {
        self.0@
    }
}

impl PartialEq for PixelFrame {
    fn eq(&self, other: &PixelFrame) -> (r: bool) {
        let mut same = true;
        let mut i: usize = 0;
        while i < 64
            invariant
                i <= 64,
                same <==> forall|k: int| 0 <= k < i ==> self.0@[k] == other.0@[k],
            decreases 64 - i,
        {
            if self.0[i] != other.0[i] {
                same = false;
            }
            i += 1;
        }
        assert(same <==> self.0@ =~= other.0@);
        same
    }
}

impl PartialEqSpecImpl for PixelFrame {
    open spec fn obeys_eq_spec() -> bool {
        true
    }

    open spec fn eq_spec(&self, other: &PixelFrame) -> bool {
        self@ == other@
    }
}

impl PixelFrame {
    /// Create a frame from its 64 cells.
    pub fn new(pixels: &[PixelColor; 64]) -> (frame: Self)
        ensures
            frame == PixelFrame(*pixels),
            frame@ == pixels@,
    {
        PixelFrame(*pixels)
    }

    /// Transpose the LED matrix. Rows become columns.
    pub fn transpose(&mut self)
        ensures
            final(self)@ == transposed(old(self)@),
    {
        let mut row: usize = 0;
        while row < 8
            invariant
                row <= 8,
                forall|r: int, c: int|
                    0 <= r < 8 && 0 <= c < 8 ==> #[trigger] self.0@[r * 8 + c] == (if r < row || c
                        < row {
                        old(self).0@[c * 8 + r]
                    } else {
                        old(self).0@[r * 8 + c]
                    }),
            decreases 8 - row,
        {
            let mut col: usize = row;
            while col < 8
                invariant
                    row < 8,
                    row <= col <= 8,
                    forall|r: int, c: int|
                        0 <= r < 8 && 0 <= c < 8 ==> #[trigger] self.0@[r * 8 + c] == (if r < row
                            || c < row || (r == row && c < col) || (c == row && r < col) {
                            old(self).0@[c * 8 + r]
                        } else {
                            old(self).0@[r * 8 + c]
                        }),
                decreases 8 - col,
            {
                let idx = row * 8 + col;
                let idx_transpose = col * 8 + row;
                let a = self.0[idx];
                let b = self.0[idx_transpose];
                self.0[idx] = b;
                self.0[idx_transpose] = a;
                col += 1;
            }
            row += 1;
        }
        assert forall|i: int| 0 <= i < 64 implies self@[i] == transposed(old(self)@)[i] by {
            let r = i / 8;
            let c = i % 8;
            assert(self.0@[r * 8 + c] == old(self).0@[c * 8 + r]);
        }
        assert(self@ =~= transposed(old(self)@));
    }

    /// Returns the 8 rows of the frame, from top to bottom.
    pub fn as_rows(&self) -> (rows: [[PixelColor; 8]; 8])
        ensures
            grid_view(rows) == rows_of(self@),
    {
        let blank = PixelColor::black();
        let mut rows: [[PixelColor; 8]; 8] = [[blank; 8]; 8];
        let mut r: usize = 0;
        while r < 8
            invariant
                r <= 8,
                forall|i: int, j: int|
                    0 <= i < r && 0 <= j < 8 ==> (#[trigger] rows@[i]@[j]) == self@[i * 8 + j],
            decreases 8 - r,
        {
            let mut row: [PixelColor; 8] = [blank; 8];
            let mut c: usize = 0;
            while c < 8
                invariant
                    r < 8,
                    c <= 8,
                    forall|j: int| 0 <= j < c ==> (#[trigger] row@[j]) == self@[r * 8 + j],
                decreases 8 - c,
            {
                row[c] = self.0[r * 8 + c];
                c += 1;
            }
            rows[r] = row;
            r += 1;
        }
        assert(grid_view(rows) =~~= rows_of(self@));
        rows
    }

    /// Returns the 8 columns of the frame, from left to right.
    pub fn as_columns(&self) -> (columns: [[PixelColor; 8]; 8])
        ensures
            grid_view(columns) == columns_of(self@),
    {
        let mut pixels = *self;
        pixels.transpose();
        let columns = pixels.as_rows();
        assert(rows_of(transposed(self@)) =~~= columns_of(self@));
        columns
    }

    /// Create a frame from 8 rows of 8 colours each.
    pub fn from_rows(rows: &[[PixelColor; 8]; 8]) -> (frame: Self)
        ensures
            frame@ == cells_from_rows(grid_view(*rows)),
    {
        let mut pixels: [PixelColor; 64] = [PixelColor::black(); 64];
        let mut row_idx: usize = 0;
        while row_idx < 8
            invariant
                row_idx <= 8,
                forall|r: int, c: int|
                    0 <= r < row_idx && 0 <= c < 8 ==> (#[trigger] pixels@[r * 8 + c])
                        == rows@[r]@[c],
            decreases 8 - row_idx,
        {
            let mut col_idx: usize = 0;
            while col_idx < 8
                invariant
                    row_idx < 8,
                    col_idx <= 8,
                    forall|r: int, c: int|
                        0 <= r < 8 && 0 <= c < 8 && (r < row_idx || (r == row_idx && c < col_idx))
                            ==> (#[trigger] pixels@[r * 8 + c]) == rows@[r]@[c],
                decreases 8 - col_idx,
            {
                pixels[row_idx * 8 + col_idx] = rows[row_idx][col_idx];
                col_idx += 1;
            }
            row_idx += 1;
        }
        assert forall|i: int| 0 <= i < 64 implies pixels@[i] == cells_from_rows(
            grid_view(*rows),
        )[i] by {
            let r = i / 8;
            let c = i % 8;
            assert(pixels@[r * 8 + c] == rows@[r]@[c]);
        }
        assert(pixels@ =~= cells_from_rows(grid_view(*rows)));
        PixelFrame(pixels)
    }

    /// Create a frame from 8 columns of 8 colours each.
    pub fn from_columns(columns: &[[PixelColor; 8]; 8]) -> (frame: Self)
        ensures
            frame@ == cells_from_columns(grid_view(*columns)),
    {
        let mut pixels: [PixelColor; 64] = [PixelColor::black(); 64];
        let mut col_idx: usize = 0;
        while col_idx < 8
            invariant
                col_idx <= 8,
                forall|r: int, c: int|
                    0 <= r < 8 && 0 <= c < col_idx ==> (#[trigger] pixels@[r * 8 + c])
                        == columns@[c]@[r],
            decreases 8 - col_idx,
        {
            let mut row_idx: usize = 0;
            while row_idx < 8
                invariant
                    col_idx < 8,
                    row_idx <= 8,
                    forall|r: int, c: int|
                        0 <= r < 8 && 0 <= c < 8 && (c < col_idx || (c == col_idx && r < row_idx))
                            ==> (#[trigger] pixels@[r * 8 + c]) == columns@[c]@[r],
                decreases 8 - row_idx,
            {
                pixels[row_idx * 8 + col_idx] = columns[col_idx][row_idx];
                row_idx += 1;
            }
            col_idx += 1;
        }
        assert forall|i: int| 0 <= i < 64 implies pixels@[i] == cells_from_columns(
            grid_view(*columns),
        )[i] by {
            let r = i / 8;
            let c = i % 8;
            assert(pixels@[r * 8 + c] == columns@[c]@[r]);
        }
        assert(pixels@ =~= cells_from_columns(grid_view(*columns)));
        PixelFrame(pixels)
    }

    /// Flip the LED matrix horizontally: each row is reversed in place.
    pub fn flip_h(&mut self)
        ensures
            final(self)@ == flipped_h(old(self)@),
    {
        let mut row: usize = 0;
        while row < 8
            invariant
                row <= 8,
                forall|r: int, c: int|
                    0 <= r < 8 && 0 <= c < 8 ==> #[trigger] self.0@[r * 8 + c] == (if r < row {
                        old(self).0@[r * 8 + (7 - c)]
                    } else {
                        old(self).0@[r * 8 + c]
                    }),
            decreases 8 - row,
        {
            let mut col: usize = 0;
            while col < 4
                invariant
                    row < 8,
                    col <= 4,
                    forall|r: int, c: int|
                        0 <= r < 8 && 0 <= c < 8 ==> #[trigger] self.0@[r * 8 + c] == (if r < row
                            || (r == row && (c < col || c > 7 - col)) {
                            old(self).0@[r * 8 + (7 - c)]
                        } else {
                            old(self).0@[r * 8 + c]
                        }),
                decreases 4 - col,
            {
                let left = row * 8 + col;
                let right = row * 8 + (7 - col);
                let a = self.0[left];
                let b = self.0[right];
                self.0[left] = b;
                self.0[right] = a;
                col += 1;
            }
            row += 1;
        }
        assert forall|i: int| 0 <= i < 64 implies self@[i] == flipped_h(old(self)@)[i] by {
            let r = i / 8;
            let c = i % 8;
            assert(self.0@[r * 8 + c] == old(self).0@[r * 8 + (7 - c)]);
        }
        assert(self@ =~= flipped_h(old(self)@));
    }

    /// Reverse the LED matrix: the 64 cells in opposite order.
    pub fn reverse(&mut self)
        ensures
            final(self)@ == reversed(old(self)@),
    {
        let mut i: usize = 0;
        while i < 32
            invariant
                i <= 32,
                forall|k: int|
                    0 <= k < 64 ==> #[trigger] self.0@[k] == (if k < i || k > 63 - i {
                        old(self).0@[63 - k]
                    } else {
                        old(self).0@[k]
                    }),
            decreases 32 - i,
        {
            let a = self.0[i];
            let b = self.0[63 - i];
            self.0[i] = b;
            self.0[63 - i] = a;
            i += 1;
        }
        assert(self@ =~= reversed(old(self)@));
    }

    /// Flip the LED matrix vertically: the order of the rows is reversed.
    pub fn flip_v(&mut self)
        ensures
            final(self)@ == flipped_v(old(self)@),
    {
        self.reverse();
        self.flip_h();
        proof {
            lemma_flip_v_is_reverse_then_flip_h(old(self)@);
        }
    }
}

/// Reversing the rows of a frame is the same as reversing all of its cells and
/// then reversing each row.
pub proof fn lemma_flip_v_is_reverse_then_flip_h(cells: Seq<PixelColor>)
    requires
        cells.len() == 64,
    ensures
        flipped_h(reversed(cells)) == flipped_v(cells),
{
    assert(flipped_h(reversed(cells)) =~= flipped_v(cells));
}

/// The RGB565 words of the 64 cells of a frame, in order.
pub open spec fn words_of(cells: Seq<PixelColor>) -> Seq<Rgb565> {
    Seq::new(64, |i: int| cells[i].word())
}

/// The 128 wire bytes of 64 RGB565 words: two bytes for each word, in order,
/// each pair in the given byte order.
pub open spec fn wire_frame(words: Seq<Rgb565>, order: ByteOrder) -> Seq<u8> {
    Seq::new(128, |k: int| wire_bytes(words[k / 2].0, order)[k % 2])
}

/// The 64 RGB565 words that 128 wire bytes stand for: one word for each pair
/// of bytes, in order, each pair read in the given byte order.
pub open spec fn words_of_wire(bytes: Seq<u8>, order: ByteOrder) -> Seq<Rgb565> {
    Seq::new(64, |i: int| Rgb565(wire_word(seq![bytes[2 * i], bytes[2 * i + 1]], order)))
}

/// The cells of a frame that shows one colour everywhere.
pub open spec fn solid(color: PixelColor) -> Seq<PixelColor> {
    Seq::new(64, |i: int| color)
}

/// A single frame on the screen, as the 64 RGB565 words that the device takes.
#[derive(Copy, Clone, Debug)]
pub struct FrameLine(pub [Rgb565; 64]);

impl View for FrameLine {
    type V = Seq<Rgb565>;

    open spec fn view(&self) -> Seq<Rgb565> {
        self.0@
    }
}

impl PartialEq for FrameLine {
    fn eq(&self, other: &FrameLine) -> (r: bool) {
        let mut same = true;
        let mut i: usize = 0;
        while i < 64
            invariant
                i <= 64,
                same <==> forall|k: int| 0 <= k < i ==> self.0@[k] == other.0@[k],
            decreases 64 - i,
        {
            if self.0[i] != other.0[i] {
                same = false;
            }
            i += 1;
        }
        assert(same <==> self.0@ =~= other.0@);
        same
    }
}

impl PartialEqSpecImpl for FrameLine {
    open spec fn obeys_eq_spec() -> bool {
        true
    }

    open spec fn eq_spec(&self, other: &FrameLine) -> bool {
        self@ == other@
    }
}

impl Default for FrameLine {
    fn default() -> (line: Self)
        ensures
            line@ == Seq::new(64, |i: int| Rgb565(0)),
    {
        FrameLine::new()
    }
}

impl FrameLine {
    /// A frame line of 64 zero words: every LED off.
    pub fn new() -> (line: Self)
        ensures
            line@ == Seq::new(64, |i: int| Rgb565(0)),
    {
        let line = FrameLine([Rgb565(0); 64]);
        assert(line@ =~= Seq::new(64, |i: int| Rgb565(0)));
        line
    }

    /// Create a new `FrameLine` instance, given 128 wire bytes in the given
    /// byte order.
    pub fn from_slice(bytes: &[u8; 128], order: ByteOrder) -> (line: Self)
        ensures
            line@ == words_of_wire(bytes@, order),
    {
        let mut colors: [Rgb565; 64] = [Rgb565(0); 64];
        let mut index: usize = 0;
        while index < 64
            invariant
                index <= 64,
                forall|i: int|
                    0 <= i < index ==> (#[trigger] colors@[i]) == words_of_wire(bytes@, order)[i],
            decreases 64 - index,
        {
            let chunk: [u8; 2] = [bytes[2 * index], bytes[2 * index + 1]];
            colors[index] = Rgb565::from_bytes(chunk, order);
            index += 1;
        }
        assert(colors@ =~= words_of_wire(bytes@, order));
        FrameLine(colors)
    }

    /// Create a new `FrameLine` instance, given 64 pixel colours.
    pub fn from_pixels(pixels: &[PixelColor; 64]) -> (line: Self)
        ensures
            line@ == words_of(pixels@),
    {
        let mut colors: [Rgb565; 64] = [Rgb565(0); 64];
        let mut index: usize = 0;
        while index < 64
            invariant
                index <= 64,
                forall|i: int| 0 <= i < index ==> (#[trigger] colors@[i]) == pixels@[i].word(),
            decreases 64 - index,
        {
            let px = pixels[index];
            colors[index] = Rgb565::from_rgb(px.red, px.green, px.blue);
            index += 1;
        }
        assert(colors@ =~= words_of(pixels@));
        FrameLine(colors)
    }

    /// Returns the `FrameLine` as 128 wire bytes in the given byte order.
    pub fn as_bytes(&self, order: ByteOrder) -> (bytes: [u8; 128])
        ensures
            bytes@ == wire_frame(self@, order),
    {
        let mut byte_array: [u8; 128] = [0u8; 128];
        let mut index: usize = 0;
        while index < 64
            invariant
                index <= 64,
                forall|k: int|
                    0 <= k < 2 * index ==> (#[trigger] byte_array@[k]) == wire_frame(
                        self@,
                        order,
                    )[k],
            decreases 64 - index,
        {
            let color = self.0[index].to_bytes(order);
            byte_array[index * 2] = color[0];
            byte_array[(index * 2) + 1] = color[1];
            index += 1;
        }
        assert(byte_array@ =~= wire_frame(self@, order));
        byte_array
    }
}

impl Default for PixelFrame {
    fn default() -> (frame: Self)
        ensures
            frame@ == solid(PixelColor { red: 0, green: 0, blue: 0 }),
    {
        PixelFrame::black()
    }
}

impl PixelFrame {
    /// A frame that shows the given colour in every cell.
    fn filled(color: PixelColor) -> (frame: Self)
        ensures
            frame@ == solid(color),
    {
        let frame = PixelFrame([color; 64]);
        assert(frame@ =~= solid(color));
        frame
    }

    /// Every cell black: all LEDs off.
    pub fn black() -> (frame: Self)
        ensures
            frame@ == solid(PixelColor { red: 0, green: 0, blue: 0 }),
    {
        PixelFrame::filled(PixelColor::black())
    }

    /// Every cell red.
    pub fn red() -> (frame: Self)
        ensures
            frame@ == solid(PixelColor { red: 0xFF, green: 0, blue: 0 }),
    {
        PixelFrame::filled(PixelColor::red())
    }

    /// Every cell blue.
    pub fn blue() -> (frame: Self)
        ensures
            frame@ == solid(PixelColor { red: 0, green: 0, blue: 0xFF }),
    {
        PixelFrame::filled(PixelColor::blue())
    }

    /// Every cell green.
    pub fn green() -> (frame: Self)
        ensures
            frame@ == solid(PixelColor { red: 0, green: 0xFF, blue: 0 }),
    {
        PixelFrame::filled(PixelColor::green())
    }

    /// Every cell white.
    pub fn white() -> (frame: Self)
        ensures
            frame@ == solid(PixelColor { red: 0xFF, green: 0xFF, blue: 0xFF }),
    {
        PixelFrame::filled(PixelColor::white())
    }

    /// Every cell yellow.
    pub fn yellow() -> (frame: Self)
        ensures
            frame@ == solid(PixelColor { red: 0xFF, green: 0xFF, blue: 0 }),
    {
        PixelFrame::filled(PixelColor::yellow())
    }

    /// Every cell cyan.
    pub fn cyan() -> (frame: Self)
        ensures
            frame@ == solid(PixelColor { red: 0, green: 0xFF, blue: 0xFF }),
    {
        PixelFrame::filled(PixelColor::cyan())
    }

    /// Every cell magenta.
    pub fn magenta() -> (frame: Self)
        ensures
            frame@ == solid(PixelColor { red: 0xFF, green: 0, blue: 0xFF }),
    {
        PixelFrame::filled(PixelColor::magenta())
    }

    /// Create a `FrameLine` representing the current `PixelFrame`.
    pub fn frame_line(&self) -> (line: FrameLine)
        ensures
            line@ == words_of(self@),
    {
        FrameLine::from_pixels(&self.0)
    }

    /// The 128 wire bytes of the frame: the RGB565 encoding of every cell, in
    /// row-major order, each in the given byte order.
    pub fn encode(&self, order: ByteOrder) -> (bytes: [u8; 128])
        ensures
            bytes@ == wire_frame(words_of(self@), order),
            bytes@.len() == 128,
            forall|i: int, j: int|
                0 <= i < 64 && 0 <= j < 2 ==> (#[trigger] bytes@[2 * i + j]) == self@[i].encoded(
                    order,
                )[j],
    {
        self.frame_line().as_bytes(order)
    }
}

/// Turning 64 words into wire bytes and reading them back, in the same byte
/// order, gives the words back.
pub proof fn lemma_words_of_wire_frame(words: Seq<Rgb565>, order: ByteOrder)
    requires
        words.len() == 64,
    ensures
        words_of_wire(wire_frame(words, order), order) == words,
{
    assert forall|i: int| 0 <= i < 64 implies words_of_wire(wire_frame(words, order), order)[i]
        == words[i] by {
        crate::color::lemma_wire_word_of_wire_bytes(words[i].0, order);
        assert((2 * i) / 2 == i && (2 * i) % 2 == 0);
        assert((2 * i + 1) / 2 == i && (2 * i + 1) % 2 == 1);
    }
    assert(words_of_wire(wire_frame(words, order), order) =~= words);
}

/// Reading 128 wire bytes as words and turning them into wire bytes again, in
/// the same byte order, gives the bytes back.
pub proof fn lemma_wire_frame_of_words(bytes: Seq<u8>, order: ByteOrder)
    requires
        bytes.len() == 128,
    ensures
        wire_frame(words_of_wire(bytes, order), order) == bytes,
{
    assert forall|k: int| 0 <= k < 128 implies wire_frame(words_of_wire(bytes, order), order)[k]
        == bytes[k] by {
        let i = k / 2;
        let pair = seq![bytes[2 * i], bytes[2 * i + 1]];
        crate::color::lemma_wire_bytes_of_wire_word(pair, order);
    }
    assert(wire_frame(words_of_wire(bytes, order), order) =~= bytes);
}

/// Whether `vectors` is 8 vectors of 8 colours each.
pub open spec fn is_grid(vectors: Seq<Seq<PixelColor>>) -> bool {
    vectors.len() == 8 && forall|i: int| 0 <= i < 8 ==> (#[trigger] vectors[i]).len() == 8
}

/// The frame that shows `first` moved `n` cells to the left, with `second`
/// coming in from the right: the columns `[n, 8)` of `first` followed by the
/// columns `[0, n)` of `second`.
pub open spec fn slid_left(first: Seq<PixelColor>, second: Seq<PixelColor>, n: int) -> Seq<
    PixelColor,
> {
    cells_from_columns(columns_of(first).subrange(n, 8) + columns_of(second).subrange(0, n))
}

/// The frame that shows `first` moved `n` cells to the right, with `second`
/// coming in from the left: the columns `[8 - n, 8)` of `second` followed by
/// the columns `[0, 8 - n)` of `first`.
pub open spec fn slid_right(first: Seq<PixelColor>, second: Seq<PixelColor>, n: int) -> Seq<
    PixelColor,
> {
    cells_from_columns(
        columns_of(second).subrange(8 - n, 8) + columns_of(first).subrange(0, 8 - n),
    )
}

/// The frame that shows `first` moved `n` cells to the top, with `second`
/// coming in from the bottom: the rows `[n, 8)` of `first` followed by the
/// rows `[0, n)` of `second`.
pub open spec fn slid_top(first: Seq<PixelColor>, second: Seq<PixelColor>, n: int) -> Seq<
    PixelColor,
> {
    cells_from_rows(rows_of(first).subrange(n, 8) + rows_of(second).subrange(0, n))
}

/// The frame that shows `first` moved `n` cells to the bottom, with `second`
/// coming in from the top: the rows `[8 - n, 8)` of `second` followed by the
/// rows `[0, 8 - n)` of `first`.
pub open spec fn slid_bottom(first: Seq<PixelColor>, second: Seq<PixelColor>, n: int) -> Seq<
    PixelColor,
> {
    cells_from_rows(rows_of(second).subrange(8 - n, 8) + rows_of(first).subrange(0, 8 - n))
}

/// The vectors `[split, 8)` of `head` followed by the vectors `[0, split)` of
/// `tail`.
fn splice(head: &[[PixelColor; 8]; 8], tail: &[[PixelColor; 8]; 8], split: usize) -> (joined: [[
    PixelColor; 8]; 8])
    requires
        split <= 8,
    ensures
        grid_view(joined) == grid_view(*head).subrange(split as int, 8) + grid_view(
            *tail,
        ).subrange(0, split as int),
{
    let mut joined: [[PixelColor; 8]; 8] = *head;
    let mut index: usize = 0;
    while index < 8
        invariant
            split <= 8,
            index <= 8,
            forall|i: int|
                0 <= i < index ==> (#[trigger] joined@[i]) == (if i < 8 - split {
                    head@[i + split]
                } else {
                    tail@[i - (8 - split)]
                }),
        decreases 8 - index,
    {
        if index < 8 - split {
            joined[index] = head[index + split];
        } else {
            joined[index] = tail[index - (8 - split)];
        }
        index += 1;
    }
    assert(grid_view(joined) =~= grid_view(*head).subrange(split as int, 8) + grid_view(
        *tail,
    ).subrange(0, split as int));
    joined
}

/// The frame that shows `first` moved `offset` cells to the left, with
/// `second` coming in from the right.
pub fn clip_pixel_frames_offset_left(first: PixelFrame, second: PixelFrame, offset: u8) -> (frame:
    PixelFrame)
    requires
        offset <= 8,
    ensures
        frame@ == slid_left(first@, second@, offset as int),
{
    proof {
        lemma_slid_by_none(first@, second@);
        lemma_slid_by_all(first@, second@);
    }
    match offset {
        0 => first,
        8 => second,
        n => {
            let orig = first.as_columns();
            let second = second.as_columns();
            let columns = splice(&orig, &second, n as usize);
            PixelFrame::from_columns(&columns)
        },
    }
}

/// The frame that shows `first` moved `offset` cells to the right, with
/// `second` coming in from the left.
pub fn clip_pixel_frames_offset_right(first: PixelFrame, second: PixelFrame, offset: u8) -> (frame:
    PixelFrame)
    requires
        offset <= 8,
    ensures
        frame@ == slid_right(first@, second@, offset as int),
{
    proof {
        lemma_slid_by_none(first@, second@);
        lemma_slid_by_all(first@, second@);
    }
    match offset {
        0 => first,
        8 => second,
        n => {
            let orig = first.as_columns();
            let second = second.as_columns();
            let columns = splice(&second, &orig, (8 - n) as usize);
            PixelFrame::from_columns(&columns)
        },
    }
}

/// The frame that shows `first` moved `offset` cells to the top, with
/// `second` coming in from the bottom.
pub fn clip_pixel_frames_offset_top(first: PixelFrame, second: PixelFrame, offset: u8) -> (frame:
    PixelFrame)
    requires
        offset <= 8,
    ensures
        frame@ == slid_top(first@, second@, offset as int),
{
    proof {
        lemma_slid_by_none(first@, second@);
        lemma_slid_by_all(first@, second@);
    }
    match offset {
        0 => first,
        8 => second,
        n => {
            let orig = first.as_rows();
            let second = second.as_rows();
            let rows = splice(&orig, &second, n as usize);
            PixelFrame::from_rows(&rows)
        },
    }
}

/// The frame that shows `first` moved `offset` cells to the bottom, with
/// `second` coming in from the top.
pub fn clip_pixel_frames_offset_bottom(
    first: PixelFrame,
    second: PixelFrame,
    offset: u8,
) -> (frame: PixelFrame)
    requires
        offset <= 8,
    ensures
        frame@ == slid_bottom(first@, second@, offset as int),
{
    proof {
        lemma_slid_by_none(first@, second@);
        lemma_slid_by_all(first@, second@);
    }
    match offset {
        0 => first,
        8 => second,
        n => {
            let orig = first.as_rows();
            let second = second.as_rows();
            let rows = splice(&second, &orig, (8 - n) as usize);
            PixelFrame::from_rows(&rows)
        },
    }
}

/// Building a frame from its own rows, or from its own columns, gives the
/// frame back.
pub proof fn lemma_reshape_round_trip(cells: Seq<PixelColor>)
    requires
        cells.len() == 64,
    ensures
        cells_from_rows(rows_of(cells)) == cells,
        cells_from_columns(columns_of(cells)) == cells,
{
    assert(cells_from_rows(rows_of(cells)) =~= cells);
    assert(cells_from_columns(columns_of(cells)) =~= cells);
}

/// Taking the rows of the frame built from 8 rows gives those rows back, and
/// likewise for columns.
pub proof fn lemma_reshape_of_grid(vectors: Seq<Seq<PixelColor>>)
    requires
        is_grid(vectors),
    ensures
        rows_of(cells_from_rows(vectors)) == vectors,
        columns_of(cells_from_columns(vectors)) == vectors,
{
    assert forall|r: int| 0 <= r < 8 implies #[trigger] rows_of(cells_from_rows(vectors))[r]
        =~= vectors[r] by {
        assert forall|c: int| 0 <= c < 8 implies rows_of(cells_from_rows(vectors))[r][c]
            == vectors[r][c] by {
            assert((r * 8 + c) / 8 == r && (r * 8 + c) % 8 == c);
        }
    }
    assert(rows_of(cells_from_rows(vectors)) =~= vectors);
    assert forall|c: int| 0 <= c < 8 implies #[trigger] columns_of(
        cells_from_columns(vectors),
    )[c] =~= vectors[c] by {
        assert forall|r: int| 0 <= r < 8 implies columns_of(cells_from_columns(vectors))[c][r]
            == vectors[c][r] by {
            assert((r * 8 + c) / 8 == r && (r * 8 + c) % 8 == c);
        }
    }
    assert(columns_of(cells_from_columns(vectors)) =~= vectors);
}

/// The columns of a frame are the rows of its transpose.
pub proof fn lemma_columns_are_rows_of_transposed(cells: Seq<PixelColor>)
    requires
        cells.len() == 64,
    ensures
        columns_of(cells) == rows_of(transposed(cells)),
        rows_of(cells) == columns_of(transposed(cells)),
{
    assert(columns_of(cells) =~~= rows_of(transposed(cells)));
    assert(rows_of(cells) =~~= columns_of(transposed(cells)));
}

/// Transposing twice gives the frame back.
pub proof fn lemma_transpose_involution(cells: Seq<PixelColor>)
    requires
        cells.len() == 64,
    ensures
        transposed(transposed(cells)) == cells,
{
    assert(transposed(transposed(cells)) =~= cells);
}

/// Flipping twice the same way, or reversing twice, gives the frame back.
pub proof fn lemma_flip_involution(cells: Seq<PixelColor>)
    requires
        cells.len() == 64,
    ensures
        flipped_h(flipped_h(cells)) == cells,
        flipped_v(flipped_v(cells)) == cells,
        reversed(reversed(cells)) == cells,
{
    assert(flipped_h(flipped_h(cells)) =~= cells) by {
        assert forall|i: int| 0 <= i < 64 implies flipped_h(flipped_h(cells))[i] == cells[i] by {
            lemma_cell_index(i / 8, 7 - i % 8);
        }
    }
    assert(flipped_v(flipped_v(cells)) =~= cells) by {
        assert forall|i: int| 0 <= i < 64 implies flipped_v(flipped_v(cells))[i] == cells[i] by {
            lemma_cell_index(7 - i / 8, i % 8);
        }
    }
    assert(reversed(reversed(cells)) =~= cells);
}

/// Reversing a frame is flipping it both ways, in either order.
pub proof fn lemma_reverse_is_both_flips(cells: Seq<PixelColor>)
    requires
        cells.len() == 64,
    ensures
        reversed(cells) == flipped_h(flipped_v(cells)),
        reversed(cells) == flipped_v(flipped_h(cells)),
{
    assert(reversed(cells) =~= flipped_h(flipped_v(cells)));
    assert(reversed(cells) =~= flipped_v(flipped_h(cells)));
}

/// Two frames with the same cells are the same frame.
pub proof fn lemma_frame_ext_equal(a: PixelFrame, b: PixelFrame)
    requires
        a@ == b@,
    ensures
        a == b,
{
    assert(a.0 =~= b.0);
}

/// Sliding by 0 cells, in any direction, shows the first frame.
pub proof fn lemma_slid_by_none(first: Seq<PixelColor>, second: Seq<PixelColor>)
    requires
        first.len() == 64,
        second.len() == 64,
    ensures
        slid_left(first, second, 0) == first,
        slid_right(first, second, 0) == first,
        slid_top(first, second, 0) == first,
        slid_bottom(first, second, 0) == first,
{
    assert(slid_left(first, second, 0) =~= first);
    assert(slid_right(first, second, 0) =~= first);
    assert(slid_top(first, second, 0) =~= first);
    assert(slid_bottom(first, second, 0) =~= first);
}

/// Sliding by 8 cells, in any direction, shows the second frame.
pub proof fn lemma_slid_by_all(first: Seq<PixelColor>, second: Seq<PixelColor>)
    requires
        first.len() == 64,
        second.len() == 64,
    ensures
        slid_left(first, second, 8) == second,
        slid_right(first, second, 8) == second,
        slid_top(first, second, 8) == second,
        slid_bottom(first, second, 8) == second,
{
    assert(slid_left(first, second, 8) =~= second);
    assert(slid_right(first, second, 8) =~= second);
    assert(slid_top(first, second, 8) =~= second);
    assert(slid_bottom(first, second, 8) =~= second);
}

/// Sliding `first` to the right by `n` with `second` coming in is sliding
/// `second` to the left by `8 - n` with `first` coming in; likewise for bottom
/// and top.
pub proof fn lemma_slid_mirror(first: Seq<PixelColor>, second: Seq<PixelColor>, n: int)
    requires
        first.len() == 64,
        second.len() == 64,
        0 <= n <= 8,
    ensures
        slid_right(first, second, n) == slid_left(second, first, 8 - n),
        slid_bottom(first, second, n) == slid_top(second, first, 8 - n),
{
}

/// Cell by cell: what each cell of a frame shows after sliding by `n`.
pub proof fn lemma_slid_cells(first: Seq<PixelColor>, second: Seq<PixelColor>, n: int)
    requires
        first.len() == 64,
        second.len() == 64,
        0 <= n <= 8,
    ensures
        slid_left(first, second, n).len() == 64,
        slid_right(first, second, n).len() == 64,
        slid_top(first, second, n).len() == 64,
        slid_bottom(first, second, n).len() == 64,
        forall|r: int, c: int|
            0 <= r < 8 && 0 <= c < 8 ==> (#[trigger] slid_left(first, second, n)[r * 8 + c]) == (if c
                + n < 8 {
                first[r * 8 + (c + n)]
            } else {
                second[r * 8 + (c + n - 8)]
            }),
        forall|r: int, c: int|
            0 <= r < 8 && 0 <= c < 8 ==> (#[trigger] slid_right(first, second, n)[r * 8 + c]) == (if c
                < n {
                second[r * 8 + (8 - n + c)]
            } else {
                first[r * 8 + (c - n)]
            }),
        forall|r: int, c: int|
            0 <= r < 8 && 0 <= c < 8 ==> (#[trigger] slid_top(first, second, n)[r * 8 + c]) == (if r
                + n < 8 {
                first[(r + n) * 8 + c]
            } else {
                second[(r + n - 8) * 8 + c]
            }),
        forall|r: int, c: int|
            0 <= r < 8 && 0 <= c < 8 ==> (#[trigger] slid_bottom(first, second, n)[r * 8 + c]) == (if r
                < n {
                second[(8 - n + r) * 8 + c]
            } else {
                first[(r - n) * 8 + c]
            }),
{
    assert forall|r: int, c: int| 0 <= r < 8 && 0 <= c < 8 implies (#[trigger] slid_left(
        first,
        second,
        n,
    )[r * 8 + c]) == (if c + n < 8 {
        first[r * 8 + (c + n)]
    } else {
        second[r * 8 + (c + n - 8)]
    }) by {
        lemma_cell_index(r, c);
    }
    assert forall|r: int, c: int| 0 <= r < 8 && 0 <= c < 8 implies (#[trigger] slid_right(
        first,
        second,
        n,
    )[r * 8 + c]) == (if c < n {
        second[r * 8 + (8 - n + c)]
    } else {
        first[r * 8 + (c - n)]
    }) by {
        lemma_cell_index(r, c);
    }
    assert forall|r: int, c: int| 0 <= r < 8 && 0 <= c < 8 implies (#[trigger] slid_top(
        first,
        second,
        n,
    )[r * 8 + c]) == (if r + n < 8 {
        first[(r + n) * 8 + c]
    } else {
        second[(r + n - 8) * 8 + c]
    }) by {
        lemma_cell_index(r, c);
    }
    assert forall|r: int, c: int| 0 <= r < 8 && 0 <= c < 8 implies (#[trigger] slid_bottom(
        first,
        second,
        n,
    )[r * 8 + c]) == (if r < n {
        second[(8 - n + r) * 8 + c]
    } else {
        first[(r - n) * 8 + c]
    }) by {
        lemma_cell_index(r, c);
    }
}

/// Row `r` and column `c` are where the cell at index `r * 8 + c` stands.
pub proof fn lemma_cell_index(r: int, c: int)
    requires
        0 <= r < 8,
        0 <= c < 8,
    ensures
        0 <= r * 8 + c < 64,
        (r * 8 + c) / 8 == r,
        (r * 8 + c) % 8 == c,
{
}

impl<'a> From<&'a [PixelColor; 64]> for PixelFrame {
    fn from(array: &'a [PixelColor; 64]) -> (frame: Self) {
        PixelFrame::new(array)
    }
}

impl<'a> FromSpecImpl<&'a [PixelColor; 64]> for PixelFrame {
    open spec fn obeys_from_spec() -> bool {
        true
    }

    open spec fn from_spec(array: &'a [PixelColor; 64]) -> Self {
        PixelFrame(*array)
    }
}

impl From<[PixelColor; 64]> for PixelFrame {
    fn from(array: [PixelColor; 64]) -> (frame: Self) {
        PixelFrame(array)
    }
}

impl FromSpecImpl<[PixelColor; 64]> for PixelFrame {
    open spec fn obeys_from_spec() -> bool {
        true
    }

    open spec fn from_spec(array: [PixelColor; 64]) -> Self {
        PixelFrame(array)
    }
}

impl From<PixelFrame> for [PixelColor; 64] {
    fn from(frame: PixelFrame) -> (array: Self) {
        frame.0
    }
}

impl FromSpecImpl<PixelFrame> for [PixelColor; 64] {
    open spec fn obeys_from_spec() -> bool {
        true
    }

    open spec fn from_spec(frame: PixelFrame) -> Self {
        frame.0
    }
}

impl std::ops::Index<usize> for PixelFrame {
    type Output = PixelColor;

    fn index(&self, index: usize) -> (color: &PixelColor)
        ensures
            *color == self@[index as int],
    {
        &self.0[index]
    }
}

impl vstd::std_specs::core::IndexSpecImpl<usize> for PixelFrame {
    open spec fn index_req(&self, index: &usize) -> bool {
        *index < 64
    }
}

} // verus!
