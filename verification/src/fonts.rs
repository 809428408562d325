//! 8x8 font collection.
//!
//! A font symbol is a unicode character with an 8-byte bitmap: one byte for
//! each row, top to bottom, in which bit `n` says that cell `n` of the row
//! takes the stroke colour. The tables of symbols come from the `font8x8`
//! crate.
use crate::color::{BackgroundColor, PixelColor, StrokeColor};
use crate::error::ScreenError;
use crate::frame::{lemma_cell_index, lemma_frame_ext_equal, FrameLine, PixelFrame};
use std::collections::HashMap;
use vstd::prelude::*;
use vstd::std_specs::convert::FromSpecImpl;

verus! {

broadcast use vstd::std_specs::hash::group_hash_axioms;

/// A font symbol as plain values: its character and the 8 bytes of its
/// bitmap.
pub type Glyph = (char, Seq<u8>);

/// A single 8x8 font symbol: a unicode character and its bitmap.
#[derive(Clone, Copy, Debug, PartialEq)]
pub struct FontUnicode(pub char, pub [u8; 8]);

impl View for FontUnicode {
    type V = Glyph;

    open spec fn view(&self) -> Glyph {
        (self.0, self.1@)
    }
}

impl FontUnicode {
    /// Return the char value.
    pub fn char(&self) -> (symbol: char)
        ensures
            symbol == self.0,
    {
        self.0
    }

    /// Return the `[u8; 8]`-representation for this font.
    pub fn byte_array(&self) -> (bytes: [u8; 8])
        ensures
            bytes == self.1,
    {
        self.1
    }
}

/// Entry `index` of the table `BASIC_UNICODE` of `font8x8`.
pub uninterp spec fn basic_unicode_entry(index: int) -> (char, Seq<u8>);

/// Entry `index` of the table `LATIN_UNICODE` of `font8x8`.
pub uninterp spec fn latin_unicode_entry(index: int) -> (char, Seq<u8>);

/// Entry `index` of the table `BLOCK_UNICODE` of `font8x8`.
pub uninterp spec fn block_unicode_entry(index: int) -> (char, Seq<u8>);

/// Entry `index` of the table `BOX_UNICODE` of `font8x8`.
pub uninterp spec fn box_unicode_entry(index: int) -> (char, Seq<u8>);

/// Entry `index` of the table `GREEK_UNICODE` of `font8x8`.
pub uninterp spec fn greek_unicode_entry(index: int) -> (char, Seq<u8>);

/// Entry `index` of the table `HIRAGANA_UNICODE` of `font8x8`.
pub uninterp spec fn hiragana_unicode_entry(index: int) -> (char, Seq<u8>);

/// Reads entry `index` of `font8x8::BASIC_UNICODE`, a constant array of 128
/// symbols, and hands on its character and bitmap. The contract only gives
/// the entry its name: the same index is the same symbol every time.
#[verifier::external_body]
fn basic_unicode(index: usize) -> (font: FontUnicode)
    requires
        index < 128,
    ensures
        font@ == basic_unicode_entry(index as int),
{
    let font = font8x8::BASIC_UNICODE[index];
    FontUnicode(font.0, font.1)
}

/// Reads entry `index` of `font8x8::LATIN_UNICODE`, a constant array of 96
/// symbols, and hands on its character and bitmap. The contract only gives
/// the entry its name: the same index is the same symbol every time.
#[verifier::external_body]
fn latin_unicode(index: usize) -> (font: FontUnicode)
    requires
        index < 96,
    ensures
        font@ == latin_unicode_entry(index as int),
{
    let font = font8x8::LATIN_UNICODE[index];
    FontUnicode(font.0, font.1)
}

/// Reads entry `index` of `font8x8::BLOCK_UNICODE`, a constant array of 32
/// symbols, and hands on its character and bitmap. The contract only gives
/// the entry its name: the same index is the same symbol every time.
#[verifier::external_body]
fn block_unicode(index: usize) -> (font: FontUnicode)
    requires
        index < 32,
    ensures
        font@ == block_unicode_entry(index as int),
{
    let font = font8x8::BLOCK_UNICODE[index];
    FontUnicode(font.0, font.1)
}

/// Reads entry `index` of `font8x8::BOX_UNICODE`, a constant array of 128
/// symbols, and hands on its character and bitmap. The contract only gives
/// the entry its name: the same index is the same symbol every time.
#[verifier::external_body]
fn box_unicode(index: usize) -> (font: FontUnicode)
    requires
        index < 128,
    ensures
        font@ == box_unicode_entry(index as int),
{
    let font = font8x8::BOX_UNICODE[index];
    FontUnicode(font.0, font.1)
}

/// Reads entry `index` of `font8x8::GREEK_UNICODE`, a constant array of 58
/// symbols, and hands on its character and bitmap. The contract only gives
/// the entry its name: the same index is the same symbol every time.
#[verifier::external_body]
fn greek_unicode(index: usize) -> (font: FontUnicode)
    requires
        index < 58,
    ensures
        font@ == greek_unicode_entry(index as int),
{
    let font = font8x8::GREEK_UNICODE[index];
    FontUnicode(font.0, font.1)
}

/// Reads entry `index` of `font8x8::HIRAGANA_UNICODE`, a constant array of 96
/// symbols, and hands on its character and bitmap. The contract only gives
/// the entry its name: the same index is the same symbol every time.
#[verifier::external_body]
fn hiragana_unicode(index: usize) -> (font: FontUnicode)
    requires
        index < 96,
    ensures
        font@ == hiragana_unicode_entry(index as int),
{
    let font = font8x8::HIRAGANA_UNICODE[index];
    FontUnicode(font.0, font.1)
}

/// Appends one character to a `String`, with `String::push`. The contract
/// says what the documentation of `push` says: the text afterwards is the
/// text before with the character at its end.
#[verifier::external_body]
fn push_char(text: &mut String, symbol: char)
    ensures
        final(text)@ == old(text)@.push(symbol),
{
    text.push(symbol);
}

/// The symbols of a sequence of fonts, as plain values.
pub open spec fn glyphs(fonts: Seq<FontUnicode>) -> Seq<Glyph> {
    fonts.map_values(|font: FontUnicode| font@)
}

/// The symbols that a map from code points to fonts holds, by character.
pub open spec fn glyphs_by_char(fonts: Map<u32, FontUnicode>) -> Map<char, Glyph> {
    Map::new(|symbol: char| fonts.contains_key(symbol as u32), |symbol: char| fonts[symbol as u32]@)
}

/// Whether every font of the map stands under the code point of its own
/// character.
pub open spec fn keyed_by_code_point(fonts: Map<u32, FontUnicode>) -> bool {
    forall|key: u32| #[trigger] fonts.contains_key(key) ==> key == fonts[key].0 as u32
}

/// The map after every symbol of `list` was put into `fonts`, in order, each
/// under its own character: where two symbols have the same character, the
/// later one stays.
pub open spec fn with_glyphs(fonts: Map<char, Glyph>, list: Seq<Glyph>) -> Map<char, Glyph>
    decreases list.len(),
{
    if list.len() == 0 {
        fonts
    } else {
        with_glyphs(fonts, list.drop_last()).insert(list.last().0, list.last())
    }
}

/// The 128 symbols of Basic Latin, `U+0000` to `U+007F`.
pub open spec fn basic_glyphs() -> Seq<Glyph> {
    Seq::new(128, |i: int| basic_unicode_entry(i))
}

/// The 96 symbols of Extended Latin, `U+00A0` to `U+00FF`.
pub open spec fn latin_glyphs() -> Seq<Glyph> {
    Seq::new(96, |i: int| latin_unicode_entry(i))
}

/// The 32 symbols of Block Elements, `U+2580` to `U+259F`.
pub open spec fn block_glyphs() -> Seq<Glyph> {
    Seq::new(32, |i: int| block_unicode_entry(i))
}

/// The 128 symbols of Box Drawing, `U+2500` to `U+257F`.
pub open spec fn box_glyphs() -> Seq<Glyph> {
    Seq::new(128, |i: int| box_unicode_entry(i))
}

/// The 58 symbols of Greek, `U+0390` to `U+03C9`.
pub open spec fn greek_glyphs() -> Seq<Glyph> {
    Seq::new(58, |i: int| greek_unicode_entry(i))
}

/// The 96 symbols of Hiragana, `U+3040` to `U+309F`.
pub open spec fn hiragana_glyphs() -> Seq<Glyph> {
    Seq::new(96, |i: int| hiragana_unicode_entry(i))
}

/// The symbols that a default collection holds: those of the basic, latin,
/// block, box, greek and hiragana tables, put in in this order.
pub open spec fn default_glyphs() -> Map<char, Glyph> {
    with_glyphs(
        with_glyphs(
            with_glyphs(
                with_glyphs(
                    with_glyphs(with_glyphs(Map::empty(), basic_glyphs()), latin_glyphs()),
                    block_glyphs(),
                ),
                box_glyphs(),
            ),
            greek_glyphs(),
        ),
        hiragana_glyphs(),
    )
}

/// The symbols of `text` that `fonts` knows, in order, each as `fonts` has
/// it.
pub open spec fn sanitized(fonts: Map<char, Glyph>, text: Seq<char>) -> Seq<Glyph> {
    text.filter_map(
        |symbol: char|
            if fonts.contains_key(symbol) {
                Some(fonts[symbol])
            } else {
                None
            },
    )
}

/// The cells of the frame that draws a bitmap: cell `(r, c)` takes `color`
/// where bit `c` of byte `r` of `symbol` is set, and `background` where it is
/// not.
pub open spec fn glyph_cells(symbol: Seq<u8>, color: PixelColor, background: PixelColor) -> Seq<
    PixelColor,
> {
    Seq::new(
        64,
        |i: int|
            if symbol[i / 8] & (1u8 << ((i % 8) as usize)) > 0 {
                color
            } else {
                background
            },
    )
}

/// Two characters with the same code point are the same character.
pub proof fn lemma_code_point_injective(a: char, b: char)
    ensures
        a as u32 == b as u32 <==> a == b,
{
    vstd::utf8::char_u32_cast(a, a as u32);
    vstd::utf8::char_u32_cast(b, b as u32);
}

/// The symbols of the Basic Latin table.
fn basic_fonts() -> (fonts: Vec<FontUnicode>)
    ensures
        glyphs(fonts@) == basic_glyphs(),
{
    let mut fonts: Vec<FontUnicode> = Vec::new();
    let mut index: usize = 0;
    while index < 128
        invariant
            index <= 128,
            fonts@.len() == index,
            forall|i: int| 0 <= i < index ==> (#[trigger] fonts@[i])@ == basic_unicode_entry(i),
        decreases 128 - index,
    {
        fonts.push(basic_unicode(index));
        index += 1;
    }
    assert(glyphs(fonts@) =~= basic_glyphs());
    fonts
}

/// The symbols of the Extended Latin table.
fn latin_fonts() -> (fonts: Vec<FontUnicode>)
    ensures
        glyphs(fonts@) == latin_glyphs(),
{
    let mut fonts: Vec<FontUnicode> = Vec::new();
    let mut index: usize = 0;
    while index < 96
        invariant
            index <= 96,
            fonts@.len() == index,
            forall|i: int| 0 <= i < index ==> (#[trigger] fonts@[i])@ == latin_unicode_entry(i),
        decreases 96 - index,
    {
        fonts.push(latin_unicode(index));
        index += 1;
    }
    assert(glyphs(fonts@) =~= latin_glyphs());
    fonts
}

/// The symbols of the Block Elements table.
fn block_fonts() -> (fonts: Vec<FontUnicode>)
    ensures
        glyphs(fonts@) == block_glyphs(),
{
    let mut fonts: Vec<FontUnicode> = Vec::new();
    let mut index: usize = 0;
    while index < 32
        invariant
            index <= 32,
            fonts@.len() == index,
            forall|i: int| 0 <= i < index ==> (#[trigger] fonts@[i])@ == block_unicode_entry(i),
        decreases 32 - index,
    {
        fonts.push(block_unicode(index));
        index += 1;
    }
    assert(glyphs(fonts@) =~= block_glyphs());
    fonts
}

/// The symbols of the Box Drawing table.
fn box_fonts() -> (fonts: Vec<FontUnicode>)
    ensures
        glyphs(fonts@) == box_glyphs(),
{
    let mut fonts: Vec<FontUnicode> = Vec::new();
    let mut index: usize = 0;
    while index < 128
        invariant
            index <= 128,
            fonts@.len() == index,
            forall|i: int| 0 <= i < index ==> (#[trigger] fonts@[i])@ == box_unicode_entry(i),
        decreases 128 - index,
    {
        fonts.push(box_unicode(index));
        index += 1;
    }
    assert(glyphs(fonts@) =~= box_glyphs());
    fonts
}

/// The symbols of the Greek table.
fn greek_fonts() -> (fonts: Vec<FontUnicode>)
    ensures
        glyphs(fonts@) == greek_glyphs(),
{
    let mut fonts: Vec<FontUnicode> = Vec::new();
    let mut index: usize = 0;
    while index < 58
        invariant
            index <= 58,
            fonts@.len() == index,
            forall|i: int| 0 <= i < index ==> (#[trigger] fonts@[i])@ == greek_unicode_entry(i),
        decreases 58 - index,
    {
        fonts.push(greek_unicode(index));
        index += 1;
    }
    assert(glyphs(fonts@) =~= greek_glyphs());
    fonts
}

/// The symbols of the Hiragana table.
fn hiragana_fonts() -> (fonts: Vec<FontUnicode>)
    ensures
        glyphs(fonts@) == hiragana_glyphs(),
{
    let mut fonts: Vec<FontUnicode> = Vec::new();
    let mut index: usize = 0;
    while index < 96
        invariant
            index <= 96,
            fonts@.len() == index,
            forall|i: int|
                0 <= i < index ==> (#[trigger] fonts@[i])@ == hiragana_unicode_entry(i),
        decreases 96 - index,
    {
        fonts.push(hiragana_unicode(index));
        index += 1;
    }
    assert(glyphs(fonts@) =~= hiragana_glyphs());
    fonts
}

/// Puts every font of `fonts` into `map`, in order, each under the code
/// point of its character.
fn insert_fonts(map: &mut HashMap<u32, FontUnicode>, fonts: &Vec<FontUnicode>)
    requires
        keyed_by_code_point(old(map)@),
    ensures
        keyed_by_code_point(final(map)@),
        glyphs_by_char(final(map)@) == with_glyphs(glyphs_by_char(old(map)@), glyphs(fonts@)),
{
    let mut index: usize = 0;
    while index < fonts.len()
        invariant
            index <= fonts@.len(),
            keyed_by_code_point(map@),
            glyphs_by_char(map@) == with_glyphs(
                glyphs_by_char(old(map)@),
                glyphs(fonts@).take(index as int),
            ),
        decreases fonts@.len() - index,
    {
        let font = fonts[index];
        let ghost before = map@;
        map.insert(font.0 as u32, font);
        proof {
            let list = glyphs(fonts@);
            assert(list.take(index + 1).drop_last() =~= list.take(index as int));
            assert(list.take(index + 1).last() == font@);
            let now = glyphs_by_char(map@);
            let expected = glyphs_by_char(before).insert(font.0, font@);
            assert forall|symbol: char| now.contains_key(symbol) == expected.contains_key(
                symbol,
            ) by {
                lemma_code_point_injective(symbol, font.0);
            }
            assert forall|symbol: char| now.contains_key(symbol) implies now[symbol]
                == expected[symbol] by {
                lemma_code_point_injective(symbol, font.0);
            }
            assert(now =~= expected);
        }
        index += 1;
    }
    assert(glyphs(fonts@).take(fonts@.len() as int) =~= glyphs(fonts@));
}

/// The fonts of a default collection, each under the code point of its
/// character.
pub fn default_hashmap() -> (map: HashMap<u32, FontUnicode>)
    ensures
        keyed_by_code_point(map@),
        glyphs_by_char(map@) == default_glyphs(),
{
    let mut map: HashMap<u32, FontUnicode> = HashMap::new();
    assert(glyphs_by_char(map@) =~= Map::empty());
    insert_fonts(&mut map, &basic_fonts());
    insert_fonts(&mut map, &latin_fonts());
    insert_fonts(&mut map, &block_fonts());
    insert_fonts(&mut map, &box_fonts());
    insert_fonts(&mut map, &greek_fonts());
    insert_fonts(&mut map, &hiragana_fonts());
    map
}

/// A set of font symbols that can be printed on a `Screen`.
#[derive(Clone, Debug, PartialEq)]
pub struct FontCollection(HashMap<u32, FontUnicode>);

impl View for FontCollection {
    type V = Map<char, Glyph>;

    closed spec fn view(&self) -> Map<char, Glyph> {
        glyphs_by_char(self.0@)
    }
}

impl FontCollection {
    /// Create a default `FontCollection`, containing the unicode tables of
    /// the `font8x8` crate, except for its miscellaneous and SGA tables
    /// (which are non-standard).
    pub fn new() -> (collection: Self)
        ensures
            collection@ == default_glyphs(),
    {
        FontCollection(default_hashmap())
    }

    /// Create a `FontCollection` with a custom map of font symbols, each
    /// under the code point of the character that selects it.
    pub fn from_hashmap(hashmap: HashMap<u32, FontUnicode>) -> (collection: Self)
        ensures
            collection@ == glyphs_by_char(hashmap@),
    {
        FontCollection(hashmap)
    }

    /// Get an `Option` with the symbol's byte rendering.
    pub fn get(&self, symbol: char) -> (font: Option<&FontUnicode>)
        ensures
            font is Some <==> self@.contains_key(symbol),
            font matches Some(found) ==> found@ == self@[symbol],
    {
        let key: u32 = symbol as u32;
        self.0.get(&key)
    }

    /// Search if collection has a symbol by its unicode key.
    pub fn contains_key(&self, symbol: char) -> (found: bool)
        ensures
            found == self@.contains_key(symbol),
    {
        let key: u32 = symbol as u32;
        self.0.contains_key(&key)
    }

    /// Sanitize a `&str` and create a new `FontString`: the symbols of the
    /// text that the collection knows, in order.
    pub fn sanitize_str(&self, s: &str) -> (result: Result<FontString, ScreenError>)
        ensures
            result matches Ok(text) && text@ == sanitized(self@, s@),
    {
        let mut valid: Vec<FontUnicode> = Vec::new();
        let count = s.unicode_len();
        let mut index: usize = 0;
        while index < count
            invariant
                count == s@.len(),
                index <= count,
                glyphs(valid@) == sanitized(self@, s@.take(index as int)),
            decreases count - index,
        {
            let symbol = s.get_char(index);
            proof {
                s@.lemma_filter_map_take_succ(
                    |symbol: char|
                        if self@.contains_key(symbol) {
                            Some(self@[symbol])
                        } else {
                            None
                        },
                    index as int,
                );
            }
            if self.contains_key(symbol) {
                let font = *self.get(symbol).unwrap();
                let ghost before = valid@;
                valid.push(font);
                assert(glyphs(valid@) =~= glyphs(before) + seq![font@]);
            }
            index += 1;
        }
        assert(s@.take(count as int) =~= s@);
        Ok(FontString(valid))
    }
}

impl Default for FontCollection {
    fn default() -> (collection: Self)
        ensures
            collection@ == default_glyphs(),
    {
        FontCollection::new()
    }
}

/// A `FontString` is a collection of `FontUnicode` which can be rendered to
/// frames for the LED matrix.
#[derive(Clone, Debug, PartialEq)]
pub struct FontString(pub Vec<FontUnicode>);

impl View for FontString {
    type V = Seq<Glyph>;

    open spec fn view(&self) -> Seq<Glyph> {
        glyphs(self.0@)
    }
}

impl Default for FontString {
    fn default() -> (text: Self)
        ensures
            text@ == Seq::<Glyph>::empty(),
    {
        FontString::new()
    }
}

impl FontString {
    /// Create an empty `FontString`.
    pub fn new() -> (text: Self)
        ensures
            text@ == Seq::<Glyph>::empty(),
    {
        let text = FontString(Vec::new());
        assert(text@ =~= Seq::<Glyph>::empty());
        text
    }

    /// Render the font string as a collection of unicode value points,
    /// `Vec<char>`.
    pub fn chars(&self) -> (chars: Vec<char>)
        ensures
            chars@ == self@.map_values(|glyph: Glyph| glyph.0),
    {
        let mut chars: Vec<char> = Vec::new();
        let mut index: usize = 0;
        while index < self.0.len()
            invariant
                index <= self.0@.len(),
                chars@.len() == index,
                forall|i: int| 0 <= i < index ==> (#[trigger] chars@[i]) == self.0@[i].0,
            decreases self.0@.len() - index,
        {
            chars.push(self.0[index].char());
            index += 1;
        }
        assert(chars@ =~= self@.map_values(|glyph: Glyph| glyph.0));
        chars
    }

    /// Render the font string as a `String`.
    pub fn to_string(&self) -> (text: String)
        ensures
            text@ == self@.map_values(|glyph: Glyph| glyph.0),
    {
        let mut text = String::new();
        let mut index: usize = 0;
        while index < self.0.len()
            invariant
                index <= self.0@.len(),
                text@.len() == index,
                forall|i: int| 0 <= i < index ==> (#[trigger] text@[i]) == self.0@[i].0,
            decreases self.0@.len() - index,
        {
            push_char(&mut text, self.0[index].char());
            index += 1;
        }
        assert(text@ =~= self@.map_values(|glyph: Glyph| glyph.0));
        text
    }

    /// Returns a `Vec<FontFrame>` for each inner font.
    pub fn font_frames(&self, stroke: PixelColor, bg: PixelColor) -> (frames: Vec<FontFrame>)
        ensures
            frames@.len() == self.0@.len(),
            forall|i: int|
                0 <= i < frames@.len() ==> (#[trigger] frames@[i]) == (FontFrame {
                    font: self.0@[i],
                    stroke,
                    background: bg,
                }),
    {
        let mut frames: Vec<FontFrame> = Vec::new();
        let mut index: usize = 0;
        while index < self.0.len()
            invariant
                index <= self.0@.len(),
                frames@.len() == index,
                forall|i: int|
                    0 <= i < index ==> (#[trigger] frames@[i]) == (FontFrame {
                        font: self.0@[i],
                        stroke,
                        background: bg,
                    }),
            decreases self.0@.len() - index,
        {
            frames.push(FontFrame::new(self.0[index], stroke, bg));
            index += 1;
        }
        frames
    }

    /// Returns a `Vec<PixelFrame>` for each inner font.
    pub fn pixel_frames(&self, stroke: PixelColor, bg: PixelColor) -> (frames: Vec<PixelFrame>)
        ensures
            frames@.len() == self@.len(),
            forall|i: int|
                0 <= i < frames@.len() ==> (#[trigger] frames@[i])@ == glyph_cells(
                    self@[i].1,
                    stroke,
                    bg,
                ),
    {
        let font_frames = self.font_frames(stroke, bg);
        let mut frames: Vec<PixelFrame> = Vec::new();
        let mut index: usize = 0;
        while index < font_frames.len()
            invariant
                font_frames@.len() == self.0@.len(),
                index <= font_frames@.len(),
                frames@.len() == index,
                forall|i: int|
                    0 <= i < font_frames@.len() ==> (#[trigger] font_frames@[i]) == (FontFrame {
                        font: self.0@[i],
                        stroke,
                        background: bg,
                    }),
                forall|i: int|
                    0 <= i < index ==> (#[trigger] frames@[i])@ == glyph_cells(
                        self.0@[i].1@,
                        stroke,
                        bg,
                    ),
            decreases font_frames@.len() - index,
        {
            frames.push(font_frames[index].pixel_frame());
            index += 1;
        }
        frames
    }
}

/// A font that can be rendered as a `PixelFrame` with a `stroke` color, and a
/// `background` color.
#[derive(Clone, Copy, Debug, PartialEq)]
pub struct FontFrame {
    /// The font symbol.
    pub font: FontUnicode,
    /// Color for the font stroke.
    pub stroke: PixelColor,
    /// Color for the font background.
    pub background: PixelColor,
}

impl FontFrame {
    /// The cells of the frame that draws this font.
    pub open spec fn cells(self) -> Seq<PixelColor> {
        glyph_cells(self.font.1@, self.stroke, self.background)
    }

    /// The frame that draws this font.
    pub open spec fn frame(self) -> PixelFrame {
        choose|frame: PixelFrame| frame@ == self.cells()
    }

    /// Create a new font frame with a `stroke` color, and a `background`
    /// color.
    pub fn new(font: FontUnicode, stroke: PixelColor, background: PixelColor) -> (frame: Self)
        ensures
            frame == (FontFrame { font, stroke, background }),
    {
        FontFrame { font, stroke, background }
    }

    /// The `PixelFrame` for this font.
    pub fn pixel_frame(&self) -> (frame: PixelFrame)
        ensures
            frame@ == self.cells(),
            frame == self.frame(),
    {
        let pixels = font_to_pixel_color_array_with_bg(
            self.font.byte_array(),
            self.stroke,
            self.background,
        );
        let frame = PixelFrame(pixels);
        proof {
            lemma_frame_ext_equal(frame, self.frame());
        }
        frame
    }
}

impl From<FontFrame> for PixelFrame {
    fn from(font: FontFrame) -> (frame: PixelFrame) {
        font.pixel_frame()
    }
}

impl FromSpecImpl<FontFrame> for PixelFrame {
    open spec fn obeys_from_spec() -> bool {
        true
    }

    open spec fn from_spec(font: FontFrame) -> PixelFrame {
        font.frame()
    }
}

impl BackgroundColor for FontFrame {
    open spec fn background_color(&self) -> PixelColor {
        self.background
    }

    fn set_background_color(&mut self, color: PixelColor)
        ensures
            *final(self) == (FontFrame { background: color, ..*old(self) }),
    {
        self.background = color;
    }

    fn get_background_color(&self) -> (color: PixelColor) {
        self.background
    }
}

impl StrokeColor for FontFrame {
    open spec fn stroke_color(&self) -> PixelColor {
        self.stroke
    }

    fn set_stroke_color(&mut self, color: PixelColor)
        ensures
            *final(self) == (FontFrame { stroke: color, ..*old(self) }),
    {
        self.stroke = color;
    }

    fn get_stroke_color(&self) -> (color: PixelColor) {
        self.stroke
    }
}

/// Render a font symbol with a stroke color and a background color.
pub fn font_to_pixel_color_array_with_bg(
    symbol: [u8; 8],
    color: PixelColor,
    background: PixelColor,
) -> (pixels: [PixelColor; 64])
    ensures
        pixels@ == glyph_cells(symbol@, color, background),
{
    let mut pixels: [PixelColor; 64] = [background; 64];
    let mut row_idx: usize = 0;
    while row_idx < 8
        invariant
            row_idx <= 8,
            forall|r: int, c: int|
                0 <= r < 8 && 0 <= c < 8 ==> (#[trigger] pixels@[r * 8 + c]) == (if r < row_idx {
                    glyph_cells(symbol@, color, background)[r * 8 + c]
                } else {
                    background
                }),
        decreases 8 - row_idx,
    {
        let encoded_row = symbol[row_idx];
        let mut col_idx: usize = 0;
        while col_idx < 8
            invariant
                row_idx < 8,
                col_idx <= 8,
                encoded_row == symbol@[row_idx as int],
                forall|r: int, c: int|
                    0 <= r < 8 && 0 <= c < 8 ==> (#[trigger] pixels@[r * 8 + c]) == (if r < row_idx
                        || (r == row_idx && c < col_idx) {
                        glyph_cells(symbol@, color, background)[r * 8 + c]
                    } else {
                        background
                    }),
            decreases 8 - col_idx,
        {
            proof {
                lemma_cell_index(row_idx as int, col_idx as int);
            }
            if (encoded_row & (1u8 << col_idx)) > 0 {
                pixels[row_idx * 8 + col_idx] = color;
            }
            col_idx += 1;
        }
        row_idx += 1;
    }
    assert forall|i: int| 0 <= i < 64 implies pixels@[i] == glyph_cells(
        symbol@,
        color,
        background,
    )[i] by {
        let r = i / 8;
        let c = i % 8;
        assert(pixels@[r * 8 + c] == glyph_cells(symbol@, color, background)[r * 8 + c]);
    }
    assert(pixels@ =~= glyph_cells(symbol@, color, background));
    pixels
}

/// Render a font symbol with a `PixelColor` into a `[PixelColor; 64]`, on a
/// black background.
pub fn font_to_pixel_color_array(symbol: [u8; 8], color: PixelColor) -> (pixels: [PixelColor; 64])
    ensures
        pixels@ == glyph_cells(symbol@, color, PixelColor { red: 0, green: 0, blue: 0 }),
{
    font_to_pixel_color_array_with_bg(symbol, color, PixelColor::black())
}

/// Render a font symbol with a `PixelColor` into a `PixelFrame`.
pub fn font_to_pixel_frame(symbol: [u8; 8], color: PixelColor) -> (frame: PixelFrame)
    ensures
        frame@ == glyph_cells(symbol@, color, PixelColor { red: 0, green: 0, blue: 0 }),
{
    let pixels = font_to_pixel_color_array(symbol, color);
    PixelFrame::new(&pixels)
}

/// Render a font symbol with a `PixelColor` into a `FrameLine`.
pub fn font_to_frame(symbol: [u8; 8], color: PixelColor) -> (line: FrameLine)
    ensures
        line@ == crate::frame::words_of(
            glyph_cells(symbol@, color, PixelColor { red: 0, green: 0, blue: 0 }),
        ),
{
    let pixels = font_to_pixel_color_array(symbol, color);
    FrameLine::from_pixels(&pixels)
}

} // verus!
