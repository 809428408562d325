//! RGB colour for LED pixels, with its 16-bit RGB565 encoding.
//!
//! An RGB565 word keeps the top five bits of red in bits 15 to 11, the top six
//! bits of green in bits 10 to 5 and the top five bits of blue in bits 4 to 0.
//! On the wire the word is two bytes, in either byte order.
use vstd::prelude::*;
use vstd::std_specs::convert::FromSpecImpl;

verus! {

/// The order in which the two bytes of an RGB565 word travel on the wire.
#[derive(Copy, Clone, Debug, PartialEq, Eq, Structural)]
pub enum ByteOrder {
    /// Low byte first.
    LittleEndian,
    /// High byte first.
    BigEndian,
}

/// The RGB565 word of three 8-bit channels: `(r << 11) | (g << 5) | b`, where
/// `r`, `g` and `b` are the top 5, 6 and 5 bits of red, green and blue.
pub open spec fn pack_rgb565(red: u8, green: u8, blue: u8) -> u16 {
    ((((red >> 3) & 0x1F) as u16) << 11) | ((((green >> 2) & 0x3F) as u16) << 5) | (((blue >> 3)
        & 0x1F) as u16)
}

/// The red channel of an RGB565 word: its 5-bit field, shifted left by 3.
pub open spec fn unpack_red(word: u16) -> u8 {
    (((word & 0xF800) >> 11) << 3) as u8
}

/// The green channel of an RGB565 word: its 6-bit field, shifted left by 2.
pub open spec fn unpack_green(word: u16) -> u8 {
    (((word & 0x07E0) >> 5) << 2) as u8
}

/// The blue channel of an RGB565 word: its 5-bit field, shifted left by 3.
pub open spec fn unpack_blue(word: u16) -> u8 {
    ((word & 0x001F) << 3) as u8
}

/// The low-order byte of a word.
pub open spec fn low_byte(word: u16) -> u8 {
    (word & 0x00FF) as u8
}

/// The high-order byte of a word.
pub open spec fn high_byte(word: u16) -> u8 {
    ((word >> 8) & 0x00FF) as u8
}

/// The word with the given low-order and high-order bytes.
pub open spec fn join_bytes(low: u8, high: u8) -> u16 {
    (low as u16) | ((high as u16) << 8)
}

/// The two wire bytes of a word in the given byte order.
pub open spec fn wire_bytes(word: u16, order: ByteOrder) -> Seq<u8> {
    match order {
        ByteOrder::LittleEndian => seq![low_byte(word), high_byte(word)],
        ByteOrder::BigEndian => seq![high_byte(word), low_byte(word)],
    }
}

/// The word that two wire bytes stand for in the given byte order.
pub open spec fn wire_word(bytes: Seq<u8>, order: ByteOrder) -> u16 {
    match order {
        ByteOrder::LittleEndian => join_bytes(bytes[0], bytes[1]),
        ByteOrder::BigEndian => join_bytes(bytes[1], bytes[0]),
    }
}

/// A single LED pixel colour: three 8-bit channels.
#[derive(Copy, Clone, Debug, PartialEq, Eq, Structural)]
pub struct PixelColor {
    pub red: u8,
    pub green: u8,
    pub blue: u8,
}

/// RGB colour stored as one 16-bit RGB565 word.
#[derive(Copy, Clone, Debug, PartialEq, Eq, Structural)]
pub struct Rgb565(pub u16);

impl PixelColor {
    /// The two wire bytes of this colour in RGB565, in the given byte order.
    pub open spec fn encoded(self, order: ByteOrder) -> Seq<u8> {
        wire_bytes(self.word().0, order)
    }

    /// The colour that two RGB565 wire bytes decode to, in the given byte order.
    pub open spec fn decoded(bytes: Seq<u8>, order: ByteOrder) -> PixelColor {
        Rgb565(wire_word(bytes, order)).color()
    }

    /// The RGB565 word of this colour.
    pub open spec fn word(self) -> Rgb565 {
        Rgb565(pack_rgb565(self.red, self.green, self.blue))
    }

    /// This colour at RGB565 precision: the low 3 bits of red and blue and
    /// the low 2 bits of green are zero.
    pub open spec fn quantized(self) -> PixelColor {
        PixelColor { red: self.red & 0xF8, green: self.green & 0xFC, blue: self.blue & 0xF8 }
    }

    /// Create a new LED pixel colour.
    pub fn new(red: u8, green: u8, blue: u8) -> (color: Self)
        ensures
            color == (PixelColor { red, green, blue }),
    {
        Self { red, green, blue }
    }

    /// All channels off.
    pub fn black() -> (color: Self)
        ensures
            color == (PixelColor { red: 0, green: 0, blue: 0 }),
    {
        PixelColor { red: 0, green: 0, blue: 0 }
    }

    /// Full red.
    pub fn red() -> (color: Self)
        ensures
            color == (PixelColor { red: 0xFF, green: 0, blue: 0 }),
    {
        PixelColor { red: 0xFF, green: 0, blue: 0 }
    }

    /// Full blue.
    pub fn blue() -> (color: Self)
        ensures
            color == (PixelColor { red: 0, green: 0, blue: 0xFF }),
    {
        PixelColor { red: 0, green: 0, blue: 0xFF }
    }

    /// Full green.
    pub fn green() -> (color: Self)
        ensures
            color == (PixelColor { red: 0, green: 0xFF, blue: 0 }),
    {
        PixelColor { red: 0, green: 0xFF, blue: 0 }
    }

    /// All channels full.
    pub fn white() -> (color: Self)
        ensures
            color == (PixelColor { red: 0xFF, green: 0xFF, blue: 0xFF }),
    {
        PixelColor { red: 0xFF, green: 0xFF, blue: 0xFF }
    }

    /// Full red and green.
    pub fn yellow() -> (color: Self)
        ensures
            color == (PixelColor { red: 0xFF, green: 0xFF, blue: 0 }),
    {
        PixelColor { red: 0xFF, green: 0xFF, blue: 0 }
    }

    /// Full green and blue.
    pub fn cyan() -> (color: Self)
        ensures
            color == (PixelColor { red: 0, green: 0xFF, blue: 0xFF }),
    {
        PixelColor { red: 0, green: 0xFF, blue: 0xFF }
    }

    /// Full red and blue.
    pub fn magenta() -> (color: Self)
        ensures
            color == (PixelColor { red: 0xFF, green: 0, blue: 0xFF }),
    {
        PixelColor { red: 0xFF, green: 0, blue: 0xFF }
    }

    /// Create a new LED pixel colour from a pair of RGB565-encoded bytes.
    pub fn from_rgb565(color: [u8; 2], order: ByteOrder) -> (pixel: Self)
        ensures
            pixel == Self::decoded(color@, order),
    {
        let rgb565 = Rgb565::from_bytes(color, order);
        let (red, green, blue) = rgb565.to_rgb();
        PixelColor::new(red, green, blue)
    }

    /// Encodes this LED pixel colour into a pair of RGB565-encoded bytes.
    pub fn rgb565(&self, order: ByteOrder) -> (bytes: [u8; 2])
        ensures
            bytes@ == self.encoded(order),
    {
        Rgb565::from_rgb(self.red, self.green, self.blue).to_bytes(order)
    }
}

impl Rgb565 {
    /// The colour that this word expands to.
    pub open spec fn color(self) -> PixelColor {
        PixelColor {
            red: unpack_red(self.0),
            green: unpack_green(self.0),
            blue: unpack_blue(self.0),
        }
    }

    /// Create an `Rgb565` from red, green and blue `u8` values.
    pub fn from_rgb(red: u8, green: u8, blue: u8) -> (rgb: Self)
        ensures
            rgb == (PixelColor { red, green, blue }).word(),
    {
        let r: u16 = ((red >> 3) & 0x1F) as u16;
        let g: u16 = ((green >> 2) & 0x3F) as u16;
        let b: u16 = ((blue >> 3) & 0x1F) as u16;
        Rgb565((r << 11) | (g << 5) | b)
    }

    /// The `(red, green, blue)` channels that this word expands to.
    pub fn to_rgb(self) -> (rgb: (u8, u8, u8))
        ensures
            rgb == (unpack_red(self.0), unpack_green(self.0), unpack_blue(self.0)),
    {
        let red: u8 = (((self.0 & 0xF800) >> 11) << 3) as u8;
        let green: u8 = (((self.0 & 0x07E0) >> 5) << 2) as u8;
        let blue: u8 = ((self.0 & 0x001F) << 3) as u8;
        (red, green, blue)
    }

    /// Create an `Rgb565` from a pair of little-endian bytes.
    pub fn from_le(bytes: [u8; 2]) -> (rgb: Self)
        ensures
            rgb.0 == wire_word(bytes@, ByteOrder::LittleEndian),
    {
        let hi: u16 = (bytes[1] as u16) << 8;
        let lo: u16 = bytes[0] as u16;
        Rgb565(lo | hi)
    }

    /// Create an `Rgb565` from a pair of big-endian bytes.
    pub fn from_be(bytes: [u8; 2]) -> (rgb: Self)
        ensures
            rgb.0 == wire_word(bytes@, ByteOrder::BigEndian),
    {
        let hi: u16 = (bytes[0] as u16) << 8;
        let lo: u16 = bytes[1] as u16;
        Rgb565(lo | hi)
    }

    /// Create an `Rgb565` from a pair of bytes in the given byte order.
    pub fn from_bytes(bytes: [u8; 2], order: ByteOrder) -> (rgb: Self)
        ensures
            rgb.0 == wire_word(bytes@, order),
    {
        match order {
            ByteOrder::LittleEndian => Rgb565::from_le(bytes),
            ByteOrder::BigEndian => Rgb565::from_be(bytes),
        }
    }

    /// The two bytes of this word, low byte first.
    pub fn split_le(self) -> (bytes: [u8; 2])
        ensures
            bytes@ == wire_bytes(self.0, ByteOrder::LittleEndian),
    {
        let lo: u8 = (self.0 & 0x00FF) as u8;
        let hi: u8 = ((self.0 >> 8) & 0x00FF) as u8;
        [lo, hi]
    }

    /// The two bytes of this word, high byte first.
    pub fn split_be(self) -> (bytes: [u8; 2])
        ensures
            bytes@ == wire_bytes(self.0, ByteOrder::BigEndian),
    {
        let lo: u8 = (self.0 & 0x00FF) as u8;
        let hi: u8 = ((self.0 >> 8) & 0x00FF) as u8;
        [hi, lo]
    }

    /// The two bytes of this word in the given byte order.
    pub fn to_bytes(self, order: ByteOrder) -> (bytes: [u8; 2])
        ensures
            bytes@ == wire_bytes(self.0, order),
    {
        match order {
            ByteOrder::LittleEndian => self.split_le(),
            ByteOrder::BigEndian => self.split_be(),
        }
    }
}

/// Encoding then decoding a colour, in either byte order, gives the colour with
/// the low 3 bits of red and blue and the low 2 bits of green zeroed.
pub proof fn lemma_rgb565_round_trip(color: PixelColor, order: ByteOrder)
    ensures
        PixelColor::decoded(color.encoded(order), order) == color.quantized(),
{
    let red = color.red;
    let green = color.green;
    let blue = color.blue;
    let word = pack_rgb565(red, green, blue);
    assert(join_bytes(low_byte(word), high_byte(word)) == word) by (bit_vector);
    assert(unpack_red(pack_rgb565(red, green, blue)) == red & 0xF8) by (bit_vector);
    assert(unpack_green(pack_rgb565(red, green, blue)) == green & 0xFC) by (bit_vector);
    assert(unpack_blue(pack_rgb565(red, green, blue)) == blue & 0xF8) by (bit_vector);
}

/// A colour that is already at RGB565 precision survives encoding and decoding
/// unchanged.
pub proof fn lemma_rgb565_round_trip_exact(color: PixelColor, order: ByteOrder)
    requires
        color.quantized() == color,
    ensures
        PixelColor::decoded(color.encoded(order), order) == color,
{
    lemma_rgb565_round_trip(color, order);
}

/// Splitting a word into wire bytes and joining them again, in the same byte
/// order, gives the word back.
pub proof fn lemma_wire_word_of_wire_bytes(word: u16, order: ByteOrder)
    ensures
        wire_word(wire_bytes(word, order), order) == word,
{
    assert(join_bytes(low_byte(word), high_byte(word)) == word) by (bit_vector);
}

/// Joining two wire bytes into a word and splitting it again, in the same byte
/// order, gives the two bytes back.
pub proof fn lemma_wire_bytes_of_wire_word(bytes: Seq<u8>, order: ByteOrder)
    requires
        bytes.len() == 2,
    ensures
        wire_bytes(wire_word(bytes, order), order) == bytes,
{
    let a = bytes[0];
    let b = bytes[1];
    assert(low_byte(join_bytes(a, b)) == a) by (bit_vector);
    assert(high_byte(join_bytes(a, b)) == b) by (bit_vector);
    assert(low_byte(join_bytes(b, a)) == b) by (bit_vector);
    assert(high_byte(join_bytes(b, a)) == a) by (bit_vector);
}

/// Something drawn over a background colour that can be changed.
pub trait BackgroundColor {
    /// The colour of the background.
    spec fn background_color(&self) -> PixelColor;

    /// Set the colour of the background.
    fn set_background_color(&mut self, color: PixelColor)
        ensures
            final(self).background_color() == color,
    ;

    /// The colour of the background.
    fn get_background_color(&self) -> (color: PixelColor)
        ensures
            color == self.background_color(),
    ;
}

/// Something drawn with a stroke colour that can be changed.
pub trait StrokeColor {
    /// The colour of the stroke.
    spec fn stroke_color(&self) -> PixelColor;

    /// Set the colour of the stroke.
    fn set_stroke_color(&mut self, color: PixelColor)
        ensures
            final(self).stroke_color() == color,
    ;

    /// The colour of the stroke.
    fn get_stroke_color(&self) -> (color: PixelColor)
        ensures
            color == self.stroke_color(),
    ;
}

impl Default for PixelColor {
    fn default() -> (color: Self)
        ensures
            color == (PixelColor { red: 0, green: 0, blue: 0 }),
    {
        PixelColor::black()
    }
}

impl Default for Rgb565 {
    fn default() -> (rgb: Self)
        ensures
            rgb == Rgb565(0),
    {
        Rgb565(0)
    }
}

impl From<Rgb565> for PixelColor {
    fn from(color: Rgb565) -> (pixel: Self) {
        let rgb565 = color.to_rgb();
        PixelColor::new(rgb565.0, rgb565.1, rgb565.2)
    }
}

impl FromSpecImpl<Rgb565> for PixelColor {
    open spec fn obeys_from_spec() -> bool {
        true
    }

    open spec fn from_spec(color: Rgb565) -> Self {
        color.color()
    }
}

impl From<(u8, u8, u8)> for PixelColor {
    fn from(color: (u8, u8, u8)) -> (pixel: Self) {
        PixelColor::new(color.0, color.1, color.2)
    }
}

impl FromSpecImpl<(u8, u8, u8)> for PixelColor {
    open spec fn obeys_from_spec() -> bool {
        true
    }

    open spec fn from_spec(color: (u8, u8, u8)) -> Self {
        PixelColor { red: color.0, green: color.1, blue: color.2 }
    }
}

impl From<PixelColor> for (u8, u8, u8) {
    fn from(color: PixelColor) -> (rgb: Self) {
        (color.red, color.green, color.blue)
    }
}

impl FromSpecImpl<PixelColor> for (u8, u8, u8) {
    open spec fn obeys_from_spec() -> bool {
        true
    }

    open spec fn from_spec(color: PixelColor) -> Self {
        (color.red, color.green, color.blue)
    }
}

impl From<Rgb565> for u16 {
    fn from(color: Rgb565) -> (word: Self) {
        color.0
    }
}

impl FromSpecImpl<Rgb565> for u16 {
    open spec fn obeys_from_spec() -> bool {
        true
    }

    open spec fn from_spec(color: Rgb565) -> Self {
        color.0
    }
}

impl From<u16> for Rgb565 {
    fn from(bytes: u16) -> (rgb: Self) {
        Rgb565(bytes)
    }
}

impl FromSpecImpl<u16> for Rgb565 {
    open spec fn obeys_from_spec() -> bool {
        true
    }

    open spec fn from_spec(bytes: u16) -> Self {
        Rgb565(bytes)
    }
}

impl From<(u8, u8, u8)> for Rgb565 {
    fn from(color: (u8, u8, u8)) -> (rgb: Self) {
        Rgb565::from_rgb(color.0, color.1, color.2)
    }
}

impl FromSpecImpl<(u8, u8, u8)> for Rgb565 {
    open spec fn obeys_from_spec() -> bool {
        true
    }

    open spec fn from_spec(color: (u8, u8, u8)) -> Self {
        (PixelColor { red: color.0, green: color.1, blue: color.2 }).word()
    }
}

impl From<Rgb565> for (u8, u8, u8) {
    fn from(color: Rgb565) -> (rgb: Self) {
        color.to_rgb()
    }
}

impl FromSpecImpl<Rgb565> for (u8, u8, u8) {
    open spec fn obeys_from_spec() -> bool {
        true
    }

    open spec fn from_spec(color: Rgb565) -> Self {
        (unpack_red(color.0), unpack_green(color.0), unpack_blue(color.0))
    }
}

impl From<PixelColor> for Rgb565 {
    fn from(color: PixelColor) -> (rgb: Self) {
        Rgb565::from_rgb(color.red, color.green, color.blue)
    }
}

impl FromSpecImpl<PixelColor> for Rgb565 {
    open spec fn obeys_from_spec() -> bool {
        true
    }

    open spec fn from_spec(color: PixelColor) -> Self {
        color.word()
    }
}

impl<'a> From<&'a PixelColor> for Rgb565 {
    fn from(color: &'a PixelColor) -> (rgb: Self) {
        Rgb565::from_rgb(color.red, color.green, color.blue)
    }
}

impl<'a> FromSpecImpl<&'a PixelColor> for Rgb565 {
    open spec fn obeys_from_spec() -> bool {
        true
    }

    open spec fn from_spec(color: &'a PixelColor) -> Self {
        color.word()
    }
}

} // verus!
