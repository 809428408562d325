//! An 8×8 RGB LED matrix as a value: colours with their RGB565 wire encoding,
//! frames of 64 colours with their geometric transforms, clips that slide one
//! frame into another, scrolls of many frames, and frames drawn from 8×8 font
//! bitmaps.

pub mod color;
pub mod error;
pub mod fonts;
pub mod frame;
pub mod scroll;

pub use self::color::{BackgroundColor, ByteOrder, PixelColor, StrokeColor};
pub use self::error::ScreenError;
pub use self::fonts::{
    font_to_frame, font_to_pixel_frame, FontCollection, FontFrame, FontString, FontUnicode,
};
pub use self::frame::clip::FrameClip;
pub use self::frame::rotate::Rotate;
pub use self::frame::{FrameLine, Offset, PixelFrame};
pub use self::scroll::Scroll;
