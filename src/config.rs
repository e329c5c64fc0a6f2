use vstd::prelude::*;

verus! {

/// Width of a frame in pixels; also the row length of the raster.
pub const FRAME_WIDTH: usize = 172;

/// Height of a frame in pixels.
pub const FRAME_HEIGHT: usize = 320;

/// Bytes per pixel of the little-endian RGB565 encoding.
pub const BYTES_PER_PIXEL: usize = 2;

/// Bytes in one whole frame.
pub const FRAME_SIZE: usize = FRAME_WIDTH * FRAME_HEIGHT * BYTES_PER_PIXEL;

/// First byte of a hidden entry's base name, `_` (AppleDouble files and the
/// like).
pub const HIDDEN_MARKER: u8 = 0x5f;

/// Milliseconds to wait after each rendered frame; bounds the frame rate and
/// is the button's debounce window.
pub const FRAME_PACING_MS: u32 = 3;

/// Milliseconds per iteration of the terminal idle loop.
pub const IDLE_SLEEP_MS: u32 = 1000;

/// The extension that marks a media file: `RAW`.
pub fn media_extension() -> (r: Vec<u8>)
    ensures
        r@ == seq![0x52u8, 0x41u8, 0x57u8],
{
    vec![0x52u8, 0x41u8, 0x57u8]
}

/// The base-name prefix of the entry that playback prefers to start with: `NO`.
pub fn preferred_prefix() -> (r: Vec<u8>)
    ensures
        r@ == seq![0x4eu8, 0x4fu8],
{
    vec![0x4eu8, 0x4fu8]
}

} // verus!
