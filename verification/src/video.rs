//! Frame sink: expands a palette-indexed pixel plane from the machine core
//! into a fixed-format true-color + alpha pixel buffer for display.
//!
//! The destination buffer holds four bytes per pixel (three color bytes from a
//! fixed palette table, then a constant alpha byte) and is fully overwritten
//! on every completed frame, so it always holds the last complete frame.

use vstd::prelude::*;

verus! {

/// Width of the emulated machine's video frame, in pixels.
pub const SCREEN_WIDTH: usize = 256;

/// Height of the emulated machine's video frame, in pixels.
pub const SCREEN_HEIGHT: usize = 240;

/// The constant alpha byte written at every fourth byte of the pixel buffer.
pub const FRAME_ALPHA: u8 = 0x77;

/// First color byte of a packed true-color palette entry: bits 16 to 23.
pub open spec fn pixel_byte_r(p: u32) -> u8 {
    ((p / 0x10000) % 0x100) as u8
}

/// Second color byte of a packed true-color palette entry: bits 8 to 15.
pub open spec fn pixel_byte_g(p: u32) -> u8 {
    ((p / 0x100) % 0x100) as u8
}

/// Third color byte of a packed true-color palette entry: bits 0 to 7.
pub open spec fn pixel_byte_b(p: u32) -> u8 {
    (p % 0x100) as u8
}

/// Receives a palette-indexed pixel plane once per completed video frame and
/// expands it into `pixels`, four bytes per pixel.
pub struct VideoFrameSink {
    /// Fixed palette table: palette index to packed true-color value.
    pub palette: Vec<u32>,
    /// The destination buffer, four bytes per pixel; read by the presentation
    /// layer between refreshes.
    pub pixels: Vec<u8>,
    /// Whether a frame has been completed in the current step batch.
    pub frame_written: bool,
}

impl VideoFrameSink {
    /// A sink for frames of `pixel_count` pixels, with a zeroed destination
    /// buffer of four bytes per pixel and the given palette table.
    pub fn new(palette: Vec<u32>, pixel_count: usize) -> (sink: VideoFrameSink)
        requires
            pixel_count <= usize::MAX / 4,
        ensures
            sink.palette == palette,
            sink.pixels@.len() == 4 * pixel_count,
            forall|i: int| 0 <= i < sink.pixels@.len() ==> sink.pixels@[i] == 0u8,
            !sink.frame_written,
    {
        let size = 4 * pixel_count;
        let mut pixels: Vec<u8> = Vec::new();
        let mut i: usize = 0;
        while i < size
            invariant
                i <= size,
                pixels@.len() == i,
                forall|j: int| 0 <= j < i ==> pixels@[j] == 0u8,
            decreases size - i,
        {
            pixels.push(0);
            i = i + 1;
        }
        VideoFrameSink { palette, pixels, frame_written: false }
    }

    /// Expand one completed frame. Every pixel of the destination buffer is
    /// overwritten: byte `4k` through `4k + 2` hold the palette entry for the
    /// plane's index at pixel `k`, and byte `4k + 3` the constant alpha.
    #[verifier::loop_isolation(false)]
    pub fn write_frame(&mut self, frame_buffer: &[u8])
        requires
            4 * frame_buffer@.len() == old(self).pixels@.len(),
            forall|k: int|
                0 <= k < frame_buffer@.len() ==> (#[trigger] frame_buffer@[k] as int)
                    < old(self).palette@.len(),
        ensures
            final(self).palette == old(self).palette,
            final(self).pixels@.len() == old(self).pixels@.len(),
            forall|k: int|
                0 <= k < frame_buffer@.len() ==> {
                    let p = old(self).palette@[#[trigger] frame_buffer@[k] as int];
                    &&& final(self).pixels@[4 * k] == pixel_byte_r(p)
                    &&& final(self).pixels@[4 * k + 1] == pixel_byte_g(p)
                    &&& final(self).pixels@[4 * k + 2] == pixel_byte_b(p)
                    &&& final(self).pixels@[4 * k + 3] == FRAME_ALPHA
                },
            final(self).frame_written,
    {
        let frame_len = frame_buffer.len();
        let pixel_bytes = self.pixels.len();
        let mut i: usize = 0;
        while i < frame_len
            invariant
                i <= frame_buffer@.len(),
                self.palette == old(self).palette,
                self.pixels@.len() == old(self).pixels@.len(),
                forall|k: int|
                    0 <= k < i ==> {
                        let p = old(self).palette@[#[trigger] frame_buffer@[k] as int];
                        &&& self.pixels@[4 * k] == pixel_byte_r(p)
                        &&& self.pixels@[4 * k + 1] == pixel_byte_g(p)
                        &&& self.pixels@[4 * k + 2] == pixel_byte_b(p)
                        &&& self.pixels@[4 * k + 3] == FRAME_ALPHA
                    },
            decreases frame_buffer@.len() - i,
        {
            let palette_index = frame_buffer[i];
            let pixel = self.palette[palette_index as usize];
            let offset = 4 * i;
            self.pixels[offset] = ((pixel / 0x10000) % 0x100) as u8;
            self.pixels[offset + 1] = ((pixel / 0x100) % 0x100) as u8;
            self.pixels[offset + 2] = (pixel % 0x100) as u8;
            self.pixels[offset + 3] = FRAME_ALPHA;
            i = i + 1;
        }
        self.frame_written = true;
    }

    /// Whether a frame was completed in the current step batch; used only for
    /// diagnostics, since `pixels` always holds the last complete frame.
    pub fn frame_written(&self) -> (r: bool)
        ensures
            r == self.frame_written,
    {
        self.frame_written
    }

    /// Begin a new step batch: the frame flag is cleared so that
    /// `frame_written` reports only frames completed in this batch.
    pub fn begin_batch(&mut self)
        ensures
            *final(self) == (VideoFrameSink { frame_written: false, ..*old(self) }),
    {
        self.frame_written = false;
    }

    /// Bytes of one destination pixel.
    pub fn pixel_size(&self) -> (n: usize)
        ensures
            n == 4,
    {
        4
    }
}

} // verus!
