//! The decoded image and its expansion to interleaved RGB.

use vstd::prelude::*;

verus! {

/// Number of entries in every palette.
pub const PALETTE_LEN: usize = 256;

/// A colour as red, green and blue.
pub type Color = [u8; 3];

/// An XYZ image.
#[derive(Debug, PartialEq, Eq)]
pub struct Image {
    /// Number of pixels in a row.
    pub width: u16,
    /// Number of rows.
    pub height: u16,
    /// The colours that the pixels choose from.
    pub palette: [Color; 256],
    /// One byte per pixel, row by row: the pixel's index into `palette`.
    pub buffer: Vec<u8>,
}

/// An image as a mathematical value.
pub struct ImageView {
    pub width: u16,
    pub height: u16,
    pub palette: Seq<Color>,
    pub buffer: Seq<u8>,
}

impl ImageView {
    /// The palette is full, and there is exactly one index per pixel.
    pub open spec fn wf(self) -> bool {
        &&& self.palette.len() == PALETTE_LEN
        &&& self.buffer.len() == self.width * self.height
    }

    /// The pixels as interleaved RGB: three bytes for each index of the
    /// buffer, in order, taken from the palette entry that it names.
    pub open spec fn rgb(self) -> Seq<u8> {
        Seq::new(3 * self.buffer.len(), |k: int| self.palette[self.buffer[k / 3] as int][k % 3])
    }
}

impl View for Image {
    type V = ImageView;

    open spec fn view(&self) -> ImageView {
        ImageView {
            width: self.width,
            height: self.height,
            palette: self.palette@,
            buffer: self.buffer@,
        }
    }
}

impl Image {
    /// Converts the image to a raw RGB buffer: for each pixel, in order, the
    /// three bytes of its palette entry.
    pub fn to_rgb_buffer(&self) -> (rgb: Vec<u8>)
        ensures
            rgb@ == self@.rgb(),
            rgb@.len() == 3 * self.buffer@.len(),
    {
        let mut rgb: Vec<u8> = Vec::new();
        let mut i: usize = 0;
        while i < self.buffer.len()
            invariant
                i <= self.buffer@.len(),
                rgb@ == self@.rgb().subrange(0, 3 * i),
            decreases self.buffer@.len() - i,
        {
            let color = self.palette[self.buffer[i] as usize];
            rgb.push(color[0]);
            rgb.push(color[1]);
            rgb.push(color[2]);
            i += 1;
        }
        rgb
    }
}

} // verus!
