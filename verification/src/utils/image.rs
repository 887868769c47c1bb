use vstd::prelude::*;

use crate::utils::pixel::Pixel;

verus! {

/// Represents a single frame, an image.
///
/// The pixels are kept in row-major scan order; the decoder that fills this
/// type must preserve that order, since it is relied upon when flattening
/// the image into the inference runtime's input bytes.
#[derive(Debug, Clone)]
pub struct Image {
    /// Width of the image.
    pub width: u64,
    /// Height of the image.
    pub height: u64,
    /// Actual pixel color values of the image.
    pub pixels: Vec<Pixel>,
}

impl Image {
    /// The shape invariant: one pixel for each of the `width * height`
    /// positions of the image.
    pub open spec fn wf(self) -> bool {
        self.pixels@.len() == self.width * self.height
    }

    /// Creates a new `Image` from given `width`, `height` and `pixels`.
    pub fn new(width: u64, height: u64, pixels: Vec<Pixel>) -> (img: Image)
        requires
            pixels@.len() == width * height,
        ensures
            img.width == width,
            img.height == height,
            img.pixels@ == pixels@,
            img.wf(),
    {
        Image { width, height, pixels }
    }

    /// The bytes of the inference runtime's input tensor: the pixel
    /// sequence flattened in scan order, three bytes R, G, B per pixel.
    pub fn tensor_data(&self) -> (r: Vec<u8>)
        ensures
            r@.len() == 3 * self.pixels@.len(),
            forall|i: int|
                0 <= i < self.pixels@.len() ==> {
                    &&& r@[3 * i] == (#[trigger] self.pixels@[i]).r
                    &&& r@[3 * i + 1] == self.pixels@[i].g
                    &&& r@[3 * i + 2] == self.pixels@[i].b
                },
    {
        let mut r: Vec<u8> = Vec::new();
        let n = self.pixels.len();
        let mut j: usize = 0;
        while j < n
            invariant
                n == self.pixels@.len(),
                j <= n,
                r@.len() == 3 * j,
                forall|i: int|
                    0 <= i < j ==> {
                        &&& r@[3 * i] == (#[trigger] self.pixels@[i]).r
                        &&& r@[3 * i + 1] == self.pixels@[i].g
                        &&& r@[3 * i + 2] == self.pixels@[i].b
                    },
            decreases n - j,
        {
            let p = self.pixels[j];
            r.push(p.r);
            r.push(p.g);
            r.push(p.b);
            j = j + 1;
        }
        r
    }
}

} // verus!
