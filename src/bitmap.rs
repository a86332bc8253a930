use vstd::prelude::*;

verus! {

/// An RGBA image with 8 bits per channel, rows stored top to bottom.
#[derive(Clone, Debug)]
pub struct Bitmap {
    pub width: u32,
    pub height: u32,
    pub data: Vec<u8>,
}

/// Number of samples of a `w` by `h` RGBA image.
pub open spec fn rgba_len(w: nat, h: nat) -> nat {
    w * h * 4
}

/// Column of the pixel that holds sample `j` in an image `w` pixels wide.
pub open spec fn column_of(j: int, w: nat) -> int {
    (j / 4) % (w as int)
}

/// Row of the pixel that holds sample `j` in an image `w` pixels wide.
pub open spec fn row_of(j: int, w: nat) -> int {
    (j / 4) / (w as int)
}

/// Whether the pixel at (`px`, `py`) lies in the `w` by `h` rectangle whose
/// top left corner is (`x`, `y`).
pub open spec fn in_rect(px: int, py: int, x: int, y: int, w: int, h: int) -> bool {
    x <= px < x + w && y <= py < y + h
}

impl Bitmap {
    /// The sample count matches the dimensions.
    pub open spec fn wf(&self) -> bool {
        self.data@.len() == rgba_len(self.width as nat, self.height as nat)
    }

    /// Wraps `data` as a `width` by `height` image, or `None` where its
    /// length is not four samples per pixel.
    pub fn new(width: u32, height: u32, data: Vec<u8>) -> (r: Option<Bitmap>)
        ensures
            r is Some <==> data@.len() == rgba_len(width as nat, height as nat),
            r matches Some(b) ==> b.wf() && b.width == width && b.height == height && b.data@
                == data@,
    {
        proof {
            assert((width as u128) * (height as u128) <= 0xffff_ffffu128 * 0xffff_ffffu128)
                by (nonlinear_arith)
                requires
                    width <= 0xffff_ffffu32,
                    height <= 0xffff_ffffu32,
            ;
        }
        let n: u128 = (width as u128) * (height as u128) * 4;
        if n == data.len() as u128 {
            Some(Bitmap { width, height, data })
        } else {
            None
        }
    }
}

} // verus!
