//! The output pixel grid the core renders into: a fixed 256x240 frame of
//! four-channel colour cells. Handing the finished frame to a display
//! surface belongs to the surrounding application.

use vstd::prelude::*;

verus! {

/// A four-channel colour cell.
#[derive(Copy, Clone, Debug, PartialEq, Eq, Structural)]
pub struct Colour {
    pub red: u8,
    pub green: u8,
    pub blue: u8,
    pub alpha: u8,
}

impl Default for Colour {
    /// Fully transparent black.
    fn default() -> (r: Self)
        ensures
            r == (Colour { red: 0, green: 0, blue: 0, alpha: 0 }),
    {
        Colour { red: 0, green: 0, blue: 0, alpha: 0 }
    }
}

/// Pixels per scanline.
pub const WIDTH: usize = 256;

/// Scanlines per frame.
pub const HEIGHT: usize = 240;

/// A frame of pixels, row-major: the cell for scanline `row` and dot
/// `col` sits at `row * WIDTH + col`.
#[derive(Debug, Clone)]
pub struct Bitmap {
    pub pixels: Vec<Colour>,
}

/// The flat index of a pixel.
pub open spec fn pixel_index(row: int, col: int) -> int {
    row * 256 + col
}

impl Bitmap {
    /// A bitmap holds exactly one cell per dot of the visible grid.
    pub open spec fn wf(&self) -> bool {
        self.pixels@.len() == 61440
    }

    /// The cell at a visible coordinate.
    pub fn get(&self, row: usize, col: usize) -> (r: Colour)
        requires
            self.wf(),
            row < 240,
            col < 256,
        ensures
            r == self.pixels@[pixel_index(row as int, col as int)],
    {
        self.pixels[row * 256 + col]
    }

    /// Replace the cell at a visible coordinate.
    pub fn set(&mut self, row: usize, col: usize, c: Colour)
        requires
            old(self).wf(),
            row < 240,
            col < 256,
        ensures
            final(self).pixels@ == old(self).pixels@.update(
                pixel_index(row as int, col as int),
                c,
            ),
            final(self).wf(),
    {
        self.pixels.set(row * 256 + col, c);
    }
}

/// A frame with every cell at the default colour.
pub fn empty_bitmap() -> (r: Bitmap)
    ensures
        r.wf(),
        forall|k: int|
            0 <= k < 61440 ==> r.pixels@[k] == (Colour { red: 0, green: 0, blue: 0, alpha: 0 }),
{
    let mut pixels: Vec<Colour> = Vec::new();
    let mut j: usize = 0;
    while j < 61440
        invariant
            j <= 61440,
            pixels@.len() == j,
            forall|k: int|
                0 <= k < j ==> pixels@[k] == (Colour { red: 0, green: 0, blue: 0, alpha: 0 }),
        decreases 61440 - j,
    {
        pixels.push(Colour { red: 0, green: 0, blue: 0, alpha: 0 });
        j += 1;
    }
    Bitmap { pixels }
}

} // verus!
