//! The Display Stage: how cell values become pixels.

use vstd::prelude::*;
use crate::grid::Grid;
use crate::rule::DEAD;

verus! {

/// A colour with eight bits for each of red, green, blue and opacity.
#[derive(Clone, Copy, Debug, PartialEq, Eq, Structural)]
pub struct Rgba {
    pub r: u8,
    pub g: u8,
    pub b: u8,
    pub a: u8,
}

/// Opaque black: the colour of a dead cell, and the colour that a frame is
/// cleared to before it is drawn.
pub open spec fn black() -> Rgba {
    Rgba { r: 0, g: 0, b: 0, a: 255 }
}

/// Opaque white: the colour of a live cell.
pub open spec fn white() -> Rgba {
    Rgba { r: 255, g: 255, b: 255, a: 255 }
}

impl Rgba {
    /// Opaque black.
    pub fn black() -> (colour: Rgba)
        ensures
            colour == black(),
    {
        Rgba { r: 0, g: 0, b: 0, a: 255 }
    }

    /// Opaque white.
    pub fn white() -> (colour: Rgba)
        ensures
            colour == white(),
    {
        Rgba { r: 255, g: 255, b: 255, a: 255 }
    }
}

/// The colour of the pixel that shows a cell: black for a dead cell, white
/// for every other value, with nothing in between.
pub open spec fn cell_colour(value: u32) -> Rgba {
    if value == DEAD {
        black()
    } else {
        white()
    }
}

/// The colour of the pixel that shows a cell of the given value.
pub fn shade(value: u32) -> (colour: Rgba)
    ensures
        colour == cell_colour(value),
{
    if value == DEAD {
        Rgba::black()
    } else {
        Rgba::white()
    }
}

impl Grid {
    /// The image that the display stage makes of this generation: one pixel
    /// for each cell, row by row, in the cell's colour.
    pub fn rasterize(&self) -> (pixels: Vec<Rgba>)
        ensures
            pixels@ == self@.cells.map_values(|value: u32| cell_colour(value)),
    {
        let cells = self.cells();
        let mut pixels: Vec<Rgba> = Vec::with_capacity(cells.len());
        let mut i: usize = 0;
        while i < cells.len()
            invariant
                i <= cells@.len(),
                pixels@ == cells@.take(i as int).map_values(|value: u32| cell_colour(value)),
            decreases cells@.len() - i,
        {
            pixels.push(shade(cells[i]));
            i += 1;
            assert(cells@.take(i as int) == cells@.take(i - 1).push(cells@[i - 1]));
        }
        assert(cells@.take(i as int) == cells@);
        pixels
    }
}

} // verus!
