//! The configured simulation grid.

use vstd::prelude::*;
use crate::layout::{padded_bytes_per_row, row_pitch, BYTES_PER_CELL, ROW_ALIGNMENT};

verus! {

/// Whether a grid of `width` by `height` cells can be simulated: both sides
/// are positive, the cell count fits the 32-bit counter of the seeding loop,
/// the padded row pitch fits the 32-bit field of a texture copy, and the
/// staging buffer, one pitch for each row, has a length that the machine can
/// count.
pub open spec fn valid_dimensions(width: u32, height: u32) -> bool {
    &&& 0 < width
    &&& 0 < height
    &&& width * height <= u32::MAX
    &&& BYTES_PER_CELL * width + (ROW_ALIGNMENT - 1) <= u32::MAX
    &&& height * row_pitch(width as int) <= usize::MAX
}

/// A simulation grid of fixed width and height, in cells.
#[derive(Clone, Copy, Debug)]
pub struct Renderer {
    width: u32,
    height: u32,
}

impl Renderer {
    #[verifier::type_invariant]
    spec fn inv(self) -> bool {
        valid_dimensions(self.width, self.height)
    }

    /// The grid's width in cells.
    pub closed spec fn spec_width(&self) -> u32 {
        self.width
    }

    /// The grid's height in cells.
    pub closed spec fn spec_height(&self) -> u32 {
        self.height
    }

    /// What holds of every renderer that `new` has made.
    pub open spec fn wf(&self) -> bool {
        valid_dimensions(self.width(), self.height())
    }

    /// Tells whether `new` accepts a grid of this size.
    pub fn supports(width: u32, height: u32) -> (ok: bool)
        ensures
            ok == valid_dimensions(width, height),
    {
        if width == 0 || height == 0 {
            return false;
        }
        if width > (u32::MAX - (ROW_ALIGNMENT - 1)) / BYTES_PER_CELL {
            return false;
        }
        if width.checked_mul(height).is_none() {
            return false;
        }
        let pitch = padded_bytes_per_row(width);
        assert(height * pitch <= u64::MAX) by (nonlinear_arith)
            requires
                height <= u32::MAX,
                pitch <= u32::MAX,
        ;
        (height as u64) * (pitch as u64) <= usize::MAX as u64
    }

    /// A renderer for a grid of `width` by `height` cells.
    pub fn new(width: u32, height: u32) -> (renderer: Self)
        requires
            valid_dimensions(width, height),
        ensures
            renderer.width() == width,
            renderer.height() == height,
            renderer.wf(),
    {
        Self { width, height }
    }

    /// The grid's width in cells.
    #[verifier::when_used_as_spec(spec_width)]
    pub fn width(&self) -> (width: u32)
        ensures
            width == self.spec_width(),
            self.wf(),
    {
        proof {
            use_type_invariant(self);
        }
        self.width
    }

    /// The grid's height in cells.
    #[verifier::when_used_as_spec(spec_height)]
    pub fn height(&self) -> (height: u32)
        ensures
            height == self.spec_height(),
            self.wf(),
    {
        proof {
            use_type_invariant(self);
        }
        self.height
    }

    /// The number of cells in the grid.
    pub fn cell_count(&self) -> (cells: u32)
        ensures
            cells == self.width() * self.height(),
            cells > 0,
    {
        proof {
            use_type_invariant(self);
            assert(self.width * self.height > 0) by (nonlinear_arith)
                requires
                    self.width > 0,
                    self.height > 0,
            ;
        }
        self.width * self.height
    }
}

} // verus!
