//! How the presentable surface is configured.

use vstd::prelude::*;
use crate::renderer::Renderer;

verus! {

/// The number of frames that may be queued for presentation at once.
pub const FRAME_LATENCY: u32 = 2;

/// The configuration of the presentable surface. Formats, present modes and
/// alpha modes are named by their place in the lists that the adapter
/// reports for the surface.
#[derive(Clone, Copy, Debug, PartialEq, Eq, Structural)]
pub struct SurfaceConfig {
    /// The surface's width in pixels.
    pub width: u32,
    /// The surface's height in pixels.
    pub height: u32,
    /// The place of the presentation format among the reported formats.
    pub format: usize,
    /// The place of the present mode among the reported present modes.
    pub present_mode: usize,
    /// The place of the alpha mode among the reported alpha modes.
    pub alpha_mode: usize,
    /// The number of frames that may be in flight.
    pub desired_maximum_frame_latency: u32,
}

/// Whether `index` is the place of the preferred format in a list of formats
/// of which `srgb` tells, one by one, whether they are colour-correct for
/// display: the first colour-correct one, or the first of all where none is.
pub open spec fn is_preferred_format(srgb: Seq<bool>, index: int) -> bool {
    &&& 0 <= index < srgb.len()
    &&& forall|j: int| 0 <= j < index ==> !srgb[j]
    &&& srgb[index] || (index == 0 && forall|j: int| 0 <= j < srgb.len() ==> !srgb[j])
}

/// Picks the presentation format: the first colour-correct format that the
/// adapter reports, else the first format. `None` where it reports none.
pub fn choose_format(srgb: &[bool]) -> (choice: Option<usize>)
    ensures
        choice is None <==> srgb@.len() == 0,
        choice matches Some(index) ==> is_preferred_format(srgb@, index as int),
{
    if srgb.len() == 0 {
        return None;
    }
    let mut i: usize = 0;
    while i < srgb.len()
        invariant
            i <= srgb@.len(),
            forall|j: int| 0 <= j < i ==> !srgb@[j],
        decreases srgb@.len() - i,
    {
        if srgb[i] {
            return Some(i);
        }
        i += 1;
    }
    Some(0)
}

impl Renderer {
    /// The surface configuration for this grid, one pixel for each cell: the
    /// preferred format, the first present mode and the first alpha mode
    /// that are reported, and two frames in flight. `None` where no format
    /// is reported.
    pub fn configure_surface(&self, srgb: &[bool]) -> (config: Option<SurfaceConfig>)
        ensures
            config is None <==> srgb@.len() == 0,
            config matches Some(c) ==> {
                &&& c.width == self.width()
                &&& c.height == self.height()
                &&& is_preferred_format(srgb@, c.format as int)
                &&& c.present_mode == 0
                &&& c.alpha_mode == 0
                &&& c.desired_maximum_frame_latency == FRAME_LATENCY
            },
    {
        match choose_format(srgb) {
            Some(format) => Some(
                SurfaceConfig {
                    width: self.width(),
                    height: self.height(),
                    format,
                    present_mode: 0,
                    alpha_mode: 0,
                    desired_maximum_frame_latency: FRAME_LATENCY,
                },
            ),
            None => None,
        }
    }
}

/// The preferred format is unique: a list has one place that
/// `is_preferred_format` accepts.
pub proof fn lemma_preferred_format_is_unique(srgb: Seq<bool>, i: int, j: int)
    requires
        is_preferred_format(srgb, i),
        is_preferred_format(srgb, j),
    ensures
        i == j,
{
}

} // verus!
