//! What the programs of the two stages declare as their inputs and outputs:
//! the slots at which resources are bound and the names of the entry points.

use vstd::prelude::*;

verus! {

/// The bind group that holds the resources of a stage.
pub const BIND_GROUP: u32 = 0;

/// Slot of the dimensions uniform in the simulation stage.
pub const DIMENSIONS_BINDING: u32 = 0;

/// Slot of the state texture that the simulation stage reads.
pub const SOURCE_BINDING: u32 = 1;

/// Slot of the state texture that the simulation stage writes.
pub const DESTINATION_BINDING: u32 = 2;

/// Slot of the state texture that the display stage reads.
pub const DISPLAY_BINDING: u32 = 0;

/// Entry point of the simulation stage's compute program.
pub const COMPUTE_ENTRY: &'static str = "main";

/// Entry point of the display stage's vertex program.
pub const VERTEX_ENTRY: &'static str = "vs_main";

/// Entry point of the display stage's fragment program.
pub const FRAGMENT_ENTRY: &'static str = "fs_main";

/// The three resources of the simulation stage are bound at three different
/// slots: what it reads and what it writes can never be one binding.
pub proof fn lemma_simulation_bindings_differ()
    ensures
        DIMENSIONS_BINDING != SOURCE_BINDING,
        DIMENSIONS_BINDING != DESTINATION_BINDING,
        SOURCE_BINDING != DESTINATION_BINDING,
{
}

} // verus!
