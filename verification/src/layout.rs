//! Sizes and byte layouts shared by the staging upload and the compute
//! dispatch.

use vstd::prelude::*;

verus! {

/// Bytes taken by one cell of a state texture: a single unsigned 32-bit value.
pub const BYTES_PER_CELL: u32 = 4;

/// Alignment, in bytes, of each row of a buffer that is copied into a texture.
pub const ROW_ALIGNMENT: u32 = 256;

/// Edge length of the square work group that the simulation stage runs with.
pub const WORKGROUP_SIZE: u32 = 8;

/// The least multiple of `ROW_ALIGNMENT` that holds one row of `width` cells.
pub open spec fn row_pitch(width: int) -> int {
    (BYTES_PER_CELL * width + (ROW_ALIGNMENT - 1)) / (ROW_ALIGNMENT as int) * ROW_ALIGNMENT
}

/// The least number of work groups of `WORKGROUP_SIZE` items that cover
/// `cells` cells along one axis.
pub open spec fn groups_needed(cells: int) -> int {
    (cells + (WORKGROUP_SIZE - 1)) / (WORKGROUP_SIZE as int)
}

/// The row pitch of a texture row of `width` cells, rounded up to the copy
/// alignment.
pub fn padded_bytes_per_row(width: u32) -> (pitch: u32)
    requires
        BYTES_PER_CELL * width + (ROW_ALIGNMENT - 1) <= u32::MAX,
    ensures
        pitch == row_pitch(width as int),
        pitch % ROW_ALIGNMENT == 0,
        BYTES_PER_CELL * width <= pitch < BYTES_PER_CELL * width + ROW_ALIGNMENT,
{
    (BYTES_PER_CELL * width + (ROW_ALIGNMENT - 1)) / ROW_ALIGNMENT * ROW_ALIGNMENT
}

/// The number of work groups to dispatch along an axis of `cells` cells:
/// `cells / WORKGROUP_SIZE`, rounded up.
pub fn workgroup_count(cells: u32) -> (groups: u32)
    ensures
        groups == groups_needed(cells as int),
        (groups - 1) * WORKGROUP_SIZE < cells <= groups * WORKGROUP_SIZE,
{
    let whole: u32 = cells / WORKGROUP_SIZE;
    if cells % WORKGROUP_SIZE == 0 {
        whole
    } else {
        whole + 1
    }
}

/// The cell along an axis that work item `item` of work group `group`
/// computes.
pub open spec fn item_cell(group: int, item: int) -> int {
    group * WORKGROUP_SIZE + item
}

/// Every cell of an axis is computed by exactly one work item of the
/// dispatch: item `cell % WORKGROUP_SIZE` of group `cell / WORKGROUP_SIZE`,
/// which is one of the groups dispatched. One group fewer would leave the
/// last cell out.
pub proof fn lemma_dispatch_covers_axis(cells: int, cell: int)
    requires
        0 <= cell < cells,
    ensures
        0 <= cell / (WORKGROUP_SIZE as int) < groups_needed(cells),
        0 <= cell % (WORKGROUP_SIZE as int) < WORKGROUP_SIZE,
        item_cell(cell / (WORKGROUP_SIZE as int), cell % (WORKGROUP_SIZE as int)) == cell,
        forall|group: int, item: int|
            0 <= item < WORKGROUP_SIZE && #[trigger] item_cell(group, item) == cell ==> group
                == cell / (WORKGROUP_SIZE as int) && item == cell % (WORKGROUP_SIZE as int),
        (groups_needed(cells) - 1) * WORKGROUP_SIZE < cells,
{
}

} // verus!
