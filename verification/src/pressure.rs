//! The two halves of the pressure buffer.
//!
//! The buffer holds the pressure of every grid cell twice. A flag tells the compute shader
//! which half is which, and the half that it is going to write is cleared before it runs.

use vstd::prelude::*;

verus! {

/// A range of cells in the pressure buffer, from `start` up to but not including `end`.
#[derive(Clone, Copy, Debug, PartialEq, Eq, Structural)]
pub struct CellRange {
    pub start: u64,
    pub end: u64,
}

impl CellRange {
    /// The cell at `index` lies in the range.
    pub open spec fn contains(self, index: int) -> bool {
        self.start <= index < self.end
    }
}

/// A grid of this many cells can be held twice in one buffer.
pub open spec fn grid_fits(cells: u64) -> bool {
    cells * 2 <= u64::MAX
}

/// The length of the pressure buffer for a grid of `cells` cells.
pub fn pressure_buffer_len(cells: u64) -> (len: u64)
    requires
        grid_fits(cells),
    ensures
        len == cells * 2,
{
    cells * 2
}

/// The half that is cleared before a frame: the first one if the flag is set, otherwise the
/// second one.
pub open spec fn destination_half(which_pressure_buffer: bool, cells: u64) -> CellRange {
    if which_pressure_buffer {
        CellRange { start: 0, end: cells }
    } else {
        CellRange { start: cells, end: (cells * 2) as u64 }
    }
}

/// The range of cells to clear before the compute shader runs.
pub fn pressure_dst_range(which_pressure_buffer: bool, cells: u64) -> (range: CellRange)
    requires
        grid_fits(cells),
    ensures
        range == destination_half(which_pressure_buffer, cells),
{
    if which_pressure_buffer {
        CellRange { start: 0, end: cells }
    } else {
        CellRange { start: cells, end: cells * 2 }
    }
}

/// The flag as the compute shader reads it.
pub open spec fn flag_uniform(which_pressure_buffer: bool) -> u32 {
    if which_pressure_buffer {
        1
    } else {
        0
    }
}

/// The value of the compute shader's uniform for the flag.
pub fn which_pressure_buffer_uniform(which_pressure_buffer: bool) -> (uniform: u32)
    ensures
        uniform == flag_uniform(which_pressure_buffer),
{
    if which_pressure_buffer {
        1
    } else {
        0
    }
}

/// The cleared range always lies within the pressure buffer and holds the pressure of each grid
/// cell once.
pub proof fn law_cleared_half_fits_the_buffer(which_pressure_buffer: bool, cells: u64)
    requires
        grid_fits(cells),
    ensures
        ({
            let half = destination_half(which_pressure_buffer, cells);
            &&& half.start <= half.end <= cells * 2
            &&& half.end - half.start == cells
        }),
{
}

/// The two values of the flag clear different halves: every cell of the buffer is cleared for
/// one of them and kept for the other.
pub proof fn law_halves_share_the_buffer(cells: u64, index: int)
    requires
        grid_fits(cells),
        0 <= index < cells * 2,
    ensures
        destination_half(true, cells).contains(index) != destination_half(false, cells).contains(
            index,
        ),
{
}

/// With the flag set the first half is cleared and the shader is told 1; otherwise the second
/// half is cleared and the shader is told 0.
pub proof fn law_flag(cells: u64)
    requires
        cells <= u64::MAX / 2,
    ensures
        destination_half(true, cells).start == 0,
        destination_half(true, cells).end == cells,
        destination_half(false, cells).start == cells,
        destination_half(false, cells).end - cells == cells,
        flag_uniform(true) == 1,
        flag_uniform(false) == 0,
{
}

/// Every grid fits whose two copies can be counted.
pub proof fn law_grid_fits(cells: u64)
    ensures
        grid_fits(cells) <==> cells <= 0x7fff_ffff_ffff_ffff,
{
}

} // verus!
