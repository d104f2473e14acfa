//! Choosing the rows that a preview shows.

use crate::engine::frame_columns;
use crate::engine::frame_height;
use crate::engine::frame_rows;
use crate::engine::gathered;
use crate::engine::head_rows;
use crate::engine::take_rows;
use crate::failure::short_table_text;
use crate::failure::ReadError;
use crate::strategy::Stage;
use crate::strategy::PREVIEW_ROWS;
use polars::frame::DataFrame;
use vstd::prelude::*;

verus! {

/// The row indices `0, 1, ..., count - 1`.
pub open spec fn leading(count: nat) -> Seq<u32> {
    Seq::new(count, |i: int| i as u32)
}

/// Lists the first `count` row indices in rising order.
pub fn leading_indices(count: u32) -> (indices: Vec<u32>)
    ensures
        indices@ == leading(count as nat),
{
    let mut indices: Vec<u32> = Vec::new();
    let mut next: u32 = 0;
    while next < count
        invariant
            next <= count,
            indices@ == leading(next as nat),
        decreases count - next,
    {
        indices.push(next);
        next = next + 1;
        assert(indices@ =~= leading(next as nat));
    }
    indices
}

/// Selects the rows of a preview from a table by their indices, the first
/// [`PREVIEW_ROWS`] of them.
///
/// A table with fewer rows has no such selection: the result is then the
/// failure [`ReadError::too_short`] makes of its height. Otherwise the result
/// keeps the table's columns and holds its first rows, in their order. The
/// engine gathers rows by 32-bit indices; of a table with more rows than those
/// can count, it is asked for the head.
pub fn first_rows(table: &DataFrame) -> (selected: Result<DataFrame, ReadError>)
    ensures
        selected is Ok <==> frame_rows(*table).len() >= PREVIEW_ROWS,
        selected matches Ok(rows) ==> {
            &&& frame_columns(rows) == frame_columns(*table)
            &&& frame_rows(rows) == frame_rows(*table).subrange(0, PREVIEW_ROWS as int)
        },
        selected matches Err(error) ==> {
            &&& error.stage == Stage::Select
            &&& error.detail@ == short_table_text(frame_rows(*table).len())
        },
{
    let height = frame_height(table);
    if height < PREVIEW_ROWS {
        return Err(ReadError::too_short(height));
    }
    if height as u64 > u32::MAX as u64 {
        return Ok(head_rows(table, PREVIEW_ROWS));
    }
    let indices = leading_indices(PREVIEW_ROWS as u32);
    let taken = take_rows(table, &indices);
    proof {
        assert(gathered(frame_rows(*table), indices@) =~= frame_rows(*table).subrange(
            0,
            PREVIEW_ROWS as int,
        ));
    }
    match taken {
        Ok(rows) => Ok(rows),
        Err(cause) => Err(ReadError::reported(Stage::Select, &cause)),
    }
}

} // verus!
