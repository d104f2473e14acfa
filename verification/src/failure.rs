//! How a run fails.

use crate::engine::describe_error;
use crate::report::decimal;
use crate::report::render_decimal;
use crate::strategy::Stage;
use crate::strategy::PREVIEW_ROWS;
use polars::error::PolarsError;
use vstd::prelude::*;
use vstd::string::StringExecFns;

verus! {

/// A failure that ends a run.
#[derive(Debug)]
pub struct ReadError {
    /// The step that failed.
    pub stage: Stage,
    /// What the party that failed said about it.
    pub detail: String,
}

/// What is said of a table of `height` rows that is too short to preview.
pub open spec fn short_table_text(height: nat) -> Seq<char> {
    decimal(height) + " of "@ + decimal(PREVIEW_ROWS as nat) + " rows"@
}

impl ReadError {
    /// The failure to select the rows of a preview from a table that has only
    /// `height` rows.
    pub fn too_short(height: usize) -> (error: ReadError)
        ensures
            error.stage == Stage::Select,
            error.detail@ == short_table_text(height as nat),
    {
        let detail = render_decimal(height as u128).concat(" of ").concat(
            render_decimal(PREVIEW_ROWS as u128).as_str(),
        ).concat(" rows");
        ReadError { stage: Stage::Select, detail }
    }

    /// The failure to open the dataset, with the reason given for it.
    pub fn unopened(reason: String) -> (error: ReadError)
        ensures
            error.stage == Stage::Open,
            error.detail == reason,
    {
        ReadError { stage: Stage::Open, detail: reason }
    }

    /// A failure that the engine reported at `stage`.
    pub fn reported(stage: Stage, cause: &PolarsError) -> (error: ReadError)
        ensures
            error.stage == stage,
    {
        ReadError { stage, detail: describe_error(cause) }
    }
}

} // verus!
