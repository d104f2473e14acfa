//! The dataframe engine as this library sees it.
//!
//! Parsing CSV text, gathering rows and drawing a table are the work of the
//! `polars` crate. Nothing in this module is proved: each item states what the
//! rest of the library takes for granted about the engine. A frame is opaque
//! here; the contracts speak of it through [`frame_columns`] and
//! [`frame_rows`].
//!
//! The engine reports failures as values. Three settings in the environment
//! make it panic, and the contracts below describe it without them: with
//! `POLARS_PANIC_ON_ERR=1` it panics wherever it would make such a value;
//! reading CSV panics where `POLARS_FORCE_CSV_INFER_READ_SIZE` holds something
//! other than a whole number above zero; and drawing a frame panics where
//! `POLARS_TABLE_WIDTH` holds something other than a whole number, or one
//! above 65535.

use polars::datatypes::IdxCa;
use polars::datatypes::PlSmallStr;
use polars::error::PolarsError;
use polars::frame::DataFrame;
use polars::io::csv::read::CsvReadOptions;
use polars::io::SerReader;
use std::io::Cursor;
use std::time::Duration;
use std::time::Instant;
use vstd::prelude::*;

verus! {

/// An eagerly materialised table of the engine.
#[verifier::external_type_specification]
#[verifier::external_body]
pub struct ExDataFrame(polars::frame::DataFrame);

/// One column of a table. Nothing in this library reads one; the declaration
/// is there because the engine lets a frame be indexed by ranges of them.
#[verifier::external_type_specification]
#[verifier::external_body]
pub struct ExColumn(polars::frame::column::Column);

/// The engine's error value.
#[verifier::external_type_specification]
#[verifier::external_body]
pub struct ExPolarsError(polars::error::PolarsError);

/// A reading of the monotonic clock.
#[verifier::external_type_specification]
#[verifier::external_body]
pub struct ExInstant(std::time::Instant);

/// What one cell of a table holds.
pub enum Cell {
    /// A missing value.
    Null,
    /// A truth value.
    Boolean(bool),
    /// A whole number.
    Integer(int),
    /// A floating-point number, given by the bits of its 64-bit encoding.
    Float(u64),
    /// A piece of text.
    Text(Seq<char>),
}

/// The names of a frame's columns, left to right.
pub uninterp spec fn frame_columns(frame: DataFrame) -> Seq<Seq<char>>;

/// The rows of a frame, top to bottom; each row lists its cells left to right.
/// Its length is the frame's height.
pub uninterp spec fn frame_rows(frame: DataFrame) -> Seq<Seq<Cell>>;

/// The rows of `rows` found at `indices`, in the order of `indices`.
pub open spec fn gathered(rows: Seq<Seq<Cell>>, indices: Seq<u32>) -> Seq<Seq<Cell>>
    recommends
        forall|i: int| 0 <= i < indices.len() ==> (#[trigger] indices[i]) < rows.len(),
{
    Seq::new(indices.len(), |i: int| rows[indices[i] as int])
}

/// The first `limit` rows of `rows`, or all of them where there are fewer.
pub open spec fn leading_rows(rows: Seq<Seq<Cell>>, limit: nat) -> Seq<Seq<Cell>> {
    if rows.len() <= limit {
        rows
    } else {
        rows.subrange(0, limit as int)
    }
}

/// The most rows that the schema of a read may be inferred from when their
/// number is given. The engine sets room aside for that many lines before it
/// reads any, and a number it cannot set room aside for ends the process.
pub const SCHEMA_ROWS_LIMIT: usize = 0x10_0000;

/// `Instant::elapsed`: the time that has passed since the reading was taken.
/// Nothing is claimed of the amount.
pub assume_specification[ Instant::elapsed ](started: &Instant) -> Duration;

/// `Duration::as_millis`: the whole milliseconds in a duration. Nothing is
/// claimed of the amount beyond its type, which has no negative values.
pub assume_specification[ Duration::as_millis ](span: &Duration) -> u128;

/// `CsvReadOptions::default`, `with_infer_schema_length`, `with_has_header`,
/// `into_reader_with_file_handle` on a `Cursor` over the bytes, and
/// `CsvReader::finish`: reads the bytes as one table, the schema inferred from
/// the first `schema_rows` rows, or from all of them where that is `None`.
///
/// A number of rows above [`SCHEMA_ROWS_LIMIT`] is kept out. The outcome
/// follows the settings, the bytes and the engine's thread pool; nothing is
/// claimed of it, nor that the engine answers every byte string.
#[verifier::external_body]
pub(crate) fn read_csv_inferring(
    has_header: bool,
    schema_rows: Option<usize>,
    bytes: &Vec<u8>,
) -> (read: Result<DataFrame, PolarsError>)
    requires
        schema_rows matches Some(rows) ==> rows <= SCHEMA_ROWS_LIMIT,
{
    CsvReadOptions::default()
        .with_infer_schema_length(schema_rows)
        .with_has_header(has_header)
        .into_reader_with_file_handle(Cursor::new(bytes.as_slice()))
        .finish()
}

/// `CsvReadOptions::default`, `with_chunk_size`, `with_has_header`,
/// `into_reader_with_file_handle` on a `Cursor` over the bytes, and
/// `CsvReader::finish`: reads the bytes as one table, with a chunk size hint.
///
/// The outcome follows the settings, the bytes and the engine's thread pool;
/// nothing is claimed of it, nor that the engine answers every byte string.
#[verifier::external_body]
pub(crate) fn read_csv_chunked(has_header: bool, chunk_rows: usize, bytes: &Vec<u8>) -> (read:
    Result<DataFrame, PolarsError>) {
    CsvReadOptions::default()
        .with_chunk_size(chunk_rows)
        .with_has_header(has_header)
        .into_reader_with_file_handle(Cursor::new(bytes.as_slice()))
        .finish()
}

/// `DataFrame::height`.
///
/// Claimed: the height is the number of rows that [`frame_rows`] lists.
#[verifier::external_body]
pub(crate) fn frame_height(frame: &DataFrame) -> (height: usize)
    ensures
        height == frame_rows(*frame).len(),
{
    frame.height()
}

/// `DataFrame::take` on an index array made of `indices`.
///
/// The engine refuses an index that is not below the frame's height, and it
/// counts rows in 32 bits where it compares the two; an index out of bounds
/// and a frame of more than `u32::MAX` rows are both kept out here. Claimed:
/// the call then succeeds, and the new frame has the columns of the old one
/// and, row for row, the rows found at `indices`.
#[verifier::external_body]
pub(crate) fn take_rows(frame: &DataFrame, indices: &Vec<u32>) -> (taken: Result<
    DataFrame,
    PolarsError,
>)
    requires
        frame_rows(*frame).len() <= u32::MAX,
        forall|i: int|
            0 <= i < indices@.len() ==> (#[trigger] indices@[i]) < frame_rows(*frame).len(),
    ensures
        taken is Ok,
        taken matches Ok(chosen) ==> frame_columns(chosen) == frame_columns(*frame),
        taken matches Ok(chosen) ==> frame_rows(chosen) == gathered(frame_rows(*frame), indices@),
{
    frame.take(&IdxCa::from_vec(PlSmallStr::EMPTY, indices.clone()))
}

/// `DataFrame::head` with a length of `limit`.
///
/// Claimed: the new frame has the columns of the old one and its first `limit`
/// rows, or all of them where it has fewer.
#[verifier::external_body]
pub(crate) fn head_rows(frame: &DataFrame, limit: usize) -> (head: DataFrame)
    ensures
        frame_columns(head) == frame_columns(*frame),
        frame_rows(head) == leading_rows(frame_rows(*frame), limit as nat),
{
    frame.head(Some(limit))
}

/// The frame as its `Debug` impl draws it. The drawing follows formatting
/// settings in the environment, so nothing is claimed of the text; the module
/// comment names the one setting that makes the call panic.
#[verifier::external_body]
pub(crate) fn draw_frame(frame: &DataFrame) -> (text: String) {
    format!("{:?}", frame)
}

/// The error as its `Debug` impl writes it. Nothing is claimed of the text.
#[verifier::external_body]
pub(crate) fn describe_error(error: &PolarsError) -> (text: String) {
    format!("{:?}", error)
}

} // verus!
