//! The three ways of reading the dataset, and the words each one uses.

use vstd::prelude::*;

verus! {

/// How many rows a preview shows.
pub const PREVIEW_ROWS: usize = 5;

/// The chunk size hint, in rows, of the chunked eager read.
pub const CHUNK_ROWS: usize = 2000;

/// Whether the dataset's first line names its columns. Every strategy reads it so.
pub const HAS_HEADER: bool = true;

/// A way of reading the dataset.
#[derive(Clone, Copy, Debug, PartialEq, Eq, Structural)]
pub enum Strategy {
    /// Plan a scan and materialise only the rows of the preview.
    LazyScan,
    /// Read the whole dataset at once, inferring the schema from every row.
    EagerPlain,
    /// Read the whole dataset at once, with a fixed chunk size hint.
    EagerChunked,
}

/// The step at which a run can fail.
#[derive(Clone, Copy, Debug, PartialEq, Eq, Structural)]
pub enum Stage {
    /// The dataset could not be opened.
    Open,
    /// The dataset was opened but could not be read as a table.
    Read,
    /// The table was read but the rows of the preview could not be selected.
    Select,
}

/// What a strategy asks of the engine, as plain values.
#[derive(Clone, Copy, Debug, PartialEq, Eq)]
pub enum ReadSettings {
    /// Plan a scan of the dataset and fetch no more than `rows` rows from it.
    Scan {
        /// Whether the first line names the columns.
        has_header: bool,
        /// The most rows to fetch.
        rows: usize,
    },
    /// Read the whole dataset and infer the schema from its first
    /// `schema_rows` rows, or from every row where that is `None`.
    Inferring {
        /// Whether the first line names the columns.
        has_header: bool,
        /// The rows to infer the schema from; `None` stands for all of them.
        schema_rows: Option<usize>,
    },
    /// Read the whole dataset with a chunk size hint of `chunk_rows` rows, the
    /// schema inferred as the engine does by itself.
    Chunked {
        /// Whether the first line names the columns.
        has_header: bool,
        /// The chunk size hint.
        chunk_rows: usize,
    },
}

impl Strategy {
    /// What the strategy asks of the engine: a header line always; the lazy
    /// scan [`PREVIEW_ROWS`] rows, the plain read a schema from every row, the
    /// chunked read chunks of [`CHUNK_ROWS`] rows.
    pub open spec fn reads_with(self) -> ReadSettings {
        match self {
            Strategy::LazyScan => (ReadSettings::Scan {
                has_header: HAS_HEADER,
                rows: PREVIEW_ROWS,
            }),
            Strategy::EagerPlain => (ReadSettings::Inferring {
                has_header: HAS_HEADER,
                schema_rows: None,
            }),
            Strategy::EagerChunked => (ReadSettings::Chunked {
                has_header: HAS_HEADER,
                chunk_rows: CHUNK_ROWS,
            }),
        }
    }

    /// Gives what the strategy asks of the engine.
    pub fn settings(self) -> (settings: ReadSettings)
        ensures
            settings == self.reads_with(),
    {
        match self {
            Strategy::LazyScan => ReadSettings::Scan { has_header: HAS_HEADER, rows: PREVIEW_ROWS },
            Strategy::EagerPlain => ReadSettings::Inferring {
                has_header: HAS_HEADER,
                schema_rows: None,
            },
            Strategy::EagerChunked => ReadSettings::Chunked {
                has_header: HAS_HEADER,
                chunk_rows: CHUNK_ROWS,
            },
        }
    }

    /// Whether the strategy puts off reading rows until they are asked for.
    pub open spec fn is_lazy(self) -> bool {
        self == Strategy::LazyScan
    }

    /// The line a run prints before it opens the dataset.
    pub open spec fn opening_line(self) -> Seq<char> {
        match self {
            Strategy::LazyScan => "Reading using lazy read"@,
            Strategy::EagerPlain => "Opening file for non-lazy read"@,
            Strategy::EagerChunked => "Dataframe read"@,
        }
    }

    /// The lines a run prints once the dataset is open, before it is read.
    pub open spec fn before_read(self) -> Seq<Seq<char>> {
        match self {
            Strategy::EagerPlain => seq!["Reading file using CsvReader"@],
            _ => Seq::empty(),
        }
    }

    /// The lines a run prints once the dataset has been read as a table.
    pub open spec fn after_read(self) -> Seq<Seq<char>> {
        match self {
            Strategy::EagerPlain => seq!["Dataframe read"@],
            _ => Seq::empty(),
        }
    }

    /// The words attached to a failure at `stage`.
    pub open spec fn diagnostic(self, stage: Stage) -> Seq<char> {
        match (self, stage) {
            (Strategy::LazyScan, _) => "Fetch failed"@,
            (Strategy::EagerPlain, Stage::Open) => "could not open file"@,
            (Strategy::EagerChunked, Stage::Open) => "Read failed"@,
            (_, _) => "Rows not available"@,
        }
    }

    /// Tells whether the strategy puts off reading rows until they are asked for.
    pub fn lazy(self) -> (lazy: bool)
        ensures
            lazy == self.is_lazy(),
    {
        match self {
            Strategy::LazyScan => true,
            _ => false,
        }
    }

    /// Gives the line a run prints before it opens the dataset.
    pub fn announce(self) -> (line: &'static str)
        ensures
            line@ == self.opening_line(),
    {
        match self {
            Strategy::LazyScan => "Reading using lazy read",
            Strategy::EagerPlain => "Opening file for non-lazy read",
            Strategy::EagerChunked => "Dataframe read",
        }
    }

    /// Gives the words attached to a failure at `stage`: what the process says
    /// when it gives up there.
    pub fn failure_words(self, stage: Stage) -> (words: &'static str)
        ensures
            words@ == self.diagnostic(stage),
    {
        match self {
            Strategy::LazyScan => "Fetch failed",
            Strategy::EagerPlain => match stage {
                Stage::Open => "could not open file",
                _ => "Rows not available",
            },
            Strategy::EagerChunked => match stage {
                Stage::Open => "Read failed",
                _ => "Rows not available",
            },
        }
    }
}

} // verus!
