//! One run of a strategy: what it found, and what it prints.

use crate::engine::draw_frame;
use crate::engine::frame_columns;
use crate::engine::frame_rows;
use crate::engine::head_rows;
use crate::engine::leading_rows;
use crate::engine::read_csv_chunked;
use crate::engine::read_csv_inferring;
use crate::engine::SCHEMA_ROWS_LIMIT;
use crate::failure::short_table_text;
use crate::failure::ReadError;
use crate::preview::first_rows;
use crate::report::elapsed_line;
use crate::report::elapsed_text;
use crate::report::shown_line;
use crate::report::shown_text;
use crate::strategy::ReadSettings;
use crate::strategy::Stage;
use crate::strategy::Strategy;
use crate::strategy::PREVIEW_ROWS;
use polars::error::PolarsError;
use polars::frame::DataFrame;
use std::time::Instant;
use vstd::pervasive::unreached;
use vstd::prelude::*;
use vstd::string::StringExecFns;

verus! {

/// The rows a run shows.
pub struct Preview {
    /// The rows themselves.
    pub frame: DataFrame,
    /// The rows as the engine draws them.
    pub drawing: String,
}

/// The record of one run.
pub struct Run {
    /// The strategy that ran.
    pub strategy: Strategy,
    /// The clock reading in milliseconds, if the run came to read the clock.
    pub elapsed_ms: Option<u128>,
    /// The rows shown, if the run came to show any.
    pub preview: Option<Preview>,
    /// The failure that ended the run, if one did.
    pub failure: Option<ReadError>,
}

/// The texts of a list of lines.
pub open spec fn texts(lines: Seq<String>) -> Seq<Seq<char>> {
    Seq::new(lines.len(), |i: int| lines[i]@)
}

impl Run {
    /// Whether the run ended in a failure at `stage`.
    pub open spec fn failed_at(self, stage: Stage) -> bool {
        self.failure matches Some(error) && error.stage == stage
    }

    /// Whether the run got past opening the dataset.
    pub open spec fn opened(self) -> bool {
        !self.failed_at(Stage::Open)
    }

    /// Whether the run got a table out of the dataset.
    pub open spec fn got_table(self) -> bool {
        self.opened() && !self.failed_at(Stage::Read)
    }

    /// The line that reports the elapsed time, if the clock was read.
    pub open spec fn elapsed_part(self) -> Seq<Seq<char>> {
        match self.elapsed_ms {
            Some(millis) => seq![elapsed_text(millis as nat)],
            None => Seq::empty(),
        }
    }

    /// The line that shows the preview, if there is one.
    pub open spec fn shown_part(self) -> Seq<Seq<char>> {
        match self.preview {
            Some(preview) => seq![shown_text(preview.drawing@)],
            None => Seq::empty(),
        }
    }

    /// The lines printed between opening the dataset and hearing from the
    /// engine, if the run got that far.
    pub open spec fn before_read_part(self) -> Seq<Seq<char>> {
        if self.opened() {
            self.strategy.before_read()
        } else {
            Seq::empty()
        }
    }

    /// The lines printed on getting a table, if the run got one.
    pub open spec fn after_read_part(self) -> Seq<Seq<char>> {
        if self.got_table() {
            self.strategy.after_read()
        } else {
            Seq::empty()
        }
    }

    /// Everything the run prints, line by line. A lazy run shows its rows and
    /// then the elapsed time; an eager run reports the time first.
    pub open spec fn lines(self) -> Seq<Seq<char>> {
        let head = seq![self.strategy.opening_line()] + self.before_read_part()
            + self.after_read_part();
        if self.strategy.is_lazy() {
            head + self.shown_part() + self.elapsed_part()
        } else {
            head + self.elapsed_part() + self.shown_part()
        }
    }

    /// What the process says when the run has failed: the strategy's words for
    /// the failed step, a colon, and the detail.
    pub open spec fn complaint(self) -> Option<Seq<char>> {
        match self.failure {
            Some(error) => Some(self.strategy.diagnostic(error.stage) + ": "@ + error.detail@),
            None => None,
        }
    }

    /// A run is coherent when it either failed or shows rows, never both, and
    /// read the clock exactly where its strategy reads it: a lazy run after
    /// showing its rows, an eager run once it has got a table.
    pub open spec fn coherent(self) -> bool {
        &&& self.failure is None <==> self.preview is Some
        &&& self.elapsed_ms is Some <==> if self.strategy.is_lazy() {
            self.failure is None
        } else {
            self.got_table()
        }
    }

    /// The run that failed to open its dataset.
    pub fn unopened(strategy: Strategy, reason: String) -> (run: Run)
        ensures
            run.strategy == strategy,
            run.coherent(),
            run.failed_at(Stage::Open),
            run.failure matches Some(error) && error.detail == reason,
            run.lines() == seq![strategy.opening_line()],
    {
        let run = Run {
            strategy,
            elapsed_ms: None,
            preview: None,
            failure: Some(ReadError::unopened(reason)),
        };
        assert(run.lines() =~= seq![strategy.opening_line()]);
        run
    }

    /// Lists everything the run prints, line by line.
    pub fn output(&self) -> (printed: Vec<String>)
        ensures
            printed@.len() == self.lines().len(),
            texts(printed@) == self.lines(),
    {
        let mut printed: Vec<String> = Vec::new();
        printed.push(String::from_str(self.strategy.announce()));
        assert(texts(printed@) =~= seq![self.strategy.opening_line()]);
        let (opened, got_table) = match &self.failure {
            Some(error) => match error.stage {
                Stage::Open => (false, false),
                Stage::Read => (true, false),
                Stage::Select => (true, true),
            },
            None => (true, true),
        };
        match self.strategy {
            Strategy::EagerPlain => {
                if opened {
                    printed.push(String::from_str("Reading file using CsvReader"));
                }
                if got_table {
                    printed.push(String::from_str("Dataframe read"));
                }
            },
            _ => {},
        }
        assert(texts(printed@) =~= seq![self.strategy.opening_line()] + self.before_read_part()
            + self.after_read_part());
        if self.strategy.lazy() {
            self.push_shown(&mut printed);
            self.push_elapsed(&mut printed);
        } else {
            self.push_elapsed(&mut printed);
            self.push_shown(&mut printed);
        }
        printed
    }

    fn push_elapsed(&self, printed: &mut Vec<String>)
        ensures
            texts(final(printed)@) == texts(old(printed)@) + self.elapsed_part(),
    {
        match self.elapsed_ms {
            Some(millis) => {
                printed.push(elapsed_line(millis));
            },
            None => {},
        }
        assert(texts(printed@) =~= texts(old(printed)@) + self.elapsed_part());
    }

    fn push_shown(&self, printed: &mut Vec<String>)
        ensures
            texts(final(printed)@) == texts(old(printed)@) + self.shown_part(),
    {
        match &self.preview {
            Some(preview) => {
                printed.push(shown_line(preview.drawing.as_str()));
            },
            None => {},
        }
        assert(texts(printed@) =~= texts(old(printed)@) + self.shown_part());
    }

    /// Tells what the process says when the run has failed, and nothing when
    /// it has not.
    pub fn failure_message(&self) -> (message: Option<String>)
        ensures
            message is Some <==> self.failure is Some,
            message matches Some(text) ==> Some(text@) == self.complaint(),
    {
        match &self.failure {
            Some(error) => {
                let words = String::from_str(self.strategy.failure_words(error.stage));
                Some(words.concat(": ").concat(error.detail.as_str()))
            },
            None => None,
        }
    }
}

/// Ends an eager run once the engine has answered. `elapsed_ms` is the clock
/// reading taken at that moment; a run that got no table does not report it.
///
/// A read that failed ends the run at [`Stage::Read`], with nothing printed
/// after it. A table with at least [`PREVIEW_ROWS`] rows is previewed by its
/// first rows; a shorter one ends the run at [`Stage::Select`].
pub fn settle_eager(strategy: Strategy, read: Result<DataFrame, PolarsError>, elapsed_ms: u128) -> (run:
    Run)
    requires
        !strategy.is_lazy(),
    ensures
        run.strategy == strategy,
        run.coherent(),
        match read {
            Err(_) => run.failed_at(Stage::Read) && run.elapsed_ms is None && run.lines() == seq![
                strategy.opening_line(),
            ] + strategy.before_read(),
            Ok(table) => run.elapsed_ms == Some(elapsed_ms) && if frame_rows(table).len()
                >= PREVIEW_ROWS {
                run.preview matches Some(preview) && frame_columns(preview.frame) == frame_columns(
                    table,
                ) && frame_rows(preview.frame) == frame_rows(table).subrange(
                    0,
                    PREVIEW_ROWS as int,
                )
            } else {
                run.failure matches Some(error) && error.stage == Stage::Select && error.detail@
                    == short_table_text(frame_rows(table).len())
            },
        },
{
    match read {
        Err(cause) => {
            let run = Run {
                strategy,
                elapsed_ms: None,
                preview: None,
                failure: Some(ReadError::reported(Stage::Read, &cause)),
            };
            assert(run.lines() =~= seq![strategy.opening_line()] + strategy.before_read());
            run
        },
        Ok(table) => match first_rows(&table) {
            Ok(frame) => {
                let drawing = draw_frame(&frame);
                Run {
                    strategy,
                    elapsed_ms: Some(elapsed_ms),
                    preview: Some(Preview { frame, drawing }),
                    failure: None,
                }
            },
            Err(error) => Run {
                strategy,
                elapsed_ms: Some(elapsed_ms),
                preview: None,
                failure: Some(error),
            },
        },
    }
}

/// Asks the engine for the table in `bytes`, as `settings` say.
fn read_table(settings: ReadSettings, bytes: &Vec<u8>) -> (read: Result<DataFrame, PolarsError>)
    requires
        !(settings is Scan),
        settings matches ReadSettings::Inferring { schema_rows: Some(rows), .. } ==> rows
            <= SCHEMA_ROWS_LIMIT,
{
    match settings {
        ReadSettings::Inferring { has_header, schema_rows } => read_csv_inferring(
            has_header,
            schema_rows,
            bytes,
        ),
        ReadSettings::Chunked { has_header, chunk_rows } => read_csv_chunked(
            has_header,
            chunk_rows,
            bytes,
        ),
        ReadSettings::Scan { .. } => unreached(),
    }
}

/// Runs an eager strategy on the outcome of opening the dataset.
fn read_eager(strategy: Strategy, started: Instant, opened: Result<Vec<u8>, String>) -> (run: Run)
    requires
        !strategy.is_lazy(),
    ensures
        run.strategy == strategy,
        run.coherent(),
        opened is Err <==> run.failed_at(Stage::Open),
        opened matches Err(reason) ==> run.failure matches Some(error) && error.detail == reason
            && run.lines() == seq![strategy.opening_line()],
        run.failed_at(Stage::Read) ==> run.lines() == seq![strategy.opening_line()]
            + strategy.before_read(),
        run.preview matches Some(preview) ==> frame_rows(preview.frame).len() == PREVIEW_ROWS,
{
    match opened {
        Err(reason) => Run::unopened(strategy, reason),
        Ok(bytes) => {
            let read = read_table(strategy.settings(), &bytes);
            let elapsed_ms = started.elapsed().as_millis();
            settle_eager(strategy, read, elapsed_ms)
        },
    }
}

/// Runs the lazy strategy on what the scan came to: the failure to plan it,
/// or else what fetching from it gave, rows or a failure. `started` is the
/// clock reading the elapsed time counts from.
///
/// A scan that could not be planned ends the run at [`Stage::Read`], one that
/// gave no rows at [`Stage::Select`], both before the clock is read. Rows are
/// shown up to the first [`PREVIEW_ROWS`] of them, and the clock is read after
/// they have been drawn.
pub fn read_lazy(started: Instant, scanned: Result<Result<DataFrame, PolarsError>, PolarsError>) -> (run:
    Run)
    ensures
        run.strategy == Strategy::LazyScan,
        run.coherent(),
        match scanned {
            Err(_) => run.failed_at(Stage::Read),
            Ok(Err(_)) => run.failed_at(Stage::Select),
            Ok(Ok(rows)) => run.preview matches Some(preview) && frame_columns(preview.frame)
                == frame_columns(rows) && frame_rows(preview.frame) == leading_rows(
                frame_rows(rows),
                PREVIEW_ROWS as nat,
            ),
        },
        run.failure is Some ==> run.lines() == seq![Strategy::LazyScan.opening_line()],
{
    let fetched = match scanned {
        Err(cause) => Err(ReadError::reported(Stage::Read, &cause)),
        Ok(Err(cause)) => Err(ReadError::reported(Stage::Select, &cause)),
        Ok(Ok(rows)) => Ok(rows),
    };
    match fetched {
        Err(error) => {
            let run = Run {
                strategy: Strategy::LazyScan,
                elapsed_ms: None,
                preview: None,
                failure: Some(error),
            };
            assert(run.lines() =~= seq![Strategy::LazyScan.opening_line()]);
            run
        },
        Ok(rows) => {
            let frame = head_rows(&rows, PREVIEW_ROWS);
            let drawing = draw_frame(&frame);
            let elapsed_ms = started.elapsed().as_millis();
            Run {
                strategy: Strategy::LazyScan,
                elapsed_ms: Some(elapsed_ms),
                preview: Some(Preview { frame, drawing }),
                failure: None,
            }
        },
    }
}

/// Runs the plain eager strategy on the outcome of opening the dataset: its
/// bytes, or the reason why it could not be opened. `started` is the clock
/// reading the elapsed time counts from.
///
/// The engine is asked for the table in the bytes as
/// [`Strategy::reads_with`] says of this strategy: with a header line and a
/// schema inferred from every row. The clock is read as soon as the engine
/// has answered, and the run ends as [`settle_eager`] says. What the engine
/// answers is its own matter; whatever it is, the run is coherent, fails at
/// opening exactly when the dataset was not opened, prints nothing after a
/// step that failed, and a preview has exactly [`PREVIEW_ROWS`] rows.
pub fn read_normal(started: Instant, opened: Result<Vec<u8>, String>) -> (run: Run)
    ensures
        run.strategy == Strategy::EagerPlain,
        run.coherent(),
        opened is Err <==> run.failed_at(Stage::Open),
        opened matches Err(reason) ==> run.failure matches Some(error) && error.detail == reason
            && run.lines() == seq![Strategy::EagerPlain.opening_line()],
        run.failed_at(Stage::Read) ==> run.lines() == seq![Strategy::EagerPlain.opening_line()]
            + Strategy::EagerPlain.before_read(),
        run.preview matches Some(preview) ==> frame_rows(preview.frame).len() == PREVIEW_ROWS,
{
    read_eager(Strategy::EagerPlain, started, opened)
}

/// Runs the chunked eager strategy on the outcome of opening the dataset: its
/// bytes, or the reason why it could not be opened. `started` is the clock
/// reading the elapsed time counts from.
///
/// The engine is asked for the table in the bytes as
/// [`Strategy::reads_with`] says of this strategy: with a header line and a
/// chunk size hint of [`CHUNK_ROWS`](crate::strategy::CHUNK_ROWS) rows. The
/// clock is read as soon as the engine has answered, and the run ends as
/// [`settle_eager`] says. What the engine answers is its own matter; whatever
/// it is, the run is coherent, fails at opening exactly when the dataset was
/// not opened, prints nothing after a step that failed, and a preview has
/// exactly [`PREVIEW_ROWS`] rows.
pub fn read_normal_faster_maybe(started: Instant, opened: Result<Vec<u8>, String>) -> (run: Run)
    ensures
        run.strategy == Strategy::EagerChunked,
        run.coherent(),
        opened is Err <==> run.failed_at(Stage::Open),
        opened matches Err(reason) ==> run.failure matches Some(error) && error.detail == reason
            && run.lines() == seq![Strategy::EagerChunked.opening_line()],
        run.failed_at(Stage::Read) ==> run.lines() == seq![Strategy::EagerChunked.opening_line()],
        run.preview matches Some(preview) ==> frame_rows(preview.frame).len() == PREVIEW_ROWS,
{
    let run = read_eager(Strategy::EagerChunked, started, opened);
    assert(seq![Strategy::EagerChunked.opening_line()] + Strategy::EagerChunked.before_read()
        =~= seq![Strategy::EagerChunked.opening_line()]);
    run
}

/// A coherent run that failed stops at the step that failed: it shows no
/// rows, has something to complain of, and printed only what comes before
/// that step. A failure to open leaves the opening line alone; a failed read
/// adds the lines before the read, and no clock reading; a failed selection
/// in an eager run comes after the table was got and the clock read.
pub proof fn lemma_failed_run_stops(run: Run)
    requires
        run.coherent(),
        run.failure is Some,
    ensures
        run.shown_part() == Seq::<Seq<char>>::empty(),
        run.complaint() is Some,
        run.failed_at(Stage::Open) ==> run.lines() == seq![run.strategy.opening_line()],
        run.failed_at(Stage::Read) ==> run.elapsed_ms is None && run.lines() == seq![
            run.strategy.opening_line(),
        ] + run.strategy.before_read(),
        run.strategy.is_lazy() ==> run.lines() == seq![run.strategy.opening_line()],
        !run.strategy.is_lazy() && run.failed_at(Stage::Select) ==> run.elapsed_part().len() == 1
            && run.lines() == seq![run.strategy.opening_line()] + run.strategy.before_read()
            + run.strategy.after_read() + run.elapsed_part(),
{
    assert(run.lines() =~= seq![run.strategy.opening_line()] + run.before_read_part()
        + run.after_read_part() + run.elapsed_part());
    if run.strategy.is_lazy() {
        assert(run.lines() =~= seq![run.strategy.opening_line()]);
    }
    if run.failed_at(Stage::Open) {
        assert(run.lines() =~= seq![run.strategy.opening_line()]);
    }
    if run.failed_at(Stage::Read) {
        assert(run.lines() =~= seq![run.strategy.opening_line()] + run.strategy.before_read());
    }
}

/// A coherent run that did not fail prints every line of its strategy: the
/// opening line, the lines before and after the read, and one line each for
/// the elapsed time and for the rows, the rows last in an eager run and the
/// time last in a lazy one.
pub proof fn lemma_whole_run_prints_every_line(run: Run)
    requires
        run.coherent(),
        run.failure is None,
    ensures
        run.complaint() is None,
        run.elapsed_ms is Some,
        run.preview is Some,
        run.lines().len() == run.strategy.before_read().len() + run.strategy.after_read().len()
            + 3,
        run.lines()[0] == run.strategy.opening_line(),
        run.lines().last() == if run.strategy.is_lazy() {
            elapsed_text(run.elapsed_ms->0 as nat)
        } else {
            shown_text(run.preview->0.drawing@)
        },
{
}

} // verus!
