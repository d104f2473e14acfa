use csv_preview::strategy::ReadSettings;
use csv_preview::strategy::Stage;
use csv_preview::strategy::Strategy;
use csv_preview::strategy::CHUNK_ROWS;
use csv_preview::strategy::HAS_HEADER;
use csv_preview::strategy::PREVIEW_ROWS;

#[test]
fn a_preview_has_five_rows_and_a_chunk_two_thousand() {
    assert_eq!(PREVIEW_ROWS, 5);
    assert_eq!(CHUNK_ROWS, 2000);
    assert!(HAS_HEADER);
}

#[test]
fn only_the_lazy_scan_is_lazy() {
    assert!(Strategy::LazyScan.lazy());
    assert!(!Strategy::EagerPlain.lazy());
    assert!(!Strategy::EagerChunked.lazy());
}

#[test]
fn each_strategy_announces_itself() {
    assert_eq!(Strategy::LazyScan.announce(), "Reading using lazy read");
    assert_eq!(Strategy::EagerPlain.announce(), "Opening file for non-lazy read");
    assert_eq!(Strategy::EagerChunked.announce(), "Dataframe read");
}

#[test]
fn the_lazy_scan_has_one_complaint() {
    assert_eq!(Strategy::LazyScan.failure_words(Stage::Open), "Fetch failed");
    assert_eq!(Strategy::LazyScan.failure_words(Stage::Read), "Fetch failed");
    assert_eq!(Strategy::LazyScan.failure_words(Stage::Select), "Fetch failed");
}

#[test]
fn the_plain_read_tells_opening_from_reading() {
    assert_eq!(Strategy::EagerPlain.failure_words(Stage::Open), "could not open file");
    assert_eq!(Strategy::EagerPlain.failure_words(Stage::Read), "Rows not available");
    assert_eq!(Strategy::EagerPlain.failure_words(Stage::Select), "Rows not available");
}

#[test]
fn the_chunked_read_tells_opening_from_reading() {
    assert_eq!(Strategy::EagerChunked.failure_words(Stage::Open), "Read failed");
    assert_eq!(Strategy::EagerChunked.failure_words(Stage::Read), "Rows not available");
    assert_eq!(Strategy::EagerChunked.failure_words(Stage::Select), "Rows not available");
}

#[test]
fn the_lazy_scan_asks_for_five_rows_under_a_header() {
    let expected = ReadSettings::Scan { has_header: true, rows: 5 };
    assert_eq!(Strategy::LazyScan.settings(), expected);
}

#[test]
fn the_plain_read_infers_from_every_row() {
    let expected = ReadSettings::Inferring { has_header: true, schema_rows: None };
    assert_eq!(Strategy::EagerPlain.settings(), expected);
}

#[test]
fn the_chunked_read_hints_at_two_thousand_rows() {
    let expected = ReadSettings::Chunked { has_header: true, chunk_rows: 2000 };
    assert_eq!(Strategy::EagerChunked.settings(), expected);
}
