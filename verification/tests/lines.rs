use csv_preview::report::elapsed_line;
use csv_preview::report::render_decimal;
use csv_preview::report::shown_line;

#[test]
fn zero_is_written_with_one_digit() {
    assert_eq!(render_decimal(0), "0");
}

#[test]
fn single_digits_are_written_as_themselves() {
    let expected = ["0", "1", "2", "3", "4", "5", "6", "7", "8", "9"];
    for (value, text) in expected.iter().enumerate() {
        assert_eq!(render_decimal(value as u128), *text);
    }
}

#[test]
fn digits_come_out_most_significant_first() {
    assert_eq!(render_decimal(10), "10");
    assert_eq!(render_decimal(907), "907");
    assert_eq!(render_decimal(1234567890), "1234567890");
}

#[test]
fn the_largest_number_is_written_in_full() {
    assert_eq!(render_decimal(u128::MAX), "340282366920938463463374607431768211455");
}

#[test]
fn decimal_agrees_with_the_standard_formatter() {
    let samples: [u128; 8] = [0, 9, 10, 99, 100, 1000, 65535, 18446744073709551616];
    for n in samples {
        assert_eq!(render_decimal(n), format!("{}", n));
    }
}

#[test]
fn the_elapsed_line_counts_milliseconds() {
    assert_eq!(elapsed_line(0), "0 milliseconds elapsed.");
    assert_eq!(elapsed_line(42), "42 milliseconds elapsed.");
    assert_eq!(elapsed_line(120034), "120034 milliseconds elapsed.");
}

#[test]
fn the_elapsed_line_never_shows_a_sign() {
    let samples: [u128; 4] = [0, 1, 5000, u128::MAX];
    for n in samples {
        let line = elapsed_line(n);
        let number = line.strip_suffix(" milliseconds elapsed.").unwrap();
        assert!(!number.is_empty());
        assert!(number.chars().all(|c| c.is_ascii_digit()));
    }
}

#[test]
fn a_shown_line_wraps_the_drawing() {
    assert_eq!(shown_line("table"), "Ok(table)");
    assert_eq!(shown_line(""), "Ok()");
    assert_eq!(shown_line("a\nb"), "Ok(a\nb)");
}
