use payroll_ingest::get_max_upload_size;
use payroll_ingest::schema::SqlString;
use payroll_ingest::text::{chars_of, parse_amount, parse_u64, same_text};
use payroll_ingest::DEFAULT_MAX_UPLOAD;

#[test]
fn amount_with_dollar_sign_is_read_in_cents() {
    assert_eq!(parse_amount("$12.50"), Some(1250));
}

#[test]
fn amount_of_one_cent() {
    assert_eq!(parse_amount("$0.01"), Some(1));
}

#[test]
fn amount_of_a_hundred_dollars() {
    assert_eq!(parse_amount("$100.00"), Some(10000));
}

#[test]
fn amount_is_exact_where_binary_fractions_are_not() {
    assert_eq!(parse_amount("$0.29"), Some(29));
    assert_eq!(parse_amount("$4.35"), Some(435));
    assert_eq!(parse_amount("$1.15"), Some(115));
}

#[test]
fn amount_is_cut_off_behind_the_second_decimal() {
    assert_eq!(parse_amount("$1.005"), Some(100));
    assert_eq!(parse_amount("$1.999"), Some(199));
    assert_eq!(parse_amount("0.009"), Some(0));
}

#[test]
fn amount_without_a_dollar_sign() {
    assert_eq!(parse_amount("12.50"), Some(1250));
    assert_eq!(parse_amount("7"), Some(700));
}

#[test]
fn amount_with_one_decimal_or_none_behind_the_point() {
    assert_eq!(parse_amount("$3.5"), Some(350));
    assert_eq!(parse_amount("$3."), Some(300));
    assert_eq!(parse_amount("$.5"), Some(50));
}

#[test]
fn amount_of_zero() {
    assert_eq!(parse_amount("$0"), Some(0));
    assert_eq!(parse_amount("0.00"), Some(0));
}

#[test]
fn amount_that_is_no_number_is_refused() {
    assert_eq!(parse_amount(""), None);
    assert_eq!(parse_amount("$"), None);
    assert_eq!(parse_amount("."), None);
    assert_eq!(parse_amount("$."), None);
    assert_eq!(parse_amount("abc"), None);
    assert_eq!(parse_amount("12.5x"), None);
    assert_eq!(parse_amount("1.2.3"), None);
    assert_eq!(parse_amount("1e2"), None);
    assert_eq!(parse_amount("-1"), None);
    assert_eq!(parse_amount("$$1"), None);
    assert_eq!(parse_amount("1$"), None);
    assert_eq!(parse_amount(" 1"), None);
}

#[test]
fn amount_at_the_edge_of_sixty_four_bits() {
    assert_eq!(parse_amount("$184467440737095516.15"), Some(u64::MAX));
    assert_eq!(parse_amount("$184467440737095516.16"), None);
    assert_eq!(parse_amount("$184467440737095517"), None);
    assert_eq!(parse_amount("99999999999999999999999"), None);
}

#[test]
fn unsigned_number_is_read() {
    assert_eq!(parse_u64("0"), Some(0));
    assert_eq!(parse_u64("67485"), Some(67485));
    assert_eq!(parse_u64("007"), Some(7));
    assert_eq!(parse_u64("+7"), Some(7));
}

#[test]
fn unsigned_number_at_the_edge_of_sixty_four_bits() {
    assert_eq!(parse_u64("18446744073709551615"), Some(u64::MAX));
    assert_eq!(parse_u64("18446744073709551616"), None);
    assert_eq!(parse_u64("000018446744073709551615"), Some(u64::MAX));
}

#[test]
fn text_that_is_no_unsigned_number_is_refused() {
    assert_eq!(parse_u64(""), None);
    assert_eq!(parse_u64("+"), None);
    assert_eq!(parse_u64("-1"), None);
    assert_eq!(parse_u64("12a"), None);
    assert_eq!(parse_u64("1 2"), None);
    assert_eq!(parse_u64("++1"), None);
    assert_eq!(parse_u64("1.0"), None);
    assert_eq!(parse_u64("١٢"), None);
}

#[test]
fn unsigned_number_agrees_with_the_standard_library() {
    for text in ["0", "+0", "42", "0042", "+42", "", "+", "-", "-0", "4 2", "4_2", "18446744073709551615", "18446744073709551616"] {
        assert_eq!(parse_u64(text), text.parse::<u64>().ok(), "{}", text);
    }
}

#[test]
fn number_is_written_in_base_ten() {
    assert_eq!(SqlString::from_u64(0).as_str(), "0");
    assert_eq!(SqlString::from_u64(7).as_str(), "7");
    assert_eq!(SqlString::from_u64(1250).as_str(), "1250");
    assert_eq!(SqlString::from_u64(u64::MAX).as_str(), "18446744073709551615");
}

#[test]
fn written_number_reads_back() {
    for n in [0u64, 1, 9, 10, 99, 100, 12345, u64::MAX] {
        let written = SqlString::from_u64(n);
        assert_eq!(parse_u64(written.as_str()), Some(n));
    }
}

#[test]
fn same_text_compares_characters() {
    assert!(same_text("row", "row"));
    assert!(!same_text("row", "Row"));
    assert!(!same_text("row", "rows"));
    assert!(same_text("", ""));
}

#[test]
fn chars_of_keeps_every_character() {
    assert_eq!(chars_of("a$é"), vec!['a', '$', 'é']);
    assert_eq!(chars_of(""), Vec::<char>::new());
}

#[test]
fn max_upload_defaults_to_128_mib() {
    assert_eq!(DEFAULT_MAX_UPLOAD, 128 * 1024 * 1024);
    assert_eq!(get_max_upload_size(None), 134217728);
}

#[test]
fn max_upload_follows_a_readable_setting() {
    assert_eq!(get_max_upload_size(Some("1024")), 1024);
    assert_eq!(get_max_upload_size(Some("+5")), 5);
    assert_eq!(get_max_upload_size(Some("0")), 0);
}

#[test]
fn max_upload_falls_back_on_an_unreadable_setting() {
    assert_eq!(get_max_upload_size(Some("")), 134217728);
    assert_eq!(get_max_upload_size(Some("128MB")), 134217728);
    assert_eq!(get_max_upload_size(Some("-1")), 134217728);
    assert_eq!(get_max_upload_size(Some("18446744073709551616")), 134217728);
}
