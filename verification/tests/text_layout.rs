use statcards::utils::svg::{calc_width, split_words, wrap_text, CharWidths};
use statcards::utils::utils::{fmt_num, join_with, str_contains, str_eq, str_eq_ci, u64_to_string};

// a table whose every character is px whole pixels wide
fn flat_widths(px: u32) -> CharWidths {
    CharWidths { entries: Vec::new(), default_width: px * 64 }
}

#[test]
fn measures_with_table_entries_and_fallback() {
    // 'a' is 7px, anything else 3px, held in 64ths of a pixel
    let cw = CharWidths { entries: vec![('a', 448)], default_width: 192 };
    assert_eq!(calc_width(&cw, "ab"), 10);
    assert_eq!(calc_width(&cw, ""), 0);
    assert_eq!(calc_width(&cw, "aaa"), 21);
}

#[test]
fn measure_sums_subpixels_before_rounding_up() {
    // 1.5px per character: two of them are 3px, not 2px + 2px
    let cw = CharWidths { entries: Vec::new(), default_width: 96 };
    assert_eq!(calc_width(&cw, "a"), 2);
    assert_eq!(calc_width(&cw, "aa"), 3);
}

#[test]
fn measure_uses_first_matching_entry() {
    let cw = CharWidths { entries: vec![('a', 448), ('a', 6400)], default_width: 192 };
    assert_eq!(calc_width(&cw, "a"), 7);
}

#[test]
fn splits_words_collapsing_whitespace() {
    let words = split_words("  hello \t world\n");
    let got: Vec<&str> = words.iter().map(|w| w.as_str()).collect();
    assert_eq!(got, vec!["hello", "world"]);
}

#[test]
fn short_input_wraps_to_single_trimmed_line() {
    // every character 10px wide; "hello world" measures 110px
    let cw = flat_widths(10);
    let lines = wrap_text(&cw, "  hello   world ", 200);
    assert_eq!(lines.len(), 1);
    assert_eq!(lines[0].as_str(), "hello world");
}

#[test]
fn whitespace_only_input_wraps_to_zero_lines() {
    let cw = flat_widths(10);
    let lines = wrap_text(&cw, " \t \n ", 200);
    assert_eq!(lines.len(), 0);
}

#[test]
fn overflowing_input_truncates_with_ellipsis() {
    // words of 40px, separators of 10px, budget 100px:
    // line one closes as "aaaa aaaa", the final line consumes one more
    // word and is cut with an ellipsis
    let cw = flat_widths(10);
    let lines = wrap_text(&cw, "aaaa aaaa aaaa aaaa aaaa", 100);
    assert_eq!(lines.len(), 2);
    assert_eq!(lines[0].as_str(), "aaaa aaaa");
    assert_eq!(lines[1].as_str(), "aaaa aaaa...");
    assert!(lines[1].as_str().ends_with("..."));
}

#[test]
fn exactly_two_lines_get_no_ellipsis() {
    let cw = flat_widths(10);
    let lines = wrap_text(&cw, "aaaa aaaa aaaa", 100);
    assert_eq!(lines.len(), 2);
    assert_eq!(lines[0].as_str(), "aaaa aaaa");
    assert_eq!(lines[1].as_str(), "aaaa");
}

#[test]
fn formats_small_counts_as_plain_digits() {
    assert_eq!(fmt_num(0).as_str(), "0");
    assert_eq!(fmt_num(813).as_str(), "813");
    assert_eq!(fmt_num(999).as_str(), "999");
}

#[test]
fn formats_thousands_with_one_decimal() {
    assert_eq!(fmt_num(1000).as_str(), "1.0k");
    assert_eq!(fmt_num(1234).as_str(), "1.2k");
    assert_eq!(fmt_num(1250).as_str(), "1.3k");
    assert_eq!(fmt_num(999999).as_str(), "1000.0k");
}

#[test]
fn formats_millions_with_one_decimal() {
    assert_eq!(fmt_num(1000000).as_str(), "1.0M");
    assert_eq!(fmt_num(3000000).as_str(), "3.0M");
    assert_eq!(fmt_num(2147483647).as_str(), "2147.5M");
}

#[test]
fn formats_negative_counts_with_sign() {
    assert_eq!(fmt_num(-5).as_str(), "-5");
    assert_eq!(fmt_num(-1234).as_str(), "-1.2k");
}

#[test]
fn renders_decimal_digits() {
    assert_eq!(u64_to_string(0).as_str(), "0");
    assert_eq!(u64_to_string(907).as_str(), "907");
    assert_eq!(u64_to_string(18446744073709551615).as_str(), "18446744073709551615");
}

#[test]
fn joins_with_separator() {
    let parts = vec!["a".to_string(), "b".to_string(), "c".to_string()];
    assert_eq!(join_with(&parts, "\n").as_str(), "a\nb\nc");
    let one = vec!["x".to_string()];
    assert_eq!(join_with(&one, "\n").as_str(), "x");
    let none: Vec<String> = Vec::new();
    assert_eq!(join_with(&none, "\n").as_str(), "");
}

#[test]
fn finds_substrings() {
    assert!(str_contains("API rate limit exceeded for 1.2.3.4", "rate limit exceeded"));
    assert!(!str_contains("all good", "rate limit exceeded"));
    assert!(str_contains("abc", ""));
    assert!(!str_contains("ab", "abc"));
}

#[test]
fn compares_strings() {
    assert!(str_eq("abc", "abc"));
    assert!(!str_eq("abc", "abd"));
    assert!(str_eq_ci("Rust", "rUST"));
    assert!(!str_eq_ci("Rust", "Ruby"));
}
