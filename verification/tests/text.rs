use lessons::csv::{is_whitespace_char, parse_csv_document, parse_csv_line, trim};
use lessons::text::{decimal_string, signed_decimal_string, split_pieces};

#[test]
fn decimal_string_writes_digits() {
    assert_eq!(decimal_string(0), "0");
    assert_eq!(decimal_string(7), "7");
    assert_eq!(decimal_string(10), "10");
    assert_eq!(decimal_string(1234567890), "1234567890");
    assert_eq!(decimal_string(u64::MAX), "18446744073709551615");
}

#[test]
fn signed_decimal_string_writes_the_sign() {
    assert_eq!(signed_decimal_string(0), "0");
    assert_eq!(signed_decimal_string(-1), "-1");
    assert_eq!(signed_decimal_string(42), "42");
    assert_eq!(signed_decimal_string(i64::MIN), "-9223372036854775808");
    assert_eq!(signed_decimal_string(i64::MAX), "9223372036854775807");
}

#[test]
fn split_pieces_cuts_at_every_separator() {
    assert_eq!(split_pieces("a,b,c", ','), vec!["a", "b", "c"]);
    assert_eq!(split_pieces("", ','), vec![""]);
    assert_eq!(split_pieces(",", ','), vec!["", ""]);
    assert_eq!(split_pieces("a,,b,", ','), vec!["a", "", "b", ""]);
    assert_eq!(split_pieces("no separator", ','), vec!["no separator"]);
    assert_eq!(split_pieces("3 chairs", ' '), vec!["3", "chairs"]);
}

#[test]
fn split_pieces_agrees_with_the_standard_library() {
    for text in ["", ",", "a", "a,b", ",a,", "x,,y,,", "caf\u{e9},\u{211d},z"] {
        let expected: Vec<&str> = text.split(',').collect();
        assert_eq!(split_pieces(text, ','), expected);
    }
}

#[test]
fn trim_removes_white_space_at_both_ends() {
    assert_eq!(trim("  a b  "), "a b");
    assert_eq!(trim("\t\n x\r\n"), "x");
    assert_eq!(trim(""), "");
    assert_eq!(trim("   "), "");
    assert_eq!(trim("x"), "x");
    assert_eq!(trim("\u{3000}x\u{a0}"), "x");
    assert_eq!(trim("\u{200b}x"), "\u{200b}x");
}

#[test]
fn white_space_is_what_the_standard_library_says() {
    let mut code: u32 = 0;
    while code <= 0x3100 {
        if let Some(c) = char::from_u32(code) {
            assert_eq!(is_whitespace_char(c), c.is_whitespace());
        }
        code += 1;
    }
}

#[test]
fn csv_line_is_cut_and_trimmed() {
    assert_eq!(parse_csv_line("a, b ,c"), vec!["a", "b", "c"]);
    assert_eq!(parse_csv_line(""), vec![""]);
    assert_eq!(parse_csv_line(" , "), vec!["", ""]);
    assert_eq!(parse_csv_line("one"), vec!["one"]);
    assert_eq!(parse_csv_line("a b, c d"), vec!["a b", "c d"]);
}

#[test]
fn csv_document_has_one_row_per_line() {
    let lines = vec!["name, age".to_string(), "Ann, 30".to_string(), "".to_string()];
    let rows = parse_csv_document(&lines);
    assert_eq!(
        rows,
        vec![
            vec!["name".to_string(), "age".to_string()],
            vec!["Ann".to_string(), "30".to_string()],
            vec!["".to_string()],
        ]
    );
    assert_eq!(parse_csv_document(&vec![]), Vec::<Vec<String>>::new());
}
