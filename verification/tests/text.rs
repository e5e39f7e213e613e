use pulr::text::{
    chars_of, find_char, has_at, parse_bounded, push_chars, push_decimal, push_fraction3,
    push_signed, push_text, push_thousandths, text_eq, text_of,
};

fn decimal_text(n: u64) -> String {
    let mut s = String::new();
    push_decimal(&mut s, n);
    s
}

fn signed_text(i: i64) -> String {
    let mut s = String::new();
    push_signed(&mut s, i);
    s
}

#[test]
fn decimal_numbers() {
    assert_eq!(decimal_text(0), "0");
    assert_eq!(decimal_text(9), "9");
    assert_eq!(decimal_text(10), "10");
    assert_eq!(decimal_text(1234567890), "1234567890");
    assert_eq!(decimal_text(u64::MAX), u64::MAX.to_string());
    assert_eq!(signed_text(0), "0");
    assert_eq!(signed_text(-1), "-1");
    assert_eq!(signed_text(i64::MIN), i64::MIN.to_string());
    assert_eq!(signed_text(i64::MAX), i64::MAX.to_string());
    let mut s = String::from("n=");
    push_decimal(&mut s, 42);
    push_signed(&mut s, -7);
    assert_eq!(s, "n=42-7");
}

#[test]
fn thousandths_as_decimals() {
    let cases = [
        (0u64, "0"),
        (1, "0.001"),
        (10, "0.01"),
        (100, "0.1"),
        (999, "0.999"),
        (1000, "1"),
        (1500, "1.5"),
        (1050, "1.05"),
        (1005, "1.005"),
        (123456, "123.456"),
        (u64::MAX, "18446744073709551.615"),
    ];
    for (n, text) in cases {
        let mut s = String::new();
        push_thousandths(&mut s, n);
        assert_eq!(s, text);
        if n < 1_000_000_000_000 {
            assert_eq!(s, (n as f64 / 1000.0).to_string());
        }
    }
    let mut s = String::from("x");
    push_fraction3(&mut s, 0);
    assert_eq!(s, "x");
    push_fraction3(&mut s, 250);
    assert_eq!(s, "x.25");
}

#[test]
fn numbers_in_texts() {
    let v = chars_of("+12/007x");
    assert_eq!(v.len(), 8);
    assert_eq!(parse_bounded(&v, 0, 3, 255), Some(12));
    assert_eq!(parse_bounded(&v, 1, 3, 255), Some(12));
    assert_eq!(parse_bounded(&v, 1, 3, 11), None);
    assert_eq!(parse_bounded(&v, 1, 3, 12), Some(12));
    assert_eq!(parse_bounded(&v, 4, 7, 255), Some(7));
    assert_eq!(parse_bounded(&v, 4, 8, 255), None);
    assert_eq!(parse_bounded(&v, 0, 1, 255), None);
    assert_eq!(parse_bounded(&v, 0, 0, 255), None);
    assert_eq!(parse_bounded(&v, 0, 4, 255), None);
    assert_eq!(parse_bounded(&v, 3, 4, 255), None);
    let big = chars_of("18446744073709551616");
    assert_eq!(parse_bounded(&big, 0, big.len(), u32::MAX as u64), None);
    let twice = chars_of("++1");
    assert_eq!(parse_bounded(&twice, 0, 3, 9), None);
}

#[test]
fn pieces_of_texts() {
    let v = chars_of("ab/cd/");
    assert_eq!(find_char(&v, 0, 6, '/'), 2);
    assert_eq!(find_char(&v, 3, 6, '/'), 5);
    assert_eq!(find_char(&v, 3, 5, '/'), 5);
    assert_eq!(find_char(&v, 2, 6, '/'), 2);
    assert_eq!(find_char(&v, 0, 6, '+'), 6);
    assert_eq!(find_char(&v, 6, 6, '/'), 6);
    assert_eq!(text_of(&v, 3, 5), "cd");
    assert_eq!(text_of(&v, 0, 0), "");
    let mut s = String::from("<");
    push_chars(&mut s, &v, 0, 2);
    push_text(&mut s, ">");
    assert_eq!(s, "<ab>");
    assert!(has_at(&v, 3, &chars_of("cd/")));
    assert!(has_at(&v, 6, &chars_of("")));
    assert!(!has_at(&v, 4, &chars_of("d/x")));
    assert!(!has_at(&v, 0, &chars_of("ba")));
    assert!(text_eq("é1", "é1"));
    assert!(text_eq("", ""));
    assert!(!text_eq("a", "b"));
    assert!(!text_eq("a", "ab"));
    assert_eq!(chars_of("aé"), vec!['a', 'é']);
}
