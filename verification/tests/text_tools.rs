use mini_httpd::text::chars_of;
use mini_httpd::text::field_bounds;
use mini_httpd::text::has_text;
use mini_httpd::text::has_text_at;
use mini_httpd::text::push_decimal;
use mini_httpd::text::str_eq;

fn decimal(n: usize) -> String {
    let mut out = String::new();
    push_decimal(&mut out, n);
    out
}

fn contains(hay: &str, needle: &str) -> bool {
    has_text(&chars_of(hay), &chars_of(needle))
}

fn fields(line: &str, sep: char) -> Vec<String> {
    let chars = chars_of(line);
    field_bounds(&chars, sep)
        .iter()
        .map(|&(from, to)| chars[from..to].iter().collect::<String>())
        .collect()
}

#[test]
fn decimal_of_single_digits() {
    assert_eq!(decimal(0), "0");
    assert_eq!(decimal(7), "7");
    assert_eq!(decimal(9), "9");
}

#[test]
fn decimal_of_longer_numbers() {
    assert_eq!(decimal(10), "10");
    assert_eq!(decimal(55), "55");
    assert_eq!(decimal(100), "100");
    assert_eq!(decimal(1234567890), "1234567890");
}

#[test]
fn decimal_of_the_largest_number() {
    assert_eq!(decimal(usize::MAX), format!("{}", usize::MAX));
}

#[test]
fn decimal_is_appended() {
    let mut out = String::from("Content-Length: ");
    push_decimal(&mut out, 408);
    assert_eq!(out, "Content-Length: 408");
}

#[test]
fn chars_of_keeps_order_and_width() {
    assert_eq!(chars_of(""), Vec::<char>::new());
    assert_eq!(chars_of("a b"), vec!['a', ' ', 'b']);
    assert_eq!(chars_of("h\u{e9}\u{4e16}"), vec!['h', '\u{e9}', '\u{4e16}']);
}

#[test]
fn str_eq_compares_whole_texts() {
    assert!(str_eq("", ""));
    assert!(str_eq("GET", "GET"));
    assert!(!str_eq("GET", "GET "));
    assert!(!str_eq("GET", "get"));
    assert!(!str_eq("GET", "PUT"));
    assert!(!str_eq("/", ""));
    assert!(str_eq("\u{e9}", "\u{e9}"));
    assert!(!str_eq("\u{e9}", "e"));
}

#[test]
fn has_text_at_checks_one_position() {
    let hay = chars_of("HTTP/1.1");
    let needle = chars_of("1.1");
    assert!(has_text_at(&hay, &needle, 5));
    assert!(!has_text_at(&hay, &needle, 4));
    assert!(!has_text_at(&hay, &needle, 6));
    assert!(!has_text_at(&hay, &needle, 8));
    assert!(!has_text_at(&hay, &needle, 9));
    assert!(!has_text_at(&hay, &needle, usize::MAX));
}

#[test]
fn has_text_at_with_nothing_to_find() {
    let hay = chars_of("ab");
    let nothing = chars_of("");
    assert!(has_text_at(&hay, &nothing, 0));
    assert!(has_text_at(&hay, &nothing, 2));
    assert!(!has_text_at(&hay, &nothing, 3));
}

#[test]
fn has_text_finds_runs_anywhere() {
    assert!(contains("HTTP/1.1", "HTTP"));
    assert!(contains("xxHTTP", "HTTP"));
    assert!(contains("xHTTPx", "HTTP"));
    assert!(contains("HTTP/1.1", "1.1"));
    assert!(contains("HTTP/1.1", "/"));
    assert!(!contains("HTTP/1.1", "2"));
    assert!(!contains("HTT", "HTTP"));
    assert!(!contains("HTxTP", "HTTP"));
    assert!(!contains("http", "HTTP"));
    assert!(!contains("", "H"));
}

#[test]
fn has_text_finds_a_run_after_a_false_start() {
    assert!(contains("HTHTTP", "HTTP"));
    assert!(contains("aab", "ab"));
}

#[test]
fn has_text_finds_the_empty_text_everywhere() {
    assert!(contains("", ""));
    assert!(contains("abc", ""));
}

#[test]
fn field_bounds_of_a_request_line() {
    let chars = chars_of("GET / HTTP/1.1");
    assert_eq!(field_bounds(&chars, ' '), vec![(0, 3), (4, 5), (6, 14)]);
}

#[test]
fn field_bounds_without_separator() {
    assert_eq!(field_bounds(&chars_of("GET/HTTP/1.1"), ' '), vec![(0, 12)]);
    assert_eq!(field_bounds(&chars_of(""), ' '), vec![(0, 0)]);
}

#[test]
fn field_bounds_keep_empty_fields() {
    assert_eq!(field_bounds(&chars_of(" "), ' '), vec![(0, 0), (1, 1)]);
    assert_eq!(field_bounds(&chars_of("a  b"), ' '), vec![(0, 1), (2, 2), (3, 4)]);
    assert_eq!(field_bounds(&chars_of(" a "), ' '), vec![(0, 0), (1, 2), (3, 3)]);
}

#[test]
fn field_bounds_count_characters_not_bytes() {
    assert_eq!(field_bounds(&chars_of("\u{e9}\u{e9} x"), ' '), vec![(0, 2), (3, 4)]);
}

#[test]
fn fields_agree_with_the_standard_split() {
    for line in ["GET / HTTP/1.1", "", " ", "a  b", " a ", "GET / HTTP/ 1.1", "x,y, z"] {
        let expected: Vec<String> = line.split(' ').map(String::from).collect();
        assert_eq!(fields(line, ' '), expected);
        let expected: Vec<String> = line.split(',').map(String::from).collect();
        assert_eq!(fields(line, ','), expected);
    }
}

#[test]
fn fields_join_back_to_the_line() {
    for line in ["GET / HTTP/1.1", "", "  ", "a  b ", "no-separator"] {
        let parts = fields(line, ' ');
        assert!(parts.iter().all(|part| !part.contains(' ')));
        assert_eq!(parts.join(" "), line);
    }
}
