use recipes::sanitize::{sanitize, sanitize_char};
use recipes::text::{push_decimal, same_text};

fn is_safe(c: char) -> bool {
    c.is_ascii_lowercase() || c.is_ascii_digit() || c == '_'
}

#[test]
fn sanitize_lowers_and_replaces() {
    assert_eq!(sanitize("Banana Bread!! 2024"), "banana_bread___2024");
}

#[test]
fn sanitize_keeps_safe_text() {
    assert_eq!(sanitize("banana_bread_1234"), "banana_bread_1234");
}

#[test]
fn sanitize_empty_gives_underscore() {
    assert_eq!(sanitize(""), "_");
}

#[test]
fn sanitize_neutralizes_traversal() {
    assert_eq!(sanitize("../../etc/passwd"), "______etc_passwd");
    assert_eq!(sanitize("..\\windows"), "___windows");
    assert_eq!(sanitize("~/notes.txt"), "__notes_txt");
}

#[test]
fn sanitize_replaces_whitespace_and_control() {
    assert_eq!(sanitize("a b\tc\nd\0e"), "a_b_c_d_e");
}

#[test]
fn sanitize_replaces_non_ascii_one_for_one() {
    assert_eq!(sanitize("crème brûlée"), "cr_me_br_l_e");
    assert_eq!(sanitize("寿司"), "__");
    assert_eq!(sanitize("É"), "_");
}

#[test]
fn sanitize_char_cases() {
    assert_eq!(sanitize_char('a'), 'a');
    assert_eq!(sanitize_char('z'), 'z');
    assert_eq!(sanitize_char('A'), 'a');
    assert_eq!(sanitize_char('Z'), 'z');
    assert_eq!(sanitize_char('0'), '0');
    assert_eq!(sanitize_char('9'), '9');
    assert_eq!(sanitize_char('_'), '_');
    assert_eq!(sanitize_char('-'), '_');
    assert_eq!(sanitize_char('/'), '_');
    assert_eq!(sanitize_char('.'), '_');
    assert_eq!(sanitize_char('@'), '_');
    assert_eq!(sanitize_char('['), '_');
    assert_eq!(sanitize_char('`'), '_');
    assert_eq!(sanitize_char('{'), '_');
}

#[test]
fn sanitize_output_is_safe_and_not_empty() {
    let inputs = ["", " ", "Hello, World!", "../x", "UPPER", "mixed_Case-09", "\u{1F35E} bread", "a/b\\c"];
    for input in inputs {
        let out = sanitize(input);
        assert!(!out.is_empty(), "empty result for {:?}", input);
        assert!(out.chars().all(is_safe), "unsafe character in {:?}", out);
    }
}

#[test]
fn sanitize_is_idempotent() {
    let inputs = ["", "Banana Bread!! 2024", "../../etc/passwd", "already_safe_1", "ÄÖÜ", "_"];
    for input in inputs {
        let once = sanitize(input);
        let twice = sanitize(once.as_str());
        assert_eq!(twice, once);
    }
}

#[test]
fn sanitize_keeps_the_number_of_characters() {
    let input = "Pâté en croûte #7";
    assert_eq!(sanitize(input).chars().count(), input.chars().count());
}

#[test]
fn same_text_compares_characters() {
    assert!(same_text("transmit_recipe", "transmit_recipe"));
    assert!(!same_text("transmit_recipe", "transmit_recipes"));
    assert!(!same_text("a", "A"));
    assert!(same_text("", ""));
}

#[test]
fn push_decimal_writes_base_ten() {
    let cases: [(usize, &str); 7] =
        [(0, "0"), (7, "7"), (9, "9"), (10, "10"), (42, "42"), (100, "100"), (65535, "65535")];
    for (n, expected) in cases {
        let mut out = String::from("n=");
        push_decimal(&mut out, n);
        assert_eq!(out, format!("n={}", expected));
    }
}

#[test]
fn push_decimal_agrees_with_formatting() {
    for n in [0usize, 1, 19, 20, 99, 101, 12345, usize::MAX] {
        let mut out = String::new();
        push_decimal(&mut out, n);
        assert_eq!(out, format!("{}", n));
    }
}
