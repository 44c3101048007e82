use matrix_feed::text::{decimal_string, replace_newlines};

#[test]
fn newlines_become_line_breaks() {
    assert_eq!(replace_newlines("a\nb\n"), "a<br>b<br>");
    assert_eq!(replace_newlines("\n\n"), "<br><br>");
}

#[test]
fn text_without_newlines_is_unchanged() {
    assert_eq!(replace_newlines("plain text, no breaks"), "plain text, no breaks");
    assert_eq!(replace_newlines(""), "");
}

#[test]
fn replaced_text_has_no_line_feed() {
    let r = replace_newlines("one\ntwo\r\nthree\n");
    assert!(!r.contains('\n'));
    assert_eq!(r, "one<br>two\r<br>three<br>");
}

#[test]
fn line_breaks_distribute_over_concatenation() {
    let a = "x\ny";
    let b = "\nz";
    let whole = format!("{}{}", a, b);
    assert_eq!(replace_newlines(&whole), format!("{}{}", replace_newlines(a), replace_newlines(b)));
}

#[test]
fn non_ascii_text_keeps_its_characters() {
    assert_eq!(replace_newlines("grüße\n✓"), "grüße<br>✓");
}

#[test]
fn decimal_strings() {
    assert_eq!(decimal_string(0), "0");
    assert_eq!(decimal_string(7), "7");
    assert_eq!(decimal_string(10), "10");
    assert_eq!(decimal_string(1234567890), "1234567890");
    assert_eq!(decimal_string(u64::MAX), u64::MAX.to_string());
}

#[test]
fn decimal_strings_of_different_numbers_differ() {
    assert_ne!(decimal_string(1700000000000), decimal_string(1700000000001));
    assert_ne!(decimal_string(1), decimal_string(10));
}
