use actor_registry::text::{first_error_line_of, push_decimal, push_fixed_digits, replace_all, same_text};

#[test]
fn error_line_is_first_marked_line_trimmed() {
    let stderr = "warning: unused\n   error: cannot find crate  \nerror: second\n";
    assert_eq!(first_error_line_of(stderr), Some("error: cannot find crate".to_string()));
}

#[test]
fn error_line_absent_without_marker() {
    assert_eq!(first_error_line_of("warning: a\nnote: b\n"), None);
    assert_eq!(first_error_line_of(""), None);
}

#[test]
fn error_line_marker_mid_line_and_crlf() {
    let stderr = "building...\r\nbuilder failed with error: exit 1\r\n";
    assert_eq!(first_error_line_of(stderr), Some("builder failed with error: exit 1".to_string()));
}

#[test]
fn error_line_on_last_line_without_newline() {
    assert_eq!(first_error_line_of("a\nb error:c"), Some("b error:c".to_string()));
}

#[test]
fn error_line_trims_unicode_whitespace() {
    assert_eq!(first_error_line_of("\u{3000}error: x\u{A0}"), Some("error: x".to_string()));
}

#[test]
fn replace_all_substitutes_every_placeholder() {
    let r = replace_all("struct {{actor_name}}; impl {{actor_name}} {}", "{{actor_name}}", "foo");
    assert_eq!(r, "struct foo; impl foo {}");
}

#[test]
fn replace_all_leaves_text_without_placeholder() {
    assert_eq!(replace_all("plain {{other}}", "{{actor_name}}", "foo"), "plain {{other}}");
    assert_eq!(replace_all("", "{{actor_name}}", "foo"), "");
}

#[test]
fn replace_all_does_not_overlap() {
    assert_eq!(replace_all("aaa", "aa", "b"), "ba");
}

#[test]
fn decimal_numerals() {
    let mut s = String::from("n=");
    push_decimal(&mut s, 0);
    assert_eq!(s, "n=0");
    let mut t = String::new();
    push_decimal(&mut t, 18446744073709551615);
    assert_eq!(t, "18446744073709551615");
    let mut u = String::new();
    push_decimal(&mut u, 1200);
    assert_eq!(u, "1200");
}

#[test]
fn fixed_width_digits() {
    let mut s = String::new();
    push_fixed_digits(&mut s, 7, 10, 2);
    assert_eq!(s, "07");
    let mut h = String::new();
    push_fixed_digits(&mut h, 0xdeadbeef, 16, 16);
    assert_eq!(h, "00000000deadbeef");
    let mut t = String::new();
    push_fixed_digits(&mut t, 12345, 10, 4);
    assert_eq!(t, "2345");
}

#[test]
fn same_text_compares_characters() {
    assert!(same_text("basic", "basic"));
    assert!(!same_text("basic", "Basic"));
    assert!(!same_text("basic", "basics"));
}
