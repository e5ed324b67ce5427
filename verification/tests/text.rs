use curve_editor_sample::text::{labelled_number, push_decimal};

#[test]
fn decimal_labels() {
    assert_eq!(labelled_number("Line ", 0), "Line 0");
    assert_eq!(labelled_number("", 9), "9");
    assert_eq!(labelled_number("", 10), "10");
    assert_eq!(labelled_number("n=", 1200), "n=1200");
    assert_eq!(labelled_number("", usize::MAX), usize::MAX.to_string());
}

#[test]
fn push_decimal_appends() {
    let mut s = String::from("ab");
    push_decimal(&mut s, 407);
    assert_eq!(s, "ab407");
}

