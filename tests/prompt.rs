use call_python_inside_rust::prompt::{answer_for_trimmed, confirmation_answer};

#[test]
fn yes_answers() {
    assert_eq!(confirmation_answer("yes"), Some(true));
    assert_eq!(confirmation_answer("  Y\n"), Some(true));
    assert_eq!(confirmation_answer("True"), Some(true));
    assert_eq!(confirmation_answer("t"), Some(true));
    assert_eq!(confirmation_answer(" T "), Some(true));
}

#[test]
fn no_answers() {
    assert_eq!(confirmation_answer("no\n"), Some(false));
    assert_eq!(confirmation_answer("N"), Some(false));
    assert_eq!(confirmation_answer("false"), Some(false));
    assert_eq!(confirmation_answer("f"), Some(false));
}

#[test]
fn other_replies_are_no_answer() {
    assert_eq!(confirmation_answer("maybe"), None);
    assert_eq!(confirmation_answer(""), None);
    assert_eq!(confirmation_answer("y e s"), None);
}

#[test]
fn trimmed_replies() {
    assert_eq!(answer_for_trimmed("yEs"), Some(true));
    assert_eq!(answer_for_trimmed("f"), Some(false));
    assert_eq!(answer_for_trimmed(" yes"), None);
}

#[test]
fn unicode_whitespace_is_trimmed() {
    assert_eq!(confirmation_answer("\u{3000}yes\u{a0}"), Some(true));
    assert_eq!(confirmation_answer("\u{2003}n\u{2028}"), Some(false));
    assert_eq!(confirmation_answer("\u{200b}yes"), None);
}
