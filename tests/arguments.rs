use call_python_inside_rust::arguments::{
    add_numbers_args, example_arg_lists, example_keyword_sets, mismatched_add_args,
    random_number_args, text_args,
};
use call_python_inside_rust::foreign::HostValue;

#[test]
fn random_number_limits_lower_first() {
    assert_eq!(random_number_args(10, 1), vec![HostValue::Int(1), HostValue::Int(10)]);
    assert_eq!(random_number_args(i32::MIN, i32::MAX), vec![HostValue::Int(i32::MAX as i64), HostValue::Int(i32::MIN as i64)]);
}

#[test]
fn text_argument_unchanged() {
    assert_eq!(text_args(" rød ● "), vec![HostValue::Str(" rød ● ".to_string())]);
}

#[test]
fn fixed_argument_lists() {
    assert_eq!(add_numbers_args(), vec![HostValue::Int(11), HostValue::Int(23)]);
    assert_eq!(mismatched_add_args(), vec![HostValue::Char('a'), HostValue::Char('b')]);
    let three = vec![
        HostValue::Str("arg1".to_string()),
        HostValue::Str("arg2".to_string()),
        HostValue::Str("arg3".to_string()),
    ];
    assert_eq!(example_arg_lists(), vec![Vec::new(), three.clone(), three]);
}

#[test]
fn keyword_sets() {
    let k1 = ("key1".to_string(), 1i64);
    let k2 = ("key2".to_string(), 2i64);
    assert_eq!(example_keyword_sets(), vec![vec![k1.clone()], vec![k1.clone(), k2], vec![k1]]);
}
