use call_python_inside_rust::bridge::{run_parity, run_presence, run_sentinel, run_string};
use call_python_inside_rust::demos::{
    call_polly,
    python_function_err_handling, python_function_from_file, python_function_venv_a,
    python_function_venv_b, python_function_venv_c, python_function_venv_d,
    python_function_with_args, python_function_with_kwargs, python_version_and_user,
    simple_inline_python_code,
};
use call_python_inside_rust::error::{ErrorKind, ForeignCategory};
use call_python_inside_rust::session::SessionGate;
use call_python_inside_rust::foreign::{
    marshal_round_trip, to_foreign, to_host_char, to_host_i32, to_host_i64, to_host_string,
    HostValue,
};
use pyo3::Python;

const ADD: &str = "def add_numbers(a=1, b=2):\n    return a + b\n";

fn stub(name: &str, value: &str) -> String {
    format!("def {}(*args):\n    return {}\n", name, value)
}

#[test]
fn round_trip_integers() {
    for v in [0i64, 1, -1, 42, i64::MAX, i64::MIN] {
        let back = Python::with_gil(|py| to_host_i64(&to_foreign(py, &HostValue::Int(v))));
        assert_eq!(back, Ok(v));
    }
}

#[test]
fn round_trip_characters() {
    for c in ['a', '0', '\0', '●', 'é'] {
        let back = Python::with_gil(|py| to_host_char(&to_foreign(py, &HostValue::Char(c))));
        assert_eq!(back, Ok(c));
    }
}

#[test]
fn round_trip_strings() {
    for s in ["", "arg1", "héllo wörld", "line\nbreak"] {
        let back = Python::with_gil(|py| to_host_string(&to_foreign(py, &HostValue::Str(s.to_string()))));
        assert_eq!(back, Ok(s.to_string()));
    }
}

#[test]
fn wrong_host_type_is_type_mismatch() {
    let r = Python::with_gil(|py| to_host_i32(&to_foreign(py, &HostValue::Str("x".to_string()))));
    assert_eq!(r.unwrap_err().kind, ErrorKind::TypeMismatch);
    let r = Python::with_gil(|py| to_host_char(&to_foreign(py, &HostValue::Str("xy".to_string()))));
    assert_eq!(r.unwrap_err().kind, ErrorKind::TypeMismatch);
}

#[test]
fn syntax_error_is_invalid_input() {
    let e = run_parity(&mut SessionGate::new(), "def random_number(a, b:\n    return 1\n", "random_number", &vec![]).unwrap_err();
    assert_eq!(e.kind, ErrorKind::InvalidInput);
    assert!(!e.message.is_empty());
}

#[test]
fn missing_package_is_not_found() {
    let code = "import package_that_is_not_installed\n\ndef f():\n    return 1\n";
    let e = run_parity(&mut SessionGate::new(), code, "f", &vec![]).unwrap_err();
    assert_eq!(e.kind, ErrorKind::NotFound);
}

#[test]
fn missing_function_is_not_found() {
    let e = run_parity(&mut SessionGate::new(), ADD, "no_such_function", &vec![]).unwrap_err();
    assert_eq!(e.kind, ErrorKind::NotFound);
}

#[test]
fn string_for_integer_is_never_other() {
    let code = "def double(n):\n    return n * 2 + 1\n";
    let e = run_parity(&mut SessionGate::new(), code, "double", &vec![HostValue::Str("a".to_string())]).unwrap_err();
    assert!(e.kind == ErrorKind::InvalidInput || e.kind == ErrorKind::TypeMismatch);
    let e = python_function_err_handling(&mut SessionGate::new(), ADD).unwrap_err();
    assert!(e.kind == ErrorKind::InvalidInput || e.kind == ErrorKind::TypeMismatch);
}

#[test]
fn value_error_is_invalid_input() {
    let code = "def random_number(a, b):\n    raise ValueError('lower limit above upper limit')\n";
    let e = run_parity(&mut SessionGate::new(), code, "random_number", &vec![HostValue::Int(2), HostValue::Int(1)]).unwrap_err();
    assert_eq!(e.kind, ErrorKind::InvalidInput);
    assert!(e.message.contains("lower limit above upper limit"));
}

#[test]
fn other_exception_is_other() {
    let code = "def f():\n    raise KeyError('k')\n";
    assert_eq!(run_parity(&mut SessionGate::new(), code, "f", &vec![]).unwrap_err().kind, ErrorKind::Other);
}

#[test]
fn venv_d_even_stub_is_none() {
    assert_eq!(python_function_venv_d(&mut SessionGate::new(), &stub("random_number", "4"), 10, 1), Ok(None));
}

#[test]
fn venv_d_odd_stub_is_doubled() {
    assert_eq!(python_function_venv_d(&mut SessionGate::new(), &stub("random_number", "7"), 10, 1), Ok(Some(14)));
}

#[test]
fn venv_d_passes_limits_in_order() {
    let code = "def random_number(lower, upper):\n    return upper * 100 + lower\n";
    assert_eq!(python_function_venv_d(&mut SessionGate::new(), code, 10, 1), Ok(Some(2002)));
    assert_eq!(python_function_venv_d(&mut SessionGate::new(), code, 9, 4), Ok(None));
}

#[test]
fn venv_c_sentinel_is_none() {
    assert_eq!(python_function_venv_c(&mut SessionGate::new(), &stub("color_emoji", "'0'"), "red"), Ok(None));
}

#[test]
fn venv_c_emoji_is_some() {
    assert_eq!(python_function_venv_c(&mut SessionGate::new(), &stub("color_emoji", "'●'"), "red"), Ok(Some('●')));
    let echo = "def color_emoji(name):\n    return name[0]\n";
    assert_eq!(python_function_venv_c(&mut SessionGate::new(), echo, "red"), Ok(Some('r')));
    assert_eq!(run_sentinel(&mut SessionGate::new(), echo, "color_emoji", &vec![HostValue::Str("0x".to_string())]), Ok(None));
}

#[test]
fn presence_object_maps_to_option() {
    let code = "class Opt:\n    def __init__(self, v):\n        self.v = v\n    def is_present(self):\n        return self.v is not None\n    def get(self):\n        if self.v is None:\n            raise RuntimeError('get on empty')\n        return self.v\n\ndef color_emoji(name):\n    return Opt(None if name == 'none' else '●')\n";
    let none = run_presence(&mut SessionGate::new(), code, "color_emoji", &vec![HostValue::Str("none".to_string())]);
    assert_eq!(none, Ok(None));
    let some = run_presence(&mut SessionGate::new(), code, "color_emoji", &vec![HostValue::Str("red".to_string())]);
    assert_eq!(some, Ok(Some('●')));
}

#[test]
fn from_file_adds_numbers() {
    assert_eq!(python_function_from_file(&mut SessionGate::new(), ADD), Ok(34));
}

#[test]
fn venv_a_keeps_foreign_failure() {
    let code = "def emoji_test():\n    raise RuntimeError('no emoji')\n\ndef random_number(a, b):\n    raise ValueError('bad limits')\n";
    let f = python_function_venv_a(&mut SessionGate::new(), code).unwrap_err();
    assert_eq!(f.category, ForeignCategory::ValueError);
    assert!(f.message.contains("bad limits"));
    let ok = "def emoji_test():\n    pass\n\ndef random_number(a, b):\n    return a + b\n";
    assert_eq!(python_function_venv_a(&mut SessionGate::new(), ok), Ok(30));
}

#[test]
fn venv_b_classifies_failures() {
    let code = "import package_that_is_not_installed\n";
    assert_eq!(python_function_venv_b(&mut SessionGate::new(), code).unwrap_err().kind, ErrorKind::NotFound);
    let ok = "def random_number(a, b):\n    return b\n";
    assert_eq!(python_function_venv_b(&mut SessionGate::new(), ok), Ok(20));
    let text = "def random_number(a, b):\n    return 'twenty'\n";
    assert_eq!(python_function_venv_b(&mut SessionGate::new(), text).unwrap_err().kind, ErrorKind::TypeMismatch);
}

#[test]
fn string_result_is_returned() {
    let code = "def polly_demo(text):\n    return text.lower() + '.mp3'\n";
    assert_eq!(run_string(&mut SessionGate::new(), code, "polly_demo", &vec![HostValue::Str("Happy".to_string())]), Ok("happy.mp3".to_string()));
}

#[test]
fn inline_examples_run() {
    assert_eq!(simple_inline_python_code(&mut SessionGate::new()), Ok(()));
    assert_eq!(python_function_with_args(&mut SessionGate::new()), Ok(()));
    assert_eq!(python_function_with_kwargs(&mut SessionGate::new()), Ok(()));
    let (version, user) = python_version_and_user(&mut SessionGate::new()).unwrap();
    assert!(version.starts_with('3'));
    assert!(!user.is_empty());
}

#[test]
fn round_trip_through_library() {
    let values = vec![
        HostValue::Int(i64::MIN),
        HostValue::Int(7),
        HostValue::Char('●'),
        HostValue::Str("héllo".to_string()),
        HostValue::Str(String::new()),
    ];
    for v in values {
        let back = Python::with_gil(|py| marshal_round_trip(py, &v));
        assert_eq!(back, Ok(v));
    }
}

#[test]
fn held_gate_refuses_a_run() {
    let mut gate = SessionGate::new();
    gate.acquire().unwrap();
    let r = run_string(&mut gate, "def f():\n    return 'x'\n", "f", &vec![]);
    assert_eq!(r.unwrap_err().kind, ErrorKind::Other);
    assert!(gate.is_held());
    gate.release();
    let r = run_string(&mut gate, "def f():\n    return 'x'\n", "f", &vec![]);
    assert_eq!(r, Ok("x".to_string()));
    assert!(!gate.is_held());
}

#[test]
fn venv_c_missing_function_is_not_found() {
    let e = python_function_venv_c(&mut SessionGate::new(), "def other():\n    return 'x'\n", "red").unwrap_err();
    assert_eq!(e.kind, ErrorKind::NotFound);
}

#[test]
fn venv_c_raised_value_error_is_invalid_input() {
    let code = "def color_emoji(name):\n    if any(ch.isdigit() for ch in name):\n        raise ValueError('digits in colour')\n    return '0'\n";
    let e = python_function_venv_c(&mut SessionGate::new(), code, "red1").unwrap_err();
    assert_eq!(e.kind, ErrorKind::InvalidInput);
    assert!(e.message.contains("digits in colour"));
    assert_eq!(python_function_venv_c(&mut SessionGate::new(), code, "red"), Ok(None));
}

#[test]
fn venv_c_passes_name_unchanged() {
    let code = "def color_emoji(name):\n    return '●' if name == 'rød ●' else 'x'\n";
    assert_eq!(python_function_venv_c(&mut SessionGate::new(), code, "rød ●"), Ok(Some('●')));
}

#[test]
fn venv_d_syntax_error_is_invalid_input() {
    assert_eq!(python_function_venv_d(&mut SessionGate::new(), "def random_number(:\n", 10, 1).unwrap_err().kind, ErrorKind::InvalidInput);
}

#[test]
fn call_polly_passes_text_and_returns_path() {
    let code = "def polly_demo(text):\n    return '/tmp/' + text + '.mp3'\n";
    assert_eq!(call_polly(&mut SessionGate::new(), code, "Happy Tuesday"), Ok("/tmp/Happy Tuesday.mp3".to_string()));
    let bad = "def polly_demo(text):\n    return 3\n";
    assert_eq!(call_polly(&mut SessionGate::new(), bad, "x").unwrap_err().kind, ErrorKind::TypeMismatch);
}

#[test]
fn venv_a_missing_random_number_is_attribute_not_found() {
    let code = "def emoji_test():\n    raise RuntimeError('no emoji')\n";
    let f = python_function_venv_a(&mut SessionGate::new(), code).unwrap_err();
    assert_eq!(f.category, ForeignCategory::AttributeNotFound);
}

#[test]
fn venv_a_keeps_syntax_error() {
    let f = python_function_venv_a(&mut SessionGate::new(), "def random_number(:\n").unwrap_err();
    assert_eq!(f.category, ForeignCategory::SyntaxError);
}

#[test]
fn one_session_serves_sequential_calls() {
    let mut gate = SessionGate::new();
    assert!(python_function_venv_c(&mut gate, "import package_that_is_not_installed\n", "red").is_err());
    assert!(!gate.is_held());
    assert_eq!(python_function_venv_d(&mut gate, &stub("random_number", "7"), 10, 1), Ok(Some(14)));
    assert!(!gate.is_held());
    assert_eq!(python_function_venv_b(&mut gate, "def random_number(a, b):\n    return a\n"), Ok(10));
    assert!(!gate.is_held());
}

#[test]
fn held_session_refuses_demo_calls() {
    let mut gate = SessionGate::new();
    gate.acquire().unwrap();
    assert_eq!(python_function_venv_d(&mut gate, &stub("random_number", "7"), 10, 1).unwrap_err().kind, ErrorKind::Other);
    assert!(python_function_venv_a(&mut gate, "def random_number(a, b):\n    return 1\n").is_err());
    assert!(gate.is_held());
}
