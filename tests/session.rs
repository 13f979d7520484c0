use call_python_inside_rust::error::ErrorKind;
use call_python_inside_rust::session::SessionGate;

#[test]
fn sequential_scopes_do_not_overlap() {
    let mut gate = SessionGate::new();
    let mut order: Vec<&str> = Vec::new();
    let first = gate.scoped(|| {
        order.push("first");
        1
    });
    assert!(!gate.is_held());
    let second = gate.scoped(|| 2);
    order.push("second");
    assert_eq!(first, Ok(1));
    assert_eq!(second, Ok(2));
    assert!(!gate.is_held());
    assert_eq!(order, vec!["first", "second"]);
}

#[test]
fn reentrant_acquisition_is_refused() {
    let mut gate = SessionGate::new();
    assert!(gate.acquire().is_ok());
    assert!(gate.is_held());
    let e = gate.acquire().unwrap_err();
    assert_eq!(e.kind, ErrorKind::Other);
    let r: Result<(), _> = gate.scoped(|| panic!("entered a held session"));
    assert!(r.is_err());
    gate.release();
    assert!(!gate.is_held());
    assert_eq!(gate.scoped(|| 3), Ok(3));
}
