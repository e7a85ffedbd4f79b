use nvhosts::verbose::{Verbosity, enable, is_enabled};

#[test]
fn starts_quiet() {
    let v = Verbosity::new();
    assert!(!is_enabled(&v));
}

#[test]
fn enable_turns_on_once() {
    let mut v = Verbosity::new();
    enable(&mut v);
    assert!(is_enabled(&v));
    let level_after_first = v.level;
    enable(&mut v);
    assert!(is_enabled(&v));
    assert_eq!(v.level, level_after_first);
}
