use blockmat::helpers::near_zero;

#[test]
fn near_zero_default() {
    assert!(near_zero(1e-7, None))
}

#[test]
fn near_zero_custom() {
    assert!(near_zero(1e-5, Some(1e-3)))
}

#[test]
fn near_zero_fail() {
    assert!(!near_zero(3, None))
}

#[test]
fn near_zero_integer_zero() {
    assert!(near_zero(0, None))
}

#[test]
fn near_zero_explicit_integer_threshold() {
    assert!(near_zero(4, Some(5)));
    assert!(!near_zero(5, Some(5)));
}
