use gendoc::errors::OleError;
use gendoc::variant::{Variant, VT_BOOL, VT_BSTR, VT_DISPATCH, VT_EMPTY, VT_I4};

#[test]
fn bool_round_trip() {
    let v = Variant::from(true);
    assert_eq!(v.vt(), VT_BOOL);
    assert_eq!(v.bool(), Ok(true));
    let v = Variant::from(false);
    assert_eq!(v.bool(), Ok(false));
}

#[test]
fn int_round_trip() {
    let v = Variant::from(-42i32);
    assert_eq!(v.vt(), VT_I4);
    assert_eq!(v.int32(), Ok(-42));
    let v = Variant::from(i32::MAX);
    assert_eq!(v.int32(), Ok(i32::MAX));
}

#[test]
fn string_round_trip() {
    let v = Variant::of_str("hello world");
    assert_eq!(v.vt(), VT_BSTR);
    assert_eq!(v.string().unwrap(), "hello world");
    let v = Variant::of_str("");
    assert_eq!(v.string().unwrap(), "");
}

#[test]
fn mismatch_is_an_error_never_a_coercion() {
    let v = Variant::of_str("17");
    assert_eq!(v.int32(), Err(OleError::TypeMismatch { expected: VT_I4, actual: VT_BSTR }));
    let v = Variant::from(1i32);
    assert_eq!(v.bool(), Err(OleError::TypeMismatch { expected: VT_BOOL, actual: VT_I4 }));
    let v = Variant::from(true);
    assert_eq!(
        v.string().unwrap_err(),
        OleError::TypeMismatch { expected: VT_BSTR, actual: VT_BOOL }
    );
    let v = Variant::Empty;
    assert_eq!(v.vt(), VT_EMPTY);
    assert_eq!(v.bool(), Err(OleError::TypeMismatch { expected: VT_BOOL, actual: VT_EMPTY }));
}

#[test]
fn dispatch_reference_is_a_non_owning_handle() {
    let v = Variant::Dispatch(7);
    assert_eq!(v.vt(), VT_DISPATCH);
    let w = v.idispatch().unwrap();
    assert_eq!(w.handle, 7);
    let v = Variant::from(true);
    assert_eq!(
        v.idispatch().unwrap_err(),
        OleError::TypeMismatch { expected: VT_DISPATCH, actual: VT_BOOL }
    );
}

#[test]
fn duplicate_preserves_the_value() {
    let v = Variant::of_str("abc");
    let w = v.duplicate();
    assert_eq!(w.string().unwrap(), "abc");
    let v = Variant::from(5i32);
    assert_eq!(v.duplicate().int32(), Ok(5));
}
