use gendoc::dispatch::{
    pack_dispparams, CallOutcome, CreateOutcome, IDispatchWrapper, InvokeKind, DISPATCH_METHOD,
    DISPATCH_PROPERTYGET, DISPATCH_PROPERTYPUT, DISPID_PROPERTYPUT,
};
use gendoc::errors::OleError;
use gendoc::variant::{Variant, VT_I4, VT_BSTR};

#[test]
fn invocation_kinds_map_to_their_dispatch_flags() {
    assert_eq!(InvokeKind::MethodCall.flags(), DISPATCH_METHOD);
    assert_eq!(InvokeKind::PropertyGet.flags(), DISPATCH_PROPERTYGET);
    assert_eq!(InvokeKind::PropertyPut.flags(), DISPATCH_PROPERTYPUT);
}

#[test]
fn packing_reverses_the_arguments() {
    let args = vec![Variant::of_str("a"), Variant::from(2i32), Variant::from(true)];
    let dp = pack_dispparams(InvokeKind::MethodCall, &args);
    assert_eq!(dp.rgvarg.len(), 3);
    assert_eq!(dp.rgvarg[0].bool(), Ok(true));
    assert_eq!(dp.rgvarg[1].int32(), Ok(2));
    assert_eq!(dp.rgvarg[2].string().unwrap(), "a");
    assert!(dp.named_dispids.is_empty());
}

#[test]
fn a_property_put_marks_its_argument_as_the_named_put_argument() {
    let args = vec![Variant::from(false)];
    let dp = pack_dispparams(InvokeKind::PropertyPut, &args);
    assert_eq!(dp.named_dispids, vec![DISPID_PROPERTYPUT]);
    assert_eq!(dp.named_dispids, vec![-3]);
    let dp = pack_dispparams(InvokeKind::PropertyPut, &Vec::new());
    assert!(dp.named_dispids.is_empty());
    let dp = pack_dispparams(InvokeKind::PropertyGet, &args);
    assert!(dp.named_dispids.is_empty());
}

#[test]
fn creation_outcomes_are_distinguished() {
    let w = IDispatchWrapper::new(&CreateOutcome::Created { handle: 9 }).unwrap();
    assert_eq!(w.handle, 9);
    assert_eq!(
        IDispatchWrapper::new(&CreateOutcome::NoSuchProgId).unwrap_err(),
        OleError::ResolutionError
    );
    assert_eq!(
        IDispatchWrapper::new(&CreateOutcome::CreateFailed).unwrap_err(),
        OleError::InstantiationError
    );
}

#[test]
fn requests_carry_target_kind_member_and_arguments() {
    let w = IDispatchWrapper { handle: 4 };
    let req = w.put("Visible", vec![Variant::from(false)]);
    assert_eq!(req.target, 4);
    assert_eq!(req.kind, InvokeKind::PropertyPut);
    assert_eq!(req.member, "Visible");
    assert_eq!(req.args.len(), 1);
    let req = w.get("Documents");
    assert_eq!(req.kind, InvokeKind::PropertyGet);
    assert!(req.args.is_empty());
    let req = w.call("Open", vec![Variant::of_str("a.docx")]);
    assert_eq!(req.kind, InvokeKind::MethodCall);
    assert_eq!(req.args[0].string().unwrap(), "a.docx");
}

#[test]
fn call_outcomes_decode_to_variant_or_failure() {
    let v = IDispatchWrapper::decode(&CallOutcome::Returned(Variant::from(7i32))).unwrap();
    assert_eq!(v.int32(), Ok(7));
    assert_eq!(
        IDispatchWrapper::decode(&CallOutcome::NameNotFound).unwrap_err(),
        OleError::MemberNotFound
    );
    assert_eq!(
        IDispatchWrapper::decode(&CallOutcome::CallFailed).unwrap_err(),
        OleError::InvocationError
    );
}

#[test]
fn typed_accessors_propagate_both_failures() {
    let w = IDispatchWrapper { handle: 1 };
    assert_eq!(w.int32(&CallOutcome::Returned(Variant::from(5i32))), Ok(5));
    assert_eq!(w.bool(&CallOutcome::Returned(Variant::from(true))), Ok(true));
    assert_eq!(w.string(&CallOutcome::Returned(Variant::of_str("x"))).unwrap(), "x");
    assert_eq!(w.int32(&CallOutcome::NameNotFound), Err(OleError::MemberNotFound));
    assert_eq!(w.bool(&CallOutcome::CallFailed), Err(OleError::InvocationError));
    assert_eq!(
        w.int32(&CallOutcome::Returned(Variant::of_str("5"))),
        Err(OleError::TypeMismatch { expected: VT_I4, actual: VT_BSTR })
    );
}
