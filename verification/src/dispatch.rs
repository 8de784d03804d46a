//! The late-bound invocation layer: member-call descriptors, argument
//! packing, and decoding of the outcomes that the unverified driver reports.
//!
//! A remote call is described by an [`InvokeRequest`]; the driver resolves
//! the member name to a dispatch identifier, packs the arguments with
//! [`pack_dispparams`], performs the call, and reports a [`CallOutcome`],
//! which the verified layer decodes.

use vstd::prelude::*;
use crate::errors::OleError;
use crate::variant::{Variant, VariantV, spec_as_bool, spec_as_int, spec_as_str, spec_vt};
use crate::variant::{VT_DISPATCH};

verus! {

/// Dispatch flag selecting a method call.
pub const DISPATCH_METHOD: u16 = 1;
/// Dispatch flag selecting a property get.
pub const DISPATCH_PROPERTYGET: u16 = 2;
/// Dispatch flag selecting a property put.
pub const DISPATCH_PROPERTYPUT: u16 = 4;
/// The reserved dispatch identifier that marks the argument of a property
/// put as the named "put" argument.
pub const DISPID_PROPERTYPUT: i32 = -3;
/// Locale identifier used when resolving a member name.
pub const LOCALE_USER_DEFAULT: u32 = 0x0400;
/// Locale identifier used when dispatching the resolved call.
pub const LOCALE_SYSTEM_DEFAULT: u32 = 0x0800;

/// The kind of a dynamic invocation.
#[derive(Clone, Copy, PartialEq, Eq, Structural, Debug)]
pub enum InvokeKind {
    PropertyGet,
    PropertyPut,
    MethodCall,
}

/// The dispatch flag word of an invocation kind.
pub open spec fn spec_flags(k: InvokeKind) -> u16 {
    match k {
        InvokeKind::PropertyGet => DISPATCH_PROPERTYGET,
        InvokeKind::PropertyPut => DISPATCH_PROPERTYPUT,
        InvokeKind::MethodCall => DISPATCH_METHOD,
    }
}

impl InvokeKind {
    /// The dispatch flag word handed to the remote invocation.
    pub fn flags(&self) -> (f: u16)
        ensures
            f == spec_flags(*self),
    {
        match self {
            InvokeKind::PropertyGet => DISPATCH_PROPERTYGET,
            InvokeKind::PropertyPut => DISPATCH_PROPERTYPUT,
            InvokeKind::MethodCall => DISPATCH_METHOD,
        }
    }
}

/// The mathematical values of a list of variant arguments.
pub open spec fn views_of(args: Seq<Variant>) -> Seq<VariantV> {
    args.map_values(|v: Variant| v@)
}

/// An invocation descriptor: the target object's identity, the invocation
/// kind, the member name still to be resolved, and the arguments in declared
/// order.
#[derive(Debug)]
pub struct InvokeRequest {
    pub target: u32,
    pub kind: InvokeKind,
    pub member: String,
    pub args: Vec<Variant>,
}

/// The mathematical value of an [`InvokeRequest`].
pub struct InvokeRequestV {
    pub target: u32,
    pub kind: InvokeKind,
    pub member: Seq<char>,
    pub args: Seq<VariantV>,
}

impl View for InvokeRequest {
    type V = InvokeRequestV;

    open spec fn view(&self) -> InvokeRequestV {
        InvokeRequestV {
            target: self.target,
            kind: self.kind,
            member: self.member@,
            args: views_of(self.args@),
        }
    }
}

/// A packed argument block: the arguments in reverse order (the automation
/// convention packs the last declared parameter first) and the named
/// argument identifiers, which hold exactly the reserved put identifier when
/// a property put carries arguments.
#[derive(Debug)]
pub struct DispParams {
    pub rgvarg: Vec<Variant>,
    pub named_dispids: Vec<i32>,
}

/// The mathematical value of a [`DispParams`].
pub struct DispParamsV {
    pub rgvarg: Seq<VariantV>,
    pub named_dispids: Seq<i32>,
}

impl View for DispParams {
    type V = DispParamsV;

    open spec fn view(&self) -> DispParamsV {
        DispParamsV { rgvarg: views_of(self.rgvarg@), named_dispids: self.named_dispids@ }
    }
}

/// The named-argument identifiers owed by the packing convention.
pub open spec fn spec_named_dispids(kind: InvokeKind, n_args: nat) -> Seq<i32> {
    if kind is PropertyPut && n_args > 0 {
        seq![DISPID_PROPERTYPUT]
    } else {
        Seq::empty()
    }
}

/// Pack an argument list for dispatch: reverse the arguments and, for a
/// property put with arguments, mark the single put argument as named.
pub fn pack_dispparams(kind: InvokeKind, args: &Vec<Variant>) -> (dp: DispParams)
    ensures
        dp@.rgvarg == views_of(args@).reverse(),
        dp@.named_dispids == spec_named_dispids(kind, args@.len()),
{
    let n = args.len();
    let mut rgvarg: Vec<Variant> = Vec::new();
    let mut j: usize = n;
    while j > 0
        invariant
            j <= n,
            n == args@.len(),
            rgvarg@.len() == n - j,
            forall|k: int| 0 <= k < rgvarg@.len() ==> (#[trigger] rgvarg@[k])@ == args@[n - 1 - k]@,
        decreases j,
    {
        j = j - 1;
        let v = args[j].duplicate();
        rgvarg.push(v);
    }
    proof {
        assert(views_of(rgvarg@) =~= views_of(args@).reverse());
    }
    let mut named_dispids: Vec<i32> = Vec::new();
    let is_put = match kind {
        InvokeKind::PropertyPut => true,
        _ => false,
    };
    if is_put && n > 0 {
        named_dispids.push(DISPID_PROPERTYPUT);
    }
    proof {
        assert(named_dispids@ =~= spec_named_dispids(kind, args@.len()));
    }
    DispParams { rgvarg, named_dispids }
}

/// What the driver reports back for an object-creation request.
#[derive(Clone, Copy, PartialEq, Eq, Structural, Debug)]
pub enum CreateOutcome {
    /// The server was created; the driver assigned it this identity.
    Created { handle: u32 },
    /// The program identifier did not resolve to a class identifier.
    NoSuchProgId,
    /// The class resolved, but the server could not be instantiated.
    CreateFailed,
}

/// What the driver reports back for one invocation request.
#[derive(Debug)]
pub enum CallOutcome {
    /// The call succeeded and returned this variant (an empty variant when
    /// the member returns nothing).
    Returned(Variant),
    /// The member name did not resolve to a dispatch identifier.
    NameNotFound,
    /// The remote object failed while executing the call.
    CallFailed,
}

/// The mathematical value of a [`CallOutcome`].
pub enum CallOutcomeV {
    Returned(VariantV),
    NameNotFound,
    CallFailed,
}

impl View for CallOutcome {
    type V = CallOutcomeV;

    open spec fn view(&self) -> CallOutcomeV {
        match self {
            CallOutcome::Returned(v) => CallOutcomeV::Returned(v@),
            CallOutcome::NameNotFound => CallOutcomeV::NameNotFound,
            CallOutcome::CallFailed => CallOutcomeV::CallFailed,
        }
    }
}

/// An owned reference to a live remote automation object, known to the
/// verified layer by its numeric identity. The driver that performs the
/// remote calls owns the actual connection; the reference must be released
/// by a final "Quit" call exactly once.
#[derive(Debug)]
pub struct IDispatchWrapper {
    pub handle: u32,
}

/// Interpreting the driver's answer to an object-creation request.
pub open spec fn spec_created(o: CreateOutcome) -> Result<IDispatchWrapper, OleError> {
    match o {
        CreateOutcome::Created { handle } => Ok(IDispatchWrapper { handle }),
        CreateOutcome::NoSuchProgId => Err(OleError::ResolutionError),
        CreateOutcome::CreateFailed => Err(OleError::InstantiationError),
    }
}

/// Interpreting the driver's answer to an invocation request.
pub open spec fn spec_decoded(o: CallOutcomeV) -> Result<VariantV, OleError> {
    match o {
        CallOutcomeV::Returned(v) => Ok(v),
        CallOutcomeV::NameNotFound => Err(OleError::MemberNotFound),
        CallOutcomeV::CallFailed => Err(OleError::InvocationError),
    }
}

/// A typed property-get answer, decoded as a 32-bit integer.
pub open spec fn spec_typed_int(o: CallOutcomeV) -> Result<i32, OleError> {
    match spec_decoded(o) {
        Ok(v) => spec_as_int(v),
        Err(e) => Err(e),
    }
}

/// A typed property-get answer, decoded as a boolean.
pub open spec fn spec_typed_bool(o: CallOutcomeV) -> Result<bool, OleError> {
    match spec_decoded(o) {
        Ok(v) => spec_as_bool(v),
        Err(e) => Err(e),
    }
}

/// A typed property-get answer, decoded as a string.
pub open spec fn spec_typed_str(o: CallOutcomeV) -> Result<Seq<char>, OleError> {
    match spec_decoded(o) {
        Ok(v) => spec_as_str(v),
        Err(e) => Err(e),
    }
}

impl IDispatchWrapper {
    /// The object handed back for a creation request, or the failure the
    /// protocol distinguishes: an unregistered program identifier, or a
    /// server that could not be instantiated.
    pub fn new(outcome: &CreateOutcome) -> (r: Result<IDispatchWrapper, OleError>)
        ensures
            r == spec_created(*outcome),
    {
        match outcome {
            CreateOutcome::Created { handle } => Ok(IDispatchWrapper { handle: *handle }),
            CreateOutcome::NoSuchProgId => Err(OleError::ResolutionError),
            CreateOutcome::CreateFailed => Err(OleError::InstantiationError),
        }
    }

    /// The invocation descriptor for a member call on this object.
    pub fn invoke(&self, kind: InvokeKind, name: &str, args: Vec<Variant>) -> (req: InvokeRequest)
        ensures
            req@ == (InvokeRequestV {
                target: self.handle,
                kind,
                member: name@,
                args: views_of(args@),
            }),
    {
        InvokeRequest { target: self.handle, kind, member: String::from_str(name), args }
    }

    /// The descriptor of a property get, which carries no arguments.
    pub fn get(&self, name: &str) -> (req: InvokeRequest)
        ensures
            req@ == (InvokeRequestV {
                target: self.handle,
                kind: InvokeKind::PropertyGet,
                member: name@,
                args: Seq::<VariantV>::empty(),
            }),
    {
        let req = self.invoke(InvokeKind::PropertyGet, name, Vec::new());
        proof {
            assert(req@.args =~= Seq::<VariantV>::empty());
        }
        req
    }

    /// The descriptor of a property put.
    pub fn put(&self, name: &str, args: Vec<Variant>) -> (req: InvokeRequest)
        ensures
            req@ == (InvokeRequestV {
                target: self.handle,
                kind: InvokeKind::PropertyPut,
                member: name@,
                args: views_of(args@),
            }),
    {
        self.invoke(InvokeKind::PropertyPut, name, args)
    }

    /// The descriptor of a method call.
    pub fn call(&self, name: &str, args: Vec<Variant>) -> (req: InvokeRequest)
        ensures
            req@ == (InvokeRequestV {
                target: self.handle,
                kind: InvokeKind::MethodCall,
                member: name@,
                args: views_of(args@),
            }),
    {
        self.invoke(InvokeKind::MethodCall, name, args)
    }

    /// Decode the driver's answer to an invocation: the returned variant on
    /// success, the member-resolution or remote failure otherwise.
    pub fn decode(outcome: &CallOutcome) -> (r: Result<Variant, OleError>)
        ensures
            (outcome@ matches CallOutcomeV::Returned(v) ==> r matches Ok(rv) && rv@ == v),
            outcome@ is NameNotFound ==> r == Err::<Variant, OleError>(OleError::MemberNotFound),
            outcome@ is CallFailed ==> r == Err::<Variant, OleError>(OleError::InvocationError),
    {
        match outcome {
            CallOutcome::Returned(v) => Ok(v.duplicate()),
            CallOutcome::NameNotFound => Err(OleError::MemberNotFound),
            CallOutcome::CallFailed => Err(OleError::InvocationError),
        }
    }

    /// Decode a property-get answer as a 32-bit integer, propagating either
    /// the invocation failure or a type mismatch.
    pub fn int32(&self, outcome: &CallOutcome) -> (r: Result<i32, OleError>)
        ensures
            r == spec_typed_int(outcome@),
    {
        match Self::decode(outcome) {
            Ok(v) => v.int32(),
            Err(e) => Err(e),
        }
    }

    /// Decode a property-get answer as a boolean, propagating either the
    /// invocation failure or a type mismatch.
    pub fn bool(&self, outcome: &CallOutcome) -> (r: Result<bool, OleError>)
        ensures
            r == spec_typed_bool(outcome@),
    {
        match Self::decode(outcome) {
            Ok(v) => v.bool(),
            Err(e) => Err(e),
        }
    }

    /// Decode a property-get answer as a string, propagating either the
    /// invocation failure or a type mismatch.
    pub fn string(&self, outcome: &CallOutcome) -> (r: Result<String, OleError>)
        ensures
            (spec_typed_str(outcome@) matches Ok(t) ==> r matches Ok(s) && s@ == t),
            (spec_typed_str(outcome@) matches Err(e) ==> r == Err::<String, OleError>(e)),
    {
        match Self::decode(outcome) {
            Ok(v) => v.string(),
            Err(e) => Err(e),
        }
    }
}

impl Variant {
    /// Decode as an object reference: a non-owning handle on the referenced
    /// object, whose lifetime stays with its owner.
    pub fn idispatch(&self) -> (r: Result<IDispatchWrapper, OleError>)
        ensures
            r == spec_as_wrapper(self@),
    {
        match self {
            Variant::Dispatch(h) => Ok(IDispatchWrapper { handle: *h }),
            _ => Err(OleError::TypeMismatch { expected: VT_DISPATCH, actual: self.vt() }),
        }
    }
}

/// Decoding a variant as an object reference wrapped as a handle.
pub open spec fn spec_as_wrapper(v: VariantV) -> Result<IDispatchWrapper, OleError> {
    match v {
        VariantV::Dispatch(h) => Ok(IDispatchWrapper { handle: h }),
        _ => Err(OleError::TypeMismatch { expected: VT_DISPATCH, actual: spec_vt(v) }),
    }
}

} // verus!
