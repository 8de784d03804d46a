//! The tagged union value type passed across the dynamic-invocation boundary.

use vstd::prelude::*;
use crate::errors::OleError;

verus! {

/// Tag code of an empty variant.
pub const VT_EMPTY: u16 = 0;
/// Tag code of a 32-bit integer variant.
pub const VT_I4: u16 = 3;
/// Tag code of a string variant.
pub const VT_BSTR: u16 = 8;
/// Tag code of an object-reference variant.
pub const VT_DISPATCH: u16 = 9;
/// Tag code of a boolean variant.
pub const VT_BOOL: u16 = 11;

/// A tagged value used to pass and receive arguments across the
/// dynamic-invocation boundary. Exactly one of {empty, boolean, 32-bit
/// integer, string, object reference} is active at a time. An object
/// reference carries only the numeric identity of a remote object; it
/// borrows that object's identity and does not own its lifetime.
#[derive(Debug)]
pub enum Variant {
    Empty,
    Bool(bool),
    Int(i32),
    Str(String),
    Dispatch(u32),
}

/// The mathematical value of a `Variant`.
pub enum VariantV {
    Empty,
    Bool(bool),
    Int(i32),
    Str(Seq<char>),
    Dispatch(u32),
}

impl View for Variant {
    type V = VariantV;

    open spec fn view(&self) -> VariantV {
        match self {
            Variant::Empty => VariantV::Empty,
            Variant::Bool(b) => VariantV::Bool(*b),
            Variant::Int(i) => VariantV::Int(*i),
            Variant::Str(s) => VariantV::Str(s@),
            Variant::Dispatch(h) => VariantV::Dispatch(*h),
        }
    }
}

/// The runtime type code tagging a variant value.
pub open spec fn spec_vt(v: VariantV) -> u16 {
    match v {
        VariantV::Empty => VT_EMPTY,
        VariantV::Bool(_) => VT_BOOL,
        VariantV::Int(_) => VT_I4,
        VariantV::Str(_) => VT_BSTR,
        VariantV::Dispatch(_) => VT_DISPATCH,
    }
}

/// Decoding a variant as a boolean: succeeds exactly on the matching tag.
pub open spec fn spec_as_bool(v: VariantV) -> Result<bool, OleError> {
    match v {
        VariantV::Bool(b) => Ok(b),
        _ => Err(OleError::TypeMismatch { expected: VT_BOOL, actual: spec_vt(v) }),
    }
}

/// Decoding a variant as a 32-bit integer: succeeds exactly on the matching
/// tag; a string is never parsed into a number.
pub open spec fn spec_as_int(v: VariantV) -> Result<i32, OleError> {
    match v {
        VariantV::Int(i) => Ok(i),
        _ => Err(OleError::TypeMismatch { expected: VT_I4, actual: spec_vt(v) }),
    }
}

/// Decoding a variant as a string: succeeds exactly on the matching tag.
pub open spec fn spec_as_str(v: VariantV) -> Result<Seq<char>, OleError> {
    match v {
        VariantV::Str(s) => Ok(s),
        _ => Err(OleError::TypeMismatch { expected: VT_BSTR, actual: spec_vt(v) }),
    }
}

/// Decoding a variant as an object reference: succeeds exactly on the
/// matching tag.
pub open spec fn spec_as_dispatch(v: VariantV) -> Result<u32, OleError> {
    match v {
        VariantV::Dispatch(h) => Ok(h),
        _ => Err(OleError::TypeMismatch { expected: VT_DISPATCH, actual: spec_vt(v) }),
    }
}

impl Variant {
    /// The runtime type code of the active tag.
    pub fn vt(&self) -> (t: u16)
        ensures
            t == spec_vt(self@),
    {
        match self {
            Variant::Empty => VT_EMPTY,
            Variant::Bool(_) => VT_BOOL,
            Variant::Int(_) => VT_I4,
            Variant::Str(_) => VT_BSTR,
            Variant::Dispatch(_) => VT_DISPATCH,
        }
    }

    /// Decode as a boolean; fails with a type mismatch on any other tag.
    pub fn bool(&self) -> (r: Result<bool, OleError>)
        ensures
            r == spec_as_bool(self@),
    {
        match self {
            Variant::Bool(b) => Ok(*b),
            _ => Err(OleError::TypeMismatch { expected: VT_BOOL, actual: self.vt() }),
        }
    }

    /// Decode as a 32-bit integer; fails with a type mismatch on any other
    /// tag.
    pub fn int32(&self) -> (r: Result<i32, OleError>)
        ensures
            r == spec_as_int(self@),
    {
        match self {
            Variant::Int(i) => Ok(*i),
            _ => Err(OleError::TypeMismatch { expected: VT_I4, actual: self.vt() }),
        }
    }

    /// Decode as a string; fails with a type mismatch on any other tag.
    pub fn string(&self) -> (r: Result<String, OleError>)
        ensures
            (self@ matches VariantV::Str(t) ==> r matches Ok(s) && s@ == t),
            !(self@ is Str) ==> r == Err::<String, OleError>(
                OleError::TypeMismatch { expected: VT_BSTR, actual: spec_vt(self@) },
            ),
    {
        match self {
            Variant::Str(s) => Ok(s.clone()),
            _ => Err(OleError::TypeMismatch { expected: VT_BSTR, actual: self.vt() }),
        }
    }

    /// A deep copy with the same mathematical value.
    pub fn duplicate(&self) -> (r: Variant)
        ensures
            r@ == self@,
    {
        match self {
            Variant::Empty => Variant::Empty,
            Variant::Bool(b) => Variant::Bool(*b),
            Variant::Int(i) => Variant::Int(*i),
            Variant::Str(s) => Variant::Str(s.clone()),
            Variant::Dispatch(h) => Variant::Dispatch(*h),
        }
    }

    /// Wrap a string value; total, never fails.
    pub fn of_str(s: &str) -> (v: Variant)
        ensures
            v@ == VariantV::Str(s@),
    {
        Variant::Str(String::from_str(s))
    }
}

impl From<bool> for Variant {
    /// Wrap a boolean value; total, never fails.
    fn from(value: bool) -> Self {
        Variant::Bool(value)
    }
}

impl vstd::std_specs::convert::FromSpecImpl<bool> for Variant {
    open spec fn obeys_from_spec() -> bool {
        true
    }

    open spec fn from_spec(v: bool) -> Self {
        Variant::Bool(v)
    }
}

impl From<i32> for Variant {
    /// Wrap a 32-bit integer value; total, never fails.
    fn from(value: i32) -> Self {
        Variant::Int(value)
    }
}

impl vstd::std_specs::convert::FromSpecImpl<i32> for Variant {
    open spec fn obeys_from_spec() -> bool {
        true
    }

    open spec fn from_spec(v: i32) -> Self {
        Variant::Int(v)
    }
}

/// Law: wrapping a native boolean, integer or string and decoding it with
/// the typed accessor of the matching tag returns the value unchanged.
pub proof fn lemma_variant_round_trip(b: bool, i: i32, s: Seq<char>, h: u32)
    ensures
        spec_as_bool(VariantV::Bool(b)) == Ok::<bool, OleError>(b),
        spec_as_int(VariantV::Int(i)) == Ok::<i32, OleError>(i),
        spec_as_str(VariantV::Str(s)) == Ok::<Seq<char>, OleError>(s),
        spec_as_dispatch(VariantV::Dispatch(h)) == Ok::<u32, OleError>(h),
{
}

/// Law: a typed accessor applied to a variant whose tag differs from the
/// requested one fails with a type mismatch carrying both tags; a value is
/// never silently coerced.
pub proof fn lemma_variant_no_coercion(v: VariantV)
    ensures
        !(v is Bool) ==> spec_as_bool(v) == Err::<bool, OleError>(
            OleError::TypeMismatch { expected: VT_BOOL, actual: spec_vt(v) },
        ),
        !(v is Int) ==> spec_as_int(v) == Err::<i32, OleError>(
            OleError::TypeMismatch { expected: VT_I4, actual: spec_vt(v) },
        ),
        !(v is Str) ==> spec_as_str(v) == Err::<Seq<char>, OleError>(
            OleError::TypeMismatch { expected: VT_BSTR, actual: spec_vt(v) },
        ),
        !(v is Dispatch) ==> spec_as_dispatch(v) == Err::<u32, OleError>(
            OleError::TypeMismatch { expected: VT_DISPATCH, actual: spec_vt(v) },
        ),
{
}

} // verus!
