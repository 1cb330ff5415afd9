use vstd::prelude::*;
use crate::error::ClrError;

verus! {

/// Tag for an empty boxed value.
pub const VT_EMPTY: u16 = 0;

/// Tag for a boxed 32-bit signed integer.
pub const VT_I4: u16 = 3;

/// Tag for a boxed host-owned string.
pub const VT_BSTR: u16 = 8;

/// Tag for a boxed boolean.
pub const VT_BOOL: u16 = 11;

/// Tag for a boxed value holding another boxed value.
pub const VT_VARIANT: u16 = 12;

/// Tag for a boxed reference to a hosted object.
pub const VT_UNKNOWN: u16 = 13;

/// Tag for a boxed unsigned byte.
pub const VT_UI1: u16 = 17;

/// Tag bit marking a bounded array of the tagged element kind.
pub const VT_ARRAY: u16 = 0x2000;

/// A tagged boxed value, the shape in which data crosses the boundary
/// between native code and the hosted environment.
#[derive(Debug, PartialEq)]
pub enum ClrValue {
    /// The zeroed value used where no receiver or payload is supplied.
    Empty,
    /// A boolean.
    Bool(bool),
    /// A 32-bit signed integer.
    Int32(i32),
    /// An unsigned byte, the element kind of raw buffers.
    UInt8(u8),
    /// An owned string; the native side releases it exactly once.
    Str(String),
    /// An opaque reference to an object living in the hosted environment,
    /// identified by the handle the boundary assigned to it.
    Object(u64),
    /// A bounded array of boxed values with the given element tag.
    Array(u16, Vec<ClrValue>),
}

impl ClrValue {
    /// The tag describing this value's kind.
    pub open spec fn spec_tag(&self) -> u16 {
        match self {
            ClrValue::Empty => VT_EMPTY,
            ClrValue::Bool(_) => VT_BOOL,
            ClrValue::Int32(_) => VT_I4,
            ClrValue::UInt8(_) => VT_UI1,
            ClrValue::Str(_) => VT_BSTR,
            ClrValue::Object(_) => VT_UNKNOWN,
            ClrValue::Array(t, _) => VT_ARRAY | *t,
        }
    }

    /// Returns the tag describing this value's kind.
    pub fn tag(&self) -> (r: u16)
        ensures
            r == self.spec_tag(),
    {
        match self {
            ClrValue::Empty => VT_EMPTY,
            ClrValue::Bool(_) => VT_BOOL,
            ClrValue::Int32(_) => VT_I4,
            ClrValue::UInt8(_) => VT_UI1,
            ClrValue::Str(_) => VT_BSTR,
            ClrValue::Object(_) => VT_UNKNOWN,
            ClrValue::Array(t, _) => VT_ARRAY | *t,
        }
    }

    /// Extracts the boolean payload; any other kind is unsupported.
    pub fn as_bool(&self) -> (r: Result<bool, ClrError>)
        ensures
            r is Ok <==> spec_unbox_bool(*self) is Some,
            r is Ok ==> Some(r->Ok_0) == spec_unbox_bool(*self),
            r is Err ==> r->Err_0 == ClrError::VariantUnsupported,
    {
        match self {
            ClrValue::Bool(b) => Ok(*b),
            _ => Err(ClrError::VariantUnsupported),
        }
    }

    /// Extracts the 32-bit integer payload; any other kind is unsupported.
    pub fn as_i32(&self) -> (r: Result<i32, ClrError>)
        ensures
            r is Ok <==> spec_unbox_i32(*self) is Some,
            r is Ok ==> Some(r->Ok_0) == spec_unbox_i32(*self),
            r is Err ==> r->Err_0 == ClrError::VariantUnsupported,
    {
        match self {
            ClrValue::Int32(n) => Ok(*n),
            _ => Err(ClrError::VariantUnsupported),
        }
    }
}

/// The boxed form of a boolean.
pub open spec fn spec_box_bool(b: bool) -> ClrValue {
    ClrValue::Bool(b)
}

/// The boxed form of a 32-bit signed integer.
pub open spec fn spec_box_i32(n: i32) -> ClrValue {
    ClrValue::Int32(n)
}

/// True when `v` is the boxed form of the text `s`.
pub open spec fn spec_box_str(s: Seq<char>, v: ClrValue) -> bool {
    v matches ClrValue::Str(t) && t@ == s
}

/// The boolean a boxed value unpacks to, when it holds one.
pub open spec fn spec_unbox_bool(v: ClrValue) -> Option<bool> {
    match v {
        ClrValue::Bool(b) => Some(b),
        _ => None,
    }
}

/// The 32-bit integer a boxed value unpacks to, when it holds one.
pub open spec fn spec_unbox_i32(v: ClrValue) -> Option<i32> {
    match v {
        ClrValue::Int32(n) => Some(n),
        _ => None,
    }
}

/// The text a boxed value unpacks to, when it holds a string.
pub open spec fn spec_unbox_str(v: ClrValue) -> Option<Seq<char>> {
    match v {
        ClrValue::Str(t) => Some(t@),
        _ => None,
    }
}

/// Extracts the text of a string-typed boxed value, consuming (and thereby
/// releasing) the value; any other kind is unsupported.
pub fn unpack_string(v: ClrValue) -> (r: Result<String, ClrError>)
    ensures
        r is Ok <==> spec_unbox_str(v) is Some,
        r is Ok ==> Some(r->Ok_0@) == spec_unbox_str(v),
        r is Err ==> r->Err_0 == ClrError::VariantUnsupported,
{
    match v {
        ClrValue::Str(t) => Ok(t),
        _ => Err(ClrError::VariantUnsupported),
    }
}

/// Round-trip marshalling: unboxing the boxed form of a native value
/// yields that value again, for every value of every supported kind.
pub proof fn lemma_marshal_round_trip(b: bool, n: i32, s: Seq<char>, sv: ClrValue)
    requires
        spec_box_str(s, sv),
    ensures
        spec_unbox_bool(spec_box_bool(b)) == Some(b),
        spec_unbox_i32(spec_box_i32(n)) == Some(n),
        spec_unbox_str(sv) == Some(s),
{
}

/// Conversion of native values into their boxed form.
pub trait Variant {
    /// True when `v` is the boxed form of this value.
    spec fn spec_variant_ok(&self, v: ClrValue) -> bool;

    /// The tag of the boxed form of values of this type.
    spec fn spec_var_type() -> u16;

    /// Boxes the value.
    fn to_variant(&self) -> (r: ClrValue)
        ensures
            self.spec_variant_ok(r),
            r.spec_tag() == Self::spec_var_type(),
    ;

    /// Returns the tag of the boxed form of values of this type.
    fn var_type() -> (r: u16)
        ensures
            r == Self::spec_var_type(),
    ;
}

impl Variant for bool {
    open spec fn spec_variant_ok(&self, v: ClrValue) -> bool {
        v == spec_box_bool(*self)
    }

    open spec fn spec_var_type() -> u16 {
        VT_BOOL
    }

    fn to_variant(&self) -> (r: ClrValue) {
        ClrValue::Bool(*self)
    }

    fn var_type() -> (r: u16) {
        VT_BOOL
    }
}

impl Variant for i32 {
    open spec fn spec_variant_ok(&self, v: ClrValue) -> bool {
        v == spec_box_i32(*self)
    }

    open spec fn spec_var_type() -> u16 {
        VT_I4
    }

    fn to_variant(&self) -> (r: ClrValue) {
        ClrValue::Int32(*self)
    }

    fn var_type() -> (r: u16) {
        VT_I4
    }
}

impl Variant for String {
    open spec fn spec_variant_ok(&self, v: ClrValue) -> bool {
        spec_box_str(self@, v)
    }

    open spec fn spec_var_type() -> u16 {
        VT_BSTR
    }

    fn to_variant(&self) -> (r: ClrValue) {
        ClrValue::Str(self.clone())
    }

    fn var_type() -> (r: u16) {
        VT_BSTR
    }
}

impl<'a> Variant for &'a str {
    open spec fn spec_variant_ok(&self, v: ClrValue) -> bool {
        spec_box_str(self@, v)
    }

    open spec fn spec_var_type() -> u16 {
        VT_BSTR
    }

    fn to_variant(&self) -> (r: ClrValue) {
        ClrValue::Str(String::from_str(self))
    }

    fn var_type() -> (r: u16) {
        VT_BSTR
    }
}

/// A bounded array container as handed across the boundary: an element
/// tag, the declared lower bound, and the elements themselves.
#[derive(Debug, PartialEq)]
pub struct SafeArray {
    /// Tag of the elements.
    pub vt: u16,
    /// Declared lower bound of the array.
    pub lbound: i32,
    /// The elements, in order.
    pub elements: Vec<ClrValue>,
}

/// Packs a homogeneous argument list: the values are boxed into an array
/// tagged with their common element kind, and that array is itself wrapped
/// as the single element of a container of boxed values, matching the call
/// convention that expects one argument-array parameter.
pub fn create_safe_array_args<T: Variant>(args: Vec<T>) -> (r: SafeArray)
    ensures
        r.vt == VT_VARIANT,
        r.lbound == 0,
        r.elements@.len() == 1,
        r.elements@[0] matches ClrValue::Array(t, elems) && t == (VT_ARRAY | T::spec_var_type())
            && elems@.len() == args@.len() && (forall|i: int|
            0 <= i < args@.len() ==> args@[i].spec_variant_ok(#[trigger] elems@[i])),
{
    let vartype = T::var_type();
    let mut inner: Vec<ClrValue> = Vec::new();
    let mut i: usize = 0;
    while i < args.len()
        invariant
            i <= args@.len(),
            inner@.len() == i,
            forall|j: int| 0 <= j < i ==> args@[j].spec_variant_ok(#[trigger] inner@[j]),
        decreases args@.len() - i,
    {
        inner.push(args[i].to_variant());
        i = i + 1;
    }
    let mut elements: Vec<ClrValue> = Vec::new();
    elements.push(ClrValue::Array(VT_ARRAY | vartype, inner));
    SafeArray { vt: VT_VARIANT, lbound: 0, elements }
}

/// Packs already-boxed values, each standing alone, into a container of
/// boxed values.
pub fn create_safe_args(args: Vec<ClrValue>) -> (r: SafeArray)
    ensures
        r.vt == VT_VARIANT,
        r.lbound == 0,
        r.elements == args,
{
    SafeArray { vt: VT_VARIANT, lbound: 0, elements: args }
}

/// Wraps a raw byte buffer as a bounded array of unsigned bytes, the form
/// in which in-memory code units are submitted to the loader.
pub fn create_safe_array_buffer(data: &[u8]) -> (r: SafeArray)
    ensures
        r.vt == VT_UI1,
        r.lbound == 0,
        r.elements@.len() == data@.len(),
        forall|i: int| 0 <= i < data@.len() ==> #[trigger] r.elements@[i] == ClrValue::UInt8(
            data@[i],
        ),
{
    let mut elements: Vec<ClrValue> = Vec::new();
    let mut i: usize = 0;
    while i < data.len()
        invariant
            i <= data@.len(),
            elements@.len() == i,
            forall|j: int| 0 <= j < i ==> #[trigger] elements@[j] == ClrValue::UInt8(data@[j]),
        decreases data@.len() - i,
    {
        elements.push(ClrValue::UInt8(data[i]));
        i = i + 1;
    }
    SafeArray { vt: VT_UI1, lbound: 0, elements }
}

} // verus!
