use vstd::prelude::*;
use crate::error::ClrError;
use crate::value::{ClrValue, SafeArray, create_safe_args};
use crate::wide::str_eq;

verus! {

/// Flags that control binding: which members a reflective lookup considers
/// eligible and how an invocation binds to them.
#[derive(Clone, Copy, Debug, PartialEq, Eq, Structural)]
pub enum BindingFlags {
    /// No special options.
    Default,
    /// Ignore case when looking up members.
    IgnoreCase,
    /// Consider only members declared on the supplied type itself.
    DeclaredOnly,
    /// Instance members are eligible.
    Instance,
    /// Static members are eligible.
    Static,
    /// Public members are eligible.
    Public,
    /// Non-public members are eligible.
    NonPublic,
    /// Include inherited static members in the search.
    FlattenHierarchy,
    /// The member to bind is a method to invoke.
    InvokeMethod,
    /// The member to bind is a constructor.
    CreateInstance,
    /// The member to read is a field.
    GetField,
    /// The member to write is a field.
    SetField,
    /// The member to read is a property.
    GetProperty,
    /// The member to write is a property.
    SetProperty,
    /// Set a dispatch property.
    PutDispProperty,
    /// Set a dispatch reference property.
    PutRefDispProperty,
    /// Use the most precise match during binding.
    ExactBinding,
    /// Suppress coercion of argument types.
    SuppressChangeType,
    /// Allow binding to optional parameters.
    OptionalParamBinding,
    /// Ignore the return value.
    IgnoreReturn,
}

impl BindingFlags {
    /// The bit this flag contributes to a selector word.
    pub open spec fn spec_bits(self) -> u32 {
        match self {
            BindingFlags::Default => 0,
            BindingFlags::IgnoreCase => 1,
            BindingFlags::DeclaredOnly => 2,
            BindingFlags::Instance => 4,
            BindingFlags::Static => 8,
            BindingFlags::Public => 16,
            BindingFlags::NonPublic => 32,
            BindingFlags::FlattenHierarchy => 64,
            BindingFlags::InvokeMethod => 256,
            BindingFlags::CreateInstance => 512,
            BindingFlags::GetField => 1024,
            BindingFlags::SetField => 2048,
            BindingFlags::GetProperty => 4096,
            BindingFlags::SetProperty => 8192,
            BindingFlags::PutDispProperty => 16384,
            BindingFlags::PutRefDispProperty => 32768,
            BindingFlags::ExactBinding => 65536,
            BindingFlags::SuppressChangeType => 131072,
            BindingFlags::OptionalParamBinding => 262144,
            BindingFlags::IgnoreReturn => 16777216,
        }
    }

    /// Returns the bit this flag contributes to a selector word.
    pub fn bits(self) -> (r: u32)
        ensures
            r == self.spec_bits(),
    {
        match self {
            BindingFlags::Default => 0,
            BindingFlags::IgnoreCase => 1,
            BindingFlags::DeclaredOnly => 2,
            BindingFlags::Instance => 4,
            BindingFlags::Static => 8,
            BindingFlags::Public => 16,
            BindingFlags::NonPublic => 32,
            BindingFlags::FlattenHierarchy => 64,
            BindingFlags::InvokeMethod => 256,
            BindingFlags::CreateInstance => 512,
            BindingFlags::GetField => 1024,
            BindingFlags::SetField => 2048,
            BindingFlags::GetProperty => 4096,
            BindingFlags::SetProperty => 8192,
            BindingFlags::PutDispProperty => 16384,
            BindingFlags::PutRefDispProperty => 32768,
            BindingFlags::ExactBinding => 65536,
            BindingFlags::SuppressChangeType => 131072,
            BindingFlags::OptionalParamBinding => 262144,
            BindingFlags::IgnoreReturn => 16777216,
        }
    }
}

/// Whether an invocation targets a static or an instance member; this is
/// the only axis of the selector that varies with caller intent.
#[derive(Clone, Copy, Debug, PartialEq, Eq, Structural)]
pub enum Invocation {
    /// The member to invoke is static.
    Static,
    /// The member to invoke is an instance member.
    Instance,
}

/// The selector used when enumerating a type's members: both visibility
/// kinds, both member kinds, and the flattened hierarchy.
pub open spec fn spec_enumeration_flags() -> u32 {
    (BindingFlags::Public.spec_bits() + BindingFlags::Instance.spec_bits()
        + BindingFlags::Static.spec_bits() + BindingFlags::FlattenHierarchy.spec_bits()
        + BindingFlags::NonPublic.spec_bits()) as u32
}

/// Returns the selector used when enumerating a type's members.
pub fn enumeration_flags() -> (r: u32)
    ensures
        r == spec_enumeration_flags(),
{
    BindingFlags::Public.bits() + BindingFlags::Instance.bits() + BindingFlags::Static.bits()
        + BindingFlags::FlattenHierarchy.bits() + BindingFlags::NonPublic.bits()
}

/// The selector an invocation uses: always both visibility kinds and the
/// invoke-method kind, with the static/instance axis chosen by the caller.
pub open spec fn spec_invocation_flags(inv: Invocation) -> u32 {
    match inv {
        Invocation::Static => (BindingFlags::NonPublic.spec_bits()
            + BindingFlags::Public.spec_bits() + BindingFlags::Static.spec_bits()
            + BindingFlags::InvokeMethod.spec_bits()) as u32,
        Invocation::Instance => (BindingFlags::NonPublic.spec_bits()
            + BindingFlags::Public.spec_bits() + BindingFlags::Instance.spec_bits()
            + BindingFlags::InvokeMethod.spec_bits()) as u32,
    }
}

/// Returns the selector an invocation with the given intent uses.
pub fn invocation_flags(inv: Invocation) -> (r: u32)
    ensures
        r == spec_invocation_flags(inv),
{
    match inv {
        Invocation::Static => BindingFlags::NonPublic.bits() + BindingFlags::Public.bits()
            + BindingFlags::Static.bits() + BindingFlags::InvokeMethod.bits(),
        Invocation::Instance => BindingFlags::NonPublic.bits() + BindingFlags::Public.bits()
            + BindingFlags::Instance.bits() + BindingFlags::InvokeMethod.bits(),
    }
}

/// True when a selector word admits a member of the given visibility and
/// kind: the member's visibility bit and its kind bit must both be set.
pub open spec fn spec_selector_admits(flags: u32, is_public: bool, is_static: bool) -> bool {
    &&& if is_public {
        flags & BindingFlags::Public.spec_bits() != 0
    } else {
        flags & BindingFlags::NonPublic.spec_bits() != 0
    }
    &&& if is_static {
        flags & BindingFlags::Static.spec_bits() != 0
    } else {
        flags & BindingFlags::Instance.spec_bits() != 0
    }
}

/// Returns whether a selector word admits a member of the given visibility
/// and kind.
pub fn selector_admits(flags: u32, is_public: bool, is_static: bool) -> (r: bool)
    ensures
        r == spec_selector_admits(flags, is_public, is_static),
{
    let visibility_ok = if is_public {
        flags & BindingFlags::Public.bits() != 0
    } else {
        flags & BindingFlags::NonPublic.bits() != 0
    };
    let kind_ok = if is_static {
        flags & BindingFlags::Static.bits() != 0
    } else {
        flags & BindingFlags::Instance.bits() != 0
    };
    visibility_ok && kind_ok
}

/// Enumeration completeness: the broadest selector, the one member
/// enumeration always uses, admits every member that any selector admits —
/// in particular every member that shows up when each visibility/kind
/// combination is probed individually.
pub proof fn lemma_enumeration_completeness(probe_flags: u32, is_public: bool, is_static: bool)
    requires
        spec_selector_admits(probe_flags, is_public, is_static),
    ensures
        spec_selector_admits(spec_enumeration_flags(), is_public, is_static),
{
    assert(124u32 & 16u32 != 0u32) by (bit_vector);
    assert(124u32 & 32u32 != 0u32) by (bit_vector);
    assert(124u32 & 8u32 != 0u32) by (bit_vector);
    assert(124u32 & 4u32 != 0u32) by (bit_vector);
}

/// Both invocation selectors admit both visibilities: only the member-kind
/// axis distinguishes them.
pub proof fn lemma_invocation_selector_visibility(inv: Invocation, is_public: bool)
    ensures
        spec_invocation_flags(inv) & BindingFlags::Public.spec_bits() != 0,
        spec_invocation_flags(inv) & BindingFlags::NonPublic.spec_bits() != 0,
        spec_selector_admits(spec_invocation_flags(inv), is_public, inv is Static),
{
    assert(312u32 & 16u32 != 0u32) by (bit_vector);
    assert(312u32 & 32u32 != 0u32) by (bit_vector);
    assert(312u32 & 8u32 != 0u32) by (bit_vector);
    assert(308u32 & 16u32 != 0u32) by (bit_vector);
    assert(308u32 & 32u32 != 0u32) by (bit_vector);
    assert(308u32 & 4u32 != 0u32) by (bit_vector);
}

/// What member enumeration reports of one callable member: its declared
/// name and its canonical display signature.
#[derive(Debug, PartialEq)]
pub struct MethodDesc {
    /// The member's declared name.
    pub name: String,
    /// The member's canonical display signature, unique per overload.
    pub display: String,
}

impl MethodDesc {
    /// Returns a copy of the description.
    pub fn duplicate(&self) -> (r: MethodDesc)
        ensures
            r == *self,
    {
        MethodDesc { name: self.name.clone(), display: self.display.clone() }
    }
}

/// True when `k` is the position of the first member of `methods` whose
/// display signature equals `sig`.
pub open spec fn spec_first_signature_match(methods: Seq<MethodDesc>, sig: Seq<char>, k: int) -> bool {
    &&& 0 <= k < methods.len()
    &&& methods[k].display@ == sig
    &&& forall|j: int| 0 <= j < k ==> #[trigger] methods[j].display@ != sig
}

/// True when `k` is the position of the first member of `methods` whose
/// declared name equals `name`.
pub open spec fn spec_first_name_match(methods: Seq<MethodDesc>, name: Seq<char>, k: int) -> bool {
    &&& 0 <= k < methods.len()
    &&& methods[k].name@ == name
    &&& forall|j: int| 0 <= j < k ==> #[trigger] methods[j].name@ != name
}

/// Resolves a member by its full display signature: the position of the
/// first member whose signature matches exactly, or the not-found error
/// when no member's signature matches.
pub fn method_signature(methods: &Vec<MethodDesc>, signature: &str) -> (r: Result<usize, ClrError>)
    ensures
        r matches Ok(k) ==> spec_first_signature_match(methods@, signature@, k as int),
        r is Err ==> r->Err_0 == ClrError::MethodNotFound && (forall|j: int|
            0 <= j < methods@.len() ==> #[trigger] methods@[j].display@ != signature@),
{
    let mut i: usize = 0;
    while i < methods.len()
        invariant
            i <= methods@.len(),
            forall|j: int| 0 <= j < i ==> #[trigger] methods@[j].display@ != signature@,
        decreases methods@.len() - i,
    {
        if str_eq(methods[i].display.as_str(), signature) {
            return Ok(i);
        }
        i = i + 1;
    }
    Err(ClrError::MethodNotFound)
}

/// Resolves a member by its declared name: the position of the first
/// member whose name matches exactly, or the not-found error when none
/// does.
pub fn method(methods: &Vec<MethodDesc>, name: &str) -> (r: Result<usize, ClrError>)
    ensures
        r matches Ok(k) ==> spec_first_name_match(methods@, name@, k as int),
        r is Err ==> r->Err_0 == ClrError::MethodNotFound && (forall|j: int|
            0 <= j < methods@.len() ==> #[trigger] methods@[j].name@ != name@),
{
    let mut i: usize = 0;
    while i < methods.len()
        invariant
            i <= methods@.len(),
            forall|j: int| 0 <= j < i ==> #[trigger] methods@[j].name@ != name@,
        decreases methods@.len() - i,
    {
        if str_eq(methods[i].name.as_str(), name) {
            return Ok(i);
        }
        i = i + 1;
    }
    Err(ClrError::MethodNotFound)
}

/// Whenever some member's signature matches, a first such member exists,
/// so signature resolution cannot miss.
pub proof fn lemma_first_match_exists(methods: Seq<MethodDesc>, sig: Seq<char>)
    requires
        exists|i: int| 0 <= i < methods.len() && #[trigger] methods[i].display@ == sig,
    ensures
        exists|k: int| spec_first_signature_match(methods, sig, k),
    decreases methods.len(),
{
    let i = choose|i: int| 0 <= i < methods.len() && #[trigger] methods[i].display@ == sig;
    if methods[0].display@ == sig {
        assert(spec_first_signature_match(methods, sig, 0));
    } else {
        let tail = methods.drop_first();
        assert(0 <= i - 1 < tail.len() && tail[i - 1].display@ == sig);
        lemma_first_match_exists(tail, sig);
        let k = choose|k: int| spec_first_signature_match(tail, sig, k);
        assert(methods[k + 1].display@ == sig);
        assert forall|j: int| 0 <= j < k + 1 implies #[trigger] methods[j].display@ != sig by {
            if j > 0 {
                assert(tail[j - 1] == methods[j]);
            }
        }
        assert(spec_first_signature_match(methods, sig, k + 1));
    }
}

/// Signature disambiguation: when two members share a display name but
/// carry different full signatures, resolving by one member's signature
/// always succeeds, and whichever member it yields has exactly that
/// signature — never the other overload.
pub proof fn lemma_signature_disambiguation(methods: Seq<MethodDesc>, i: int, j: int)
    requires
        0 <= i < methods.len(),
        0 <= j < methods.len(),
        methods[i].name@ == methods[j].name@,
        methods[i].display@ != methods[j].display@,
    ensures
        exists|k: int| spec_first_signature_match(methods, methods[i].display@, k),
        forall|k: int| spec_first_signature_match(methods, methods[i].display@, k)
            ==> methods[k].display@ == methods[i].display@ && k != j,
{
    assert(methods[i].display@ == methods[i].display@);
    lemma_first_match_exists(methods, methods[i].display@);
}

/// A dynamic member invocation as handed to the host: the member name, the
/// binding selector, the receiver (zeroed when absent), and the packed
/// argument array (absent when no arguments were supplied).
#[derive(Debug, PartialEq)]
pub struct InvocationRequest {
    /// Name of the member to invoke.
    pub method_name: String,
    /// The binding selector word.
    pub flags: u32,
    /// The receiver, or the zeroed value for static calls.
    pub instance: ClrValue,
    /// The packed argument array, when arguments were supplied.
    pub args: Option<SafeArray>,
}

/// Builds the dynamic invocation of a member: the selector always admits
/// both visibilities and requests method invocation, with the
/// static/instance axis set by the caller; an absent receiver becomes the
/// zeroed value; supplied arguments are packed one-for-one into a
/// container of boxed values, and absent arguments stay absent.
pub fn prepare_invocation(
    name: &str,
    instance: Option<ClrValue>,
    args: Option<Vec<ClrValue>>,
    invocation_type: Invocation,
) -> (r: InvocationRequest)
    ensures
        r.method_name@ == name@,
        r.flags == spec_invocation_flags(invocation_type),
        (match instance {
            Some(v) => r.instance == v,
            None => r.instance == ClrValue::Empty,
        }),
        (match args {
            Some(a) => r.args matches Some(sa) && sa.vt == crate::value::VT_VARIANT && sa.lbound
                == 0 && sa.elements@ == a@,
            None => r.args is None,
        }),
{
    let flags = invocation_flags(invocation_type);
    let receiver = match instance {
        Some(v) => v,
        None => ClrValue::Empty,
    };
    let packed = match args {
        Some(a) => Some(create_safe_args(a)),
        None => None,
    };
    InvocationRequest {
        method_name: String::from_str(name),
        flags,
        instance: receiver,
        args: packed,
    }
}

/// Converts one enumerated member list as fetched from the host: every
/// element must have been fetched and cast successfully, and any missing
/// element aborts the whole enumeration rather than being skipped.
pub fn collect_members(raw: &Vec<Option<MethodDesc>>) -> (r: Result<Vec<MethodDesc>, ClrError>)
    ensures
        r is Ok <==> (forall|i: int| 0 <= i < raw@.len() ==> #[trigger] raw@[i] is Some),
        r matches Ok(v) ==> v@.len() == raw@.len() && (forall|i: int|
            0 <= i < raw@.len() ==> #[trigger] v@[i] == raw@[i]->0),
        r is Err ==> r->Err_0 == ClrError::CastingError("_MethodInfo"),
{
    let mut out: Vec<MethodDesc> = Vec::new();
    let mut i: usize = 0;
    while i < raw.len()
        invariant
            i <= raw@.len(),
            out@.len() == i,
            forall|j: int| 0 <= j < i ==> #[trigger] raw@[j] is Some,
            forall|j: int| 0 <= j < i ==> #[trigger] out@[j] == raw@[j]->0,
        decreases raw@.len() - i,
    {
        match &raw[i] {
            Some(m) => {
                out.push(m.duplicate());
            },
            None => {
                return Err(ClrError::CastingError("_MethodInfo"));
            },
        }
        i = i + 1;
    }
    Ok(out)
}

/// Converts one enumerated type-name list as fetched from the host; as
/// with members, a missing element aborts the whole enumeration.
pub fn collect_types(raw: &Vec<Option<String>>) -> (r: Result<Vec<String>, ClrError>)
    ensures
        r is Ok <==> (forall|i: int| 0 <= i < raw@.len() ==> #[trigger] raw@[i] is Some),
        r matches Ok(v) ==> v@.len() == raw@.len() && (forall|i: int|
            0 <= i < raw@.len() ==> #[trigger] v@[i] == raw@[i]->0),
        r is Err ==> r->Err_0 == ClrError::CastingError("_Type"),
{
    let mut out: Vec<String> = Vec::new();
    let mut i: usize = 0;
    while i < raw.len()
        invariant
            i <= raw@.len(),
            out@.len() == i,
            forall|j: int| 0 <= j < i ==> #[trigger] raw@[j] is Some,
            forall|j: int| 0 <= j < i ==> #[trigger] out@[j] == raw@[j]->0,
        decreases raw@.len() - i,
    {
        match &raw[i] {
            Some(name) => {
                out.push(name.clone());
            },
            None => {
                return Err(ClrError::CastingError("_Type"));
            },
        }
        i = i + 1;
    }
    Ok(out)
}

} // verus!
