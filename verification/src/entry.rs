use vstd::prelude::*;
use crate::error::ClrError;
use crate::value::SafeArray;
use crate::wide::{spec_ends_with, str_ends_with};

verus! {

/// The two recognized shapes of a designated entry member, classified by
/// the suffix of its display signature, plus everything else.
#[derive(Clone, Copy, Debug, PartialEq, Eq, Structural)]
pub enum EntryKind {
    /// The entry member takes no parameters.
    NoParameters,
    /// The entry member takes a single string-array parameter.
    StringArrayParameter,
    /// The entry member has neither recognized shape.
    Unsupported,
}

/// Classification of an entry member's display signature by its suffix.
pub open spec fn spec_entry_kind(display: Seq<char>) -> EntryKind {
    if spec_ends_with(display, "Main()"@) {
        EntryKind::NoParameters
    } else if spec_ends_with(display, "Main(System.String[])"@) {
        EntryKind::StringArrayParameter
    } else {
        EntryKind::Unsupported
    }
}

/// Classifies an entry member's display signature by its suffix.
pub fn classify_entry(display: &str) -> (r: EntryKind)
    ensures
        r == spec_entry_kind(display@),
{
    if str_ends_with(display, "Main()") {
        EntryKind::NoParameters
    } else if str_ends_with(display, "Main(System.String[])") {
        EntryKind::StringArrayParameter
    } else {
        EntryKind::Unsupported
    }
}

/// What invoking the entry member does with a supplied argument array: the
/// zero-parameter shape is always invoked with no parameters, the
/// string-array shape requires and passes the supplied arguments, and any
/// other shape is not a recognized entry point.
pub open spec fn spec_entry_invocation(display: Seq<char>, args: Option<SafeArray>) -> Result<
    Option<SafeArray>,
    ClrError,
> {
    match spec_entry_kind(display) {
        EntryKind::NoParameters => Ok(None),
        EntryKind::StringArrayParameter => match args {
            Some(a) => Ok(Some(a)),
            None => Err(ClrError::MissingArguments),
        },
        EntryKind::Unsupported => Err(ClrError::MethodNotFound),
    }
}

/// Decides how the entry member is invoked: returns the argument array to
/// pass (none for the zero-parameter shape, the supplied one for the
/// string-array shape), the missing-arguments error when the string-array
/// shape got none, and the not-found error for any other shape.
pub fn entry_invocation(display: &str, args: Option<SafeArray>) -> (r: Result<
    Option<SafeArray>,
    ClrError,
>)
    ensures
        r == spec_entry_invocation(display@, args),
{
    match classify_entry(display) {
        EntryKind::NoParameters => Ok(None),
        EntryKind::StringArrayParameter => match args {
            Some(a) => Ok(Some(a)),
            None => Err(ClrError::MissingArguments),
        },
        EntryKind::Unsupported => Err(ClrError::MethodNotFound),
    }
}

/// Entry-point classification: an entry member of the zero-parameter shape
/// is invoked with no parameters even when arguments were supplied, so the
/// outcome does not depend on the arguments at all; one of the
/// string-array shape fails with the missing-arguments error exactly when
/// no arguments were supplied, and is invoked with exactly the supplied
/// arguments otherwise.
pub proof fn lemma_entry_point_classification(
    display: Seq<char>,
    args: Option<SafeArray>,
    supplied: SafeArray,
)
    ensures
        spec_entry_kind(display) is NoParameters ==> spec_entry_invocation(display, args)
            == Result::<Option<SafeArray>, ClrError>::Ok(None) && spec_entry_invocation(
            display,
            args,
        ) == spec_entry_invocation(display, None),
        spec_entry_kind(display) is StringArrayParameter ==> spec_entry_invocation(display, None)
            == Result::<Option<SafeArray>, ClrError>::Err(ClrError::MissingArguments),
        spec_entry_kind(display) is StringArrayParameter ==> spec_entry_invocation(
            display,
            Some(supplied),
        ) == Result::<Option<SafeArray>, ClrError>::Ok(Some(supplied)),
{
}

} // verus!
