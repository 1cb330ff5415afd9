use rustclr::entry::{classify_entry, entry_invocation, EntryKind};
use rustclr::error::ClrError;
use rustclr::value::{create_safe_args, ClrValue};

#[test]
fn classifies_zero_argument_entry() {
    assert_eq!(classify_entry("Void Main()"), EntryKind::NoParameters);
}

#[test]
fn classifies_string_array_entry() {
    assert_eq!(
        classify_entry("Void Main(System.String[])"),
        EntryKind::StringArrayParameter
    );
}

#[test]
fn classifies_other_entries_as_unsupported() {
    assert_eq!(classify_entry("Void Other()"), EntryKind::Unsupported);
    assert_eq!(classify_entry("Int32 Main(Int32)"), EntryKind::Unsupported);
    assert_eq!(classify_entry(""), EntryKind::Unsupported);
}

#[test]
fn zero_argument_entry_ignores_supplied_arguments() {
    let args = create_safe_args(vec![ClrValue::Str(String::from("ignored"))]);
    assert_eq!(entry_invocation("Void Main()", Some(args)), Ok(None));
    assert_eq!(entry_invocation("Void Main()", None), Ok(None));
}

#[test]
fn string_array_entry_requires_arguments() {
    assert_eq!(
        entry_invocation("Void Main(System.String[])", None),
        Err(ClrError::MissingArguments)
    );
}

#[test]
fn string_array_entry_passes_supplied_arguments() {
    let args = create_safe_args(vec![ClrValue::Str(String::from("test"))]);
    let expected = create_safe_args(vec![ClrValue::Str(String::from("test"))]);
    assert_eq!(
        entry_invocation("Void Main(System.String[])", Some(args)),
        Ok(Some(expected))
    );
}

#[test]
fn unsupported_entry_is_not_found() {
    assert_eq!(
        entry_invocation("Void Start()", None),
        Err(ClrError::MethodNotFound)
    );
}
