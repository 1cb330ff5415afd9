//! A verified core for hosting a managed runtime inside a native process:
//! executable-image validation, value marshalling, the bootstrap/teardown
//! state machine, reflective member resolution, entry-point classification,
//! and output-capture bookkeeping.

/// Output-capture bookkeeping.
pub mod capture;

/// Entry-point classification and dispatch.
pub mod entry;

/// Error taxonomy for hosting and marshalling failures.
pub mod error;

/// The runtime lifecycle: configuration, bootstrap, and teardown.
pub mod lifecycle;

/// Executable-image validation over raw bytes.
pub mod pe;

/// Member resolution, binding selectors, and invocation requests.
pub mod reflect;

/// Boxed values, argument arrays, and marshalling.
pub mod value;

/// Wide-string encoding used at the hosting boundary.
pub mod wide;

pub use capture::ClrOutput;
pub use entry::EntryKind;
pub use error::ClrError;
pub use error::Result;
pub use lifecycle::ClrState;
pub use lifecycle::RunStep;
pub use lifecycle::RustClr;
pub use lifecycle::RuntimeVersion;
pub use lifecycle::TeardownStep;
pub use pe::validate_file;
pub use reflect::BindingFlags;
pub use reflect::Invocation;
pub use reflect::InvocationRequest;
pub use reflect::MethodDesc;
pub use value::ClrValue;
pub use value::SafeArray;
pub use value::Variant;
pub use value::create_safe_args;
pub use value::create_safe_array_args;
pub use value::create_safe_array_buffer;
pub use value::unpack_string;
pub use wide::WinStr;
