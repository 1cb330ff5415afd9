use vstd::prelude::*;

verus! {

/// Errors that can occur while driving the hosted runtime or while
/// marshalling values across the native/hosted boundary.
#[derive(Debug, Clone, PartialEq)]
pub enum ClrError {
    /// A call across the hosting boundary failed: the name of the
    /// operation and the raw status code it returned.
    ApiError(&'static str, i32),
    /// The entry point expects an argument array, but none was supplied.
    MissingArguments,
    /// A handle returned by the host could not be reinterpreted as the
    /// requested interface kind.
    CastingError(&'static str),
    /// The buffer does not represent a valid executable image.
    InvalidExecutable,
    /// No callable member matched the requested name or signature.
    MethodNotFound,
    /// The executable image carries no hosted-code metadata directory.
    NotDotNet,
    /// The host-discovery root object could not be created.
    MetaHostCreationError(String),
    /// Resolving the descriptor for the requested runtime version failed.
    RuntimeInfoError(String),
    /// The host binding interface could not be obtained.
    RuntimeHostError(String),
    /// The start call for the hosted runtime reported failure.
    RuntimeStartError,
    /// Creating an execution domain failed.
    DomainCreationError(String),
    /// The default execution domain could not be retrieved.
    DefaultDomainError(String),
    /// No execution domain is available.
    NoDomainAvailable,
    /// A null handle was returned where a live reference was required.
    NullPointerError(&'static str),
    /// Building a bounded argument array failed.
    SafeArrayError(String),
    /// The boxed value's tag is outside the supported set.
    VariantUnsupported,
    /// A hosting error with a fixed description.
    ErrorClr(&'static str),
}

/// Result alias used throughout the crate.
pub type Result<T> = core::result::Result<T, ClrError>;

/// Converts one boundary call's status signal into its call-site-tagged
/// result: the reserved zero status is success, and any other status
/// becomes the error naming the operation and carrying the raw code — no
/// boundary failure is silently swallowed.
pub fn api_result(operation: &'static str, hr: i32) -> (r: Result<()>)
    ensures
        hr == 0 <==> r is Ok,
        hr != 0 ==> (r matches Err(e) && e == ClrError::ApiError(operation, hr)),
{
    if hr == 0 {
        Ok(())
    } else {
        Err(ClrError::ApiError(operation, hr))
    }
}

impl ClrError {
    /// A short fixed description of the error kind.
    pub fn description(&self) -> (r: &'static str)
        ensures
            r@ == self.spec_description(),
    {
        match self {
            ClrError::ApiError(_, _) => "api call failed",
            ClrError::MissingArguments => "entry point expects arguments, but none were supplied",
            ClrError::CastingError(_) => "error casting the interface",
            ClrError::InvalidExecutable => "the buffer does not represent a valid executable",
            ClrError::MethodNotFound => "method not found",
            ClrError::NotDotNet => "the executable is not a hosted-code application",
            ClrError::MetaHostCreationError(_) => "failed to create the meta host",
            ClrError::RuntimeInfoError(_) => "failed to retrieve runtime information",
            ClrError::RuntimeHostError(_) => "failed to obtain the runtime host interface",
            ClrError::RuntimeStartError => "failed to start the runtime",
            ClrError::DomainCreationError(_) => "failed to create the domain",
            ClrError::DefaultDomainError(_) => "failed to retrieve the default domain",
            ClrError::NoDomainAvailable => "no domain available",
            ClrError::NullPointerError(_) => "a null pointer stood where a valid reference was expected",
            ClrError::SafeArrayError(_) => "error creating the argument array",
            ClrError::VariantUnsupported => "boxed value type not supported",
            ClrError::ErrorClr(msg) => msg,
        }
    }

    /// The text that `description` returns for each variant.
    pub open spec fn spec_description(&self) -> Seq<char> {
        match self {
            ClrError::ApiError(_, _) => "api call failed"@,
            ClrError::MissingArguments => "entry point expects arguments, but none were supplied"@,
            ClrError::CastingError(_) => "error casting the interface"@,
            ClrError::InvalidExecutable => "the buffer does not represent a valid executable"@,
            ClrError::MethodNotFound => "method not found"@,
            ClrError::NotDotNet => "the executable is not a hosted-code application"@,
            ClrError::MetaHostCreationError(_) => "failed to create the meta host"@,
            ClrError::RuntimeInfoError(_) => "failed to retrieve runtime information"@,
            ClrError::RuntimeHostError(_) => "failed to obtain the runtime host interface"@,
            ClrError::RuntimeStartError => "failed to start the runtime"@,
            ClrError::DomainCreationError(_) => "failed to create the domain"@,
            ClrError::DefaultDomainError(_) => "failed to retrieve the default domain"@,
            ClrError::NoDomainAvailable => "no domain available"@,
            ClrError::NullPointerError(_) => "a null pointer stood where a valid reference was expected"@,
            ClrError::SafeArrayError(_) => "error creating the argument array"@,
            ClrError::VariantUnsupported => "boxed value type not supported"@,
            ClrError::ErrorClr(msg) => msg@,
        }
    }
}

} // verus!
