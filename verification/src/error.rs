//! Why an operation failed.

use vstd::prelude::*;

verus! {

/// The ways in which an operation on an interface can fail.
///
/// Every failure is reported to the caller; none is fatal, none is retried,
/// and none is replaced by a default value.
#[derive(Clone, Copy, Debug, PartialEq, Eq)]
pub enum Error {
    /// The name does not fit the kernel's fixed-width name field together
    /// with its terminator.
    TooLong,
    /// The name holds a terminator byte before its end.
    EmbeddedNul,
    /// A name field that the kernel was asked about holds no terminator, so
    /// that it names no interface. This is found when the kernel has
    /// answered and a handle is to be made.
    Malformed,
    /// The control socket could not be created; `code` is the OS error.
    Socket { code: i32 },
    /// The kernel rejected the request; `code` is the OS error.
    Request { code: i32 },
    /// The interface has no value for the attribute that was asked for: the
    /// kernel rejected the query with the OS error `code`, which stands for
    /// "no such address".
    NotConfigured { code: i32 },
    /// The control socket could not be released; `code` is the OS error of
    /// the release. If the request before it had failed as well, `request`
    /// holds the OS error of the request.
    Release { code: i32, request: Option<i32> },
    /// The answer is not of the shape that the request calls for.
    Unexpected,
}

impl Error {
    /// Whether the failure lies in the encoding of a name that was given:
    /// the name cannot be stored in a name field. Such a failure is found
    /// before anything is asked of the kernel.
    pub open spec fn encoding(self) -> bool {
        self is TooLong || self is EmbeddedNul
    }

    /// Whether the failure says that the attribute asked for is not set, as
    /// opposed to a request that could not be carried out.
    pub open spec fn unset(self) -> bool {
        self is NotConfigured
    }

    /// The OS error code that the failure carries, if it carries one: the
    /// code that the system reported for the call that failed. For a failed
    /// release this is the code of the release.
    pub open spec fn os_code(self) -> Option<i32> {
        match self {
            Error::Socket { code } => Some(code),
            Error::Request { code } => Some(code),
            Error::NotConfigured { code } => Some(code),
            Error::Release { code, .. } => Some(code),
            _ => None,
        }
    }

    /// The OS error code with which the kernel rejected the request, if the
    /// request was issued and rejected.
    pub open spec fn rejection(self) -> Option<i32> {
        match self {
            Error::Request { code } => Some(code),
            Error::NotConfigured { code } => Some(code),
            Error::Release { request, .. } => request,
            _ => None,
        }
    }

    /// Tells whether the failure lies in the encoding of a name that was
    /// given.
    pub fn is_encoding(&self) -> (yes: bool)
        ensures
            yes == self.encoding(),
    {
        match self {
            Error::TooLong => true,
            Error::EmbeddedNul => true,
            _ => false,
        }
    }

    /// Tells whether the failure says that the attribute asked for is not
    /// set.
    pub fn is_not_configured(&self) -> (yes: bool)
        ensures
            yes == self.unset(),
    {
        match self {
            Error::NotConfigured { .. } => true,
            _ => false,
        }
    }

    /// The OS error code that the failure carries, if any.
    pub fn code(&self) -> (code: Option<i32>)
        ensures
            code == self.os_code(),
    {
        match self {
            Error::Socket { code } => Some(*code),
            Error::Request { code } => Some(*code),
            Error::NotConfigured { code } => Some(*code),
            Error::Release { code, .. } => Some(*code),
            _ => None,
        }
    }

    /// The OS error code with which the kernel rejected the request, if any.
    pub fn request_code(&self) -> (code: Option<i32>)
        ensures
            code == self.rejection(),
    {
        match self {
            Error::Request { code } => Some(*code),
            Error::NotConfigured { code } => Some(*code),
            Error::Release { request, .. } => *request,
            _ => None,
        }
    }
}

} // verus!
