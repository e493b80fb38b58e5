//! The ways in which an operation of the library can fail.
use crate::native;
use vstd::prelude::*;

verus! {

/// Why an operation failed.
#[derive(Debug, Clone, PartialEq, Eq)]
pub enum Error {
    /// An argument that the operation cannot accept: a bad layout
    /// descriptor, a uniform name with an embedded NUL, an empty batch, an
    /// index type that the device does not accept.
    InvalidArgument(String),
    /// The linked program has no active uniform of this name.
    NotFound(String),
    /// A shader failed to compile; the device's diagnostic log.
    CompileFailure(String),
    /// A program failed to link; the device's diagnostic log.
    LinkFailure(String),
    /// The device raised its error flag: the symbolic name of the error and
    /// its numeric code.
    DeviceError(String, u32),
}

impl Error {
    pub open spec fn is_invalid_argument(&self) -> bool {
        self matches Error::InvalidArgument(_)
    }

    /// A `NotFound` that names `name`.
    pub open spec fn is_not_found_for(&self, name: Seq<char>) -> bool {
        match self {
            Error::NotFound(s) => s@ == name,
            _ => false,
        }
    }

    /// A `CompileFailure` that carries `log`.
    pub open spec fn is_compile_failure_with(&self, log: Seq<char>) -> bool {
        match self {
            Error::CompileFailure(s) => s@ == log,
            _ => false,
        }
    }

    /// A `LinkFailure` that carries `log`.
    pub open spec fn is_link_failure_with(&self, log: Seq<char>) -> bool {
        match self {
            Error::LinkFailure(s) => s@ == log,
            _ => false,
        }
    }

    /// A `DeviceError` for error code `code`, under that code's name.
    pub open spec fn is_device_error_for(&self, code: u32) -> bool {
        match self {
            Error::DeviceError(s, c) => c == code && s@ == error_name(code),
            _ => false,
        }
    }
}

/// The symbolic name of a native error code.
pub open spec fn error_name(code: u32) -> Seq<char> {
    if code == native::INVALID_ENUM {
        "GL_INVALID_ENUM"@
    } else if code == native::INVALID_VALUE {
        "GL_INVALID_VALUE"@
    } else if code == native::INVALID_OPERATION {
        "GL_INVALID_OPERATION"@
    } else {
        "Unknown Error"@
    }
}

/// Reads the device's error flag, as it stood after an operation: no error,
/// or a `DeviceError` that names the code.
pub fn check_error(code: u32) -> (r: Result<(), Error>)
    ensures
        r is Ok <==> code == native::NO_ERROR,
        r is Err ==> r->Err_0.is_device_error_for(code),
{
    if code == native::NO_ERROR {
        return Ok(());
    }
    let name = if code == native::INVALID_ENUM {
        "GL_INVALID_ENUM"
    } else if code == native::INVALID_VALUE {
        "GL_INVALID_VALUE"
    } else if code == native::INVALID_OPERATION {
        "GL_INVALID_OPERATION"
    } else {
        "Unknown Error"
    };
    Err(Error::DeviceError(name.to_owned(), code))
}

} // verus!
