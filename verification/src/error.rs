//! What can go wrong, and how it is reported.

use vstd::prelude::*;
use vstd::string::StringExecFns;

verus! {

/// The rendering backends.
#[derive(Clone, Copy, Debug, PartialEq, Eq, Structural)]
pub enum Backend {
    D2D1,
    WGL,
    X11EGL,
}

impl Backend {
    /// The backend's name as a sequence of characters.
    pub open spec fn name_text(self) -> Seq<char> {
        match self {
            Backend::D2D1 => "D2D1"@,
            Backend::WGL => "WGL"@,
            Backend::X11EGL => "X11EGL"@,
        }
    }

    /// The backend's name.
    pub fn name(&self) -> (name: String)
        ensures
            name@ == self.name_text(),
    {
        match self {
            Backend::D2D1 => String::from_str("D2D1"),
            Backend::WGL => String::from_str("WGL"),
            Backend::X11EGL => String::from_str("X11EGL"),
        }
    }
}

/// An error of the drawing context or of a backend.
#[derive(Debug)]
pub enum AcureError {
    /// The operation is not allowed in the context's current state.
    UnauthorizedOperation,
    /// A null pointer turned up where a value was needed; the text says where.
    NullPtrError(String),
    /// A backend failed; the text is the cause as the backend reported it.
    BackendError(Backend, String),
}

/// The result of an operation that may fail with an `AcureError`.
pub type AeResult<T> = Result<T, AcureError>;

impl AcureError {
    /// The text that describes the error, as a sequence of characters.
    pub open spec fn message_text(self) -> Seq<char> {
        match self {
            AcureError::UnauthorizedOperation => "This operation is not authorized."@,
            AcureError::NullPtrError(place) => "Null pointer detected.\n'"@ + place@ + "'"@,
            AcureError::BackendError(backend, cause) => "Backend: '"@ + backend.name_text()
                + "'\n'"@ + cause@ + "'"@,
        }
    }

    /// The text that describes the error.
    pub fn message(&self) -> (message: String)
        ensures
            message@ == self.message_text(),
    {
        match self {
            AcureError::UnauthorizedOperation => String::from_str(
                "This operation is not authorized.",
            ),
            AcureError::NullPtrError(place) => {
                let mut message = String::from_str("Null pointer detected.\n'");
                message.append(place.as_str());
                message.append("'");
                message
            },
            AcureError::BackendError(backend, cause) => {
                let mut message = String::from_str("Backend: '");
                message.append(backend.name().as_str());
                message.append("'\n'");
                message.append(cause.as_str());
                message.append("'");
                message
            },
        }
    }
}

} // verus!
