//! The one error taxonomy every failure path reports through.
//!
//! Compile and link failures carry the driver's diagnostic text; context
//! setup failures carry the host library's message; resource failures name
//! the resource and say how loading it went wrong. Nothing is retried:
//! every one of these is surfaced to the top level and displayed.

use vstd::prelude::*;

verus! {

/// How loading a shader resource failed: the file does not exist, it could
/// not be read, or its content is not usable as source text (it contains an
/// interior NUL byte).
#[derive(Clone, Copy, PartialEq, Eq, Structural, Debug)]
pub enum ResourceErrorKind {
    NotFound,
    Unreadable,
    ContainsNul,
}

/// A failure of the startup sequence, carrying the diagnostic text that the
/// driver or the host supplied.
#[derive(Clone, Debug)]
pub enum RenderError {
    /// A shader stage failed to compile; `message` is the driver's info log
    /// (possibly empty, when the driver reported none).
    CompileError { message: String },
    /// A program failed to link; `message` is the driver's info log.
    LinkError { message: String },
    /// Window or GL context creation failed; `message` is the host
    /// library's text.
    ContextInitError { message: String },
    /// A shader resource could not be loaded.
    ResourceError { name: String, kind: ResourceErrorKind },
}

impl RenderError {
    /// The diagnostic text this error carries; for a resource failure, the
    /// name of the resource concerned.
    pub open spec fn spec_message(&self) -> Seq<char> {
        match self {
            RenderError::CompileError { message } => message@,
            RenderError::LinkError { message } => message@,
            RenderError::ContextInitError { message } => message@,
            RenderError::ResourceError { name, kind: _ } => name@,
        }
    }

    /// The carried diagnostic text, for display by the host.
    pub fn message(&self) -> (r: &str)
        ensures
            r@ == self.spec_message(),
    {
        match self {
            RenderError::CompileError { message } => message.as_str(),
            RenderError::LinkError { message } => message.as_str(),
            RenderError::ContextInitError { message } => message.as_str(),
            RenderError::ResourceError { name, kind: _ } => name.as_str(),
        }
    }
}

} // verus!
