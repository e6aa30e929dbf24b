//! Error kinds reported by this library.
//!
//! Every fallible operation returns a structured kind, optionally with a
//! human-readable message. Driver-call failures carry the raw driver result
//! code; resource-usage and bitstream errors each have a kind of their own.
use vstd::prelude::*;

verus! {

/// The structured kind of an [`Error`].
#[derive(Debug, Clone, Copy, PartialEq, Eq, Structural)]
pub enum Variant {
    /// A C-string argument contained an interior NUL byte.
    Nul,
    /// A string did not fit a fixed-size native character array.
    CStrTooLargeForStaticArray,
    /// The driver library could not be loaded.
    Loading,
    /// A driver call failed; carries the raw driver result code.
    Vulkan(i32),
    /// No physical device suitable for video work was found.
    NoVideoDevice,
    /// No compute pipeline was produced.
    NoComputePipeline,
    /// No command buffer was produced.
    NoCommandBuffer,
    /// No memory heap matched the requirement.
    HeapNotFound,
    /// No queue family matched the requirement.
    QueueNotFound,
    /// An image was bound to an allocation a second time.
    ImageAlreadyBound,
}

/// The standard library's capture of a call stack, declared so that an
/// error can carry one; its contents are opaque to specifications.
#[verifier::external_type_specification]
#[verifier::external_body]
pub struct ExBacktrace(std::backtrace::Backtrace);

/// Relies on std::backtrace::Backtrace::capture: a snapshot of the call
/// stack at the call site. What it holds depends on the environment, so
/// nothing is claimed of the result.
#[verifier::external_body]
fn capture_backtrace() -> std::backtrace::Backtrace {
    std::backtrace::Backtrace::capture()
}

/// An error with a structured kind, an optional message, and a capture of
/// the call stack at the site that built it.
#[derive(Debug)]
pub struct Error {
    message: Option<String>,
    variant: Variant,
    backtrace: std::backtrace::Backtrace,
}

impl Error {
    /// The kind of this error, as seen by specifications.
    pub closed spec fn spec_variant(&self) -> Variant {
        self.variant
    }

    /// The message of this error, as seen by specifications.
    pub closed spec fn spec_message(&self) -> Option<String> {
        self.message
    }

    /// Builds an error from an optional message and a kind, capturing the
    /// call stack.
    pub fn new(message: Option<String>, variant: Variant) -> (r: Error)
        ensures
            r.spec_variant() == variant,
            r.spec_message() == message,
    {
        Error { message, variant, backtrace: capture_backtrace() }
    }

    /// The structured kind of this error.
    pub fn variant(&self) -> (r: Variant)
        ensures
            r == self.spec_variant(),
    {
        self.variant
    }

    /// The optional human-readable message.
    pub fn message(&self) -> (r: &Option<String>)
        ensures
            r == &self.spec_message(),
    {
        &self.message
    }

    /// The call stack captured when the error was built.
    pub fn backtrace(&self) -> &std::backtrace::Backtrace {
        &self.backtrace
    }
}

} // verus!
