use vstd::prelude::*;

verus! {

/// The recoverable failures of the library.
#[derive(Debug, Clone, Copy, PartialEq, Eq, Structural)]
pub enum BridgeError {
    /// The captured value's byte size has no trampoline.
    UnsupportedCaptureSize,
    /// The timer facility refused to register a timer.
    RegistrationFailed,
    /// The timer facility did not know the identifier it was asked to cancel.
    RemovalFailed,
    /// The pixel format has no fixed byte size (indexed or unknown formats).
    UnsupportedPixelFormat,
}

} // verus!
