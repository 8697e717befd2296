//! What can go wrong when a window is created or forgotten.

use vstd::prelude::*;

verus! {

/// The cause that the platform gave when it could not open a native window.
#[derive(Clone, Copy, Debug, PartialEq, Eq, Structural)]
pub struct PlatformError {
    /// The platform's own error number.
    pub code: i32,
}

/// Why an operation on the window registry was refused.
///
/// Whichever of these is returned, the registry is as it was before the call.
#[derive(Clone, Copy, Debug, PartialEq, Eq, Structural)]
pub enum WindowError {
    /// The scale factor is zero, negative or not a finite number.
    InvalidScale,
    /// The scene window already has a native window.
    DuplicateWindow,
    /// The platform could not open the native window.
    NativeOpenFailed(PlatformError),
    /// The caller is not the execution context that owns the registry.
    WrongThread,
}

} // verus!
