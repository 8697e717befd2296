//! The identities that the registry keeps apart: scene windows, native
//! windows, and the execution context that may touch either.

use vstd::prelude::*;

verus! {

/// A window as the scene graph knows it: the bits of the entity that stands
/// for it.
#[derive(Clone, Copy, Debug, PartialEq, Eq, Hash, Structural)]
pub struct SceneWindowId(pub u64);

/// A window as the native windowing library knows it.
#[derive(Clone, Copy, Debug, PartialEq, Eq, Hash, Structural)]
pub struct NativeWindowId(pub u64);

/// Names one execution context. The registry is bound to the context that
/// made it, and whoever changes the registry shows the context it runs on.
#[derive(Clone, Copy, Debug, PartialEq, Eq, Structural)]
pub struct MainContext {
    /// The number by which the context is told from every other.
    pub id: u64,
}

} // verus!
