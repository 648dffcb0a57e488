//! A GPU rendering context handle.

use vstd::prelude::*;

verus! {

/// An opaque GPU rendering context.
///
/// Created against an instance's display connection by
/// `Instance::create_context`; the back-reference to that display is kept
/// because the native context must be destroyed against the same display it
/// was created from.  The context must be torn down (or simply never used
/// again) before the owning instance's display connection is terminated.
#[derive(Debug, PartialEq, Eq, Structural)]
pub struct Context {
    /// The native context handle; never null for a created context.
    pub handle: u64,
    /// The display connection the context was created against.
    pub display: u64,
}

impl Context {
    /// A created context carries a non-null native handle.
    pub open spec fn wf(self) -> bool {
        self.handle != 0
    }
}

} // verus!
