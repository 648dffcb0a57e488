//! A platform-abstracting model of OpenGL / OpenGL-ES / WebGL context and
//! surface management.
//!
//! The crate exposes one `Instance` / `Context` / `Surface` triple over three
//! graphics backends (desktop WGL, mobile EGL, web WebGL2).  The `Instance`
//! owns the display connection and the lazily created GL function table, and
//! enforces the current-context binding protocol: GL entry points become
//! usable only after a `(surface, context)` pair has been made current.
//!
//! All native driver calls are performed by a platform adapter outside this
//! crate.  The adapter hands their outcomes in as plain values (handles,
//! queried sizes) and receives back the actions it must perform, so that the
//! whole lifecycle and binding protocol here is checked by Verus.

use vstd::prelude::*;

pub mod attribs;
pub mod backend;
pub mod context;
pub mod driver;
pub mod instance;
pub mod protocol;
pub mod surface;

pub use backend::{Backend, WglExtensions, WindowHandle};
pub use context::Context;
pub use driver::{
    BindAction, ContextReply, ContextRequest, ContextTeardown, DriverBoot, InstanceTeardown,
    SurfaceReply, SurfaceRequest, SurfaceTeardown, SwapAction,
};
pub use instance::{Binding, FunctionTable, Instance, InstanceError};
pub use surface::Surface;

verus! {

/// Power preference used when choosing a physical GPU adapter.
///
/// On multi-GPU desktops `LowPower` selects the integrated GPU and
/// `HighPerformance` the discrete one; the preference has no effect on web.
#[derive(Clone, Copy, Debug, PartialEq, Eq, Structural)]
pub enum PowerPreference {
    LowPower,
    HighPerformance,
}

} // verus!
