//! The plain-value protocol between the verified lifecycle and the native
//! platform adapter.
//!
//! Every native call the lifecycle depends on is represented by a pair of
//! plain values: a request (or action) this crate computes and hands out,
//! and a reply the adapter hands back with the call's outcome.  Handles
//! travel as integers, with `0` standing for a null handle.

use vstd::prelude::*;
use crate::backend::{Backend, WglExtensions};

verus! {

/// What the platform adapter established before an `Instance` can exist:
/// the backend it opened, the display connection, the WGL extension-probe
/// outcome, and whether the frame-pacing bootstrap was requested and came
/// up.
///
/// On `Wgl` the display value is the device context of the helper window
/// the adapter created; on `Egl` it is the initialized `EGLDisplay`; on
/// `WebGl2` there is no display connection and the value is `0`.
#[derive(Clone, Copy, Debug, PartialEq, Eq, Structural)]
pub struct DriverBoot {
    /// The backend the adapter opened.
    pub backend: Backend,
    /// The display connection handle (`0` only on `WebGl2`).
    pub display: u64,
    /// The WGL extension-probe outcome (meaningful only on `Wgl`).
    pub extensions: WglExtensions,
    /// Whether frame pacing was asked for (`Egl` only).
    pub pacing_requested: bool,
    /// Whether the frame-pacing bootstrap (a JVM attach) succeeded.
    pub pacing_ready: bool,
}

/// The outcome of the native context-creation call: the new context handle,
/// or `0` when the driver rejected the request.
#[derive(Clone, Copy, Debug, PartialEq, Eq, Structural)]
pub struct ContextReply {
    /// The created native context handle, `0` on failure.
    pub handle: u64,
}

/// The outcome of the native surface-creation call: the new drawable handle
/// (`0` when the driver rejected the request) and, for a created drawable,
/// its queried size.
#[derive(Clone, Copy, Debug, PartialEq, Eq, Structural)]
pub struct SurfaceReply {
    /// The created native drawable handle, `0` on failure.
    pub handle: u64,
    /// The queried width of the created drawable.
    pub width: u32,
    /// The queried height of the created drawable.
    pub height: u32,
}

/// The native calls the adapter must make to create a context, with the
/// exact attribute lists to pass.
#[derive(Debug, PartialEq, Eq)]
pub enum ContextRequest {
    /// Choose and set a pixel format on the helper window's device context
    /// with `pixel_format_attribs`, then create the context with
    /// `context_attribs` through `wglCreateContextAttribsARB`.
    Wgl { pixel_format_attribs: Vec<i32>, context_attribs: Vec<i32> },
    /// Bind the OpenGL ES API, choose a framebuffer configuration with
    /// `config_attribs`, then create the context with `context_attribs`.
    Egl { config_attribs: Vec<i32>, context_attribs: Vec<i32> },
    /// Create a fresh canvas and take its `"webgl2"` context.
    WebGl2,
}

/// The native calls the adapter must make to create a surface for an
/// accepted window handle.
#[derive(Debug, PartialEq, Eq)]
pub enum SurfaceRequest {
    /// Get the window's device context and copy the helper window's pixel
    /// format onto it.
    Wgl { hwnd: u64 },
    /// Choose a framebuffer configuration with `config_attribs`, create a
    /// window surface with `surface_attribs`, then query its size.
    Egl { native_window: u64, config_attribs: Vec<i32>, surface_attribs: Vec<i32> },
    /// Look up the canvas tagged with the id and take its `"webgl2"`
    /// context.
    WebGl2 { id: u32 },
}

/// What the adapter must do after a `make_current` transition.
#[derive(Clone, Copy, Debug, PartialEq, Eq, Structural)]
pub enum BindAction {
    /// Clear the thread's current binding.
    Unbind { display: u64 },
    /// Make the pair current on the calling thread (`surface` is the helper
    /// device context or `0` for a context-only binding); when
    /// `disable_vsync`, then issue a best-effort swap-interval-zero call;
    /// when `load_table`, then resolve the GL entry points into the
    /// process's function table.
    Bind { display: u64, surface: u64, context: u64, disable_vsync: bool, load_table: bool },
    /// Nothing: a context-only binding is not supported on the web, where a
    /// context is inseparable from its canvas.
    Noop,
}

/// How the adapter must present a frame.
#[derive(Clone, Copy, Debug, PartialEq, Eq, Structural)]
pub enum SwapAction {
    /// Present through the native swap call.
    Present { display: u64, surface: u64 },
    /// Present through the frame-pacing library, which owns the pacing.
    PresentPaced { display: u64, surface: u64 },
    /// Nothing: the browser presents the canvas itself.
    Noop,
}

/// How the adapter must tear a context down.
#[derive(Clone, Copy, Debug, PartialEq, Eq, Structural)]
pub struct ContextTeardown {
    /// Clear the thread's current binding before destroying: destroying a
    /// current context is undefined behavior on WGL.
    pub clear_current_first: bool,
    /// The display connection the context was created against.
    pub display: u64,
    /// The native context handle to destroy.
    pub context: u64,
}

/// How the adapter must tear a surface down.
#[derive(Clone, Copy, Debug, PartialEq, Eq, Structural)]
pub struct SurfaceTeardown {
    /// Whether to call the native destroy-surface entry.  Deliberately
    /// `false` on every backend: some EGL device drivers crash in
    /// `DestroySurface`, WGL device contexts belong to their window, and
    /// the browser collects a canvas context itself.
    pub release_native: bool,
    /// The display connection the surface was created against.
    pub display: u64,
    /// The native drawable handle.
    pub surface: u64,
}

/// How the adapter must tear the instance itself down.
#[derive(Clone, Copy, Debug, PartialEq, Eq, Structural)]
pub struct InstanceTeardown {
    /// Terminate the display connection (`Egl` only; WGL has no explicit
    /// display object and the web has no connection at all).
    pub terminate_display: bool,
    /// Destroy the helper window the connection was opened through (`Wgl`
    /// only).
    pub destroy_helper_window: bool,
    /// Shut the frame-pacing library down (only when pacing was enabled).
    pub shutdown_pacing: bool,
    /// The display connection handle.
    pub display: u64,
}

} // verus!
