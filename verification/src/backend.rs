//! The graphics backend tag, the WGL extension-probe outcome, and the
//! platform-tagged native window handle.

use vstd::prelude::*;

verus! {

/// The platform adapter a display connection was opened through.
///
/// One logical `Instance` / `Context` / `Surface` triple exists per backend;
/// the backend decides which window handles are compatible, which driver
/// calls teardown must make, and whether vsync can be controlled at all.
#[derive(Clone, Copy, Debug, PartialEq, Eq, Structural)]
pub enum Backend {
    /// Desktop OpenGL through WGL on Win32 windows.
    Wgl,
    /// OpenGL ES through EGL (Android native windows or X11 windows).
    Egl,
    /// WebGL2 on an HTML canvas; there is no explicit display connection.
    WebGl2,
}

/// Which of the WGL extension entry points the one-shot extension probe
/// resolved.  Each flag is `true` when the probe obtained a non-null function
/// pointer.  The probe itself never fails: a missing entry point surfaces
/// later, as `RequiredExtensionUnavailable` from `create_context`.  Only
/// meaningful for the `Wgl` backend.
#[derive(Clone, Copy, Debug, PartialEq, Eq, Structural)]
pub struct WglExtensions {
    /// `wglChoosePixelFormatARB`: pixel-format selection with attributes.
    pub choose_pixel_format: bool,
    /// `wglCreateContextAttribsARB`: context creation with an explicit
    /// version and profile.
    pub create_context_attribs: bool,
    /// `wglSwapIntervalEXT`: swap-interval (vsync) control.
    pub swap_interval: bool,
}

impl WglExtensions {
    /// A probe outcome with no entry point resolved.
    pub fn none_resolved() -> (r: WglExtensions)
        ensures
            r == (WglExtensions {
                choose_pixel_format: false,
                create_context_attribs: false,
                swap_interval: false,
            }),
    {
        WglExtensions { choose_pixel_format: false, create_context_attribs: false, swap_interval: false }
    }

    /// A probe outcome with every entry point resolved.
    pub fn all_resolved() -> (r: WglExtensions)
        ensures
            r == (WglExtensions {
                choose_pixel_format: true,
                create_context_attribs: true,
                swap_interval: true,
            }),
    {
        WglExtensions { choose_pixel_format: true, create_context_attribs: true, swap_interval: true }
    }
}

/// A native window handle, tagged by platform kind.
///
/// The handle values are the native pointers or ids as plain integers; the
/// adapter that owns the real windowing types converts to and from this
/// form.  `create_surface` pattern-matches on the tag and rejects any kind
/// the instance's backend does not understand.
#[derive(Clone, Copy, Debug, PartialEq, Eq, Structural)]
pub enum WindowHandle {
    /// A Win32 `HWND`.
    Win32 { hwnd: u64 },
    /// An Android `ANativeWindow` pointer.
    AndroidNdk { native_window: u64 },
    /// An X11 window id.
    Xlib { window: u64 },
    /// The `data-raw-handle` id of an HTML canvas element.
    Web { id: u32 },
}

impl WindowHandle {
    /// A handle is valid when its native value is not null.
    pub open spec fn valid(self) -> bool {
        match self {
            WindowHandle::Win32 { hwnd } => hwnd != 0,
            WindowHandle::AndroidNdk { native_window } => native_window != 0,
            WindowHandle::Xlib { window } => window != 0,
            WindowHandle::Web { id } => true,
        }
    }

    /// The native value carried by the handle (a canvas id widened for the
    /// web kind).
    pub open spec fn spec_native(self) -> u64 {
        match self {
            WindowHandle::Win32 { hwnd } => hwnd,
            WindowHandle::AndroidNdk { native_window } => native_window,
            WindowHandle::Xlib { window } => window,
            WindowHandle::Web { id } => id as u64,
        }
    }

    /// The native value carried by the handle.
    pub fn native(&self) -> (r: u64)
        ensures
            r == self.spec_native(),
    {
        match self {
            WindowHandle::Win32 { hwnd } => *hwnd,
            WindowHandle::AndroidNdk { native_window } => *native_window,
            WindowHandle::Xlib { window } => *window,
            WindowHandle::Web { id } => *id as u64,
        }
    }
}

/// Which window-handle kinds each backend's surface adapter understands.
pub open spec fn backend_accepts(backend: Backend, window: WindowHandle) -> bool {
    match backend {
        Backend::Wgl => window is Win32,
        Backend::Egl => window is AndroidNdk || window is Xlib,
        Backend::WebGl2 => window is Web,
    }
}

/// Decides whether `window` is of a kind the `backend` adapter understands.
pub fn accepts(backend: Backend, window: &WindowHandle) -> (r: bool)
    ensures
        r == backend_accepts(backend, *window),
{
    match backend {
        Backend::Wgl => match window {
            WindowHandle::Win32 { .. } => true,
            _ => false,
        },
        Backend::Egl => match window {
            WindowHandle::AndroidNdk { .. } => true,
            WindowHandle::Xlib { .. } => true,
            _ => false,
        },
        Backend::WebGl2 => match window {
            WindowHandle::Web { .. } => true,
            _ => false,
        },
    }
}

} // verus!
