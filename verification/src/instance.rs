//! The `Instance`: owner of the display connection and of the lazily
//! created GL function table, and keeper of the current-context binding
//! protocol.
//!
//! The binding protocol is a small state machine per instance: unbound, a
//! context current on its own, or a `(context, surface)` pair current.  GL
//! entry points are usable only in the bound states, which is when the
//! function table exists.  Every transition is specified by a spec-level
//! transition function, and the executable methods are proved to follow
//! them exactly.

use vstd::prelude::*;
use crate::attribs::{
    egl_config_attribs, egl_context_attribs, egl_surface_attribs, spec_egl_config_attribs,
    spec_egl_context_attribs, spec_egl_surface_attribs, spec_wgl_context_attribs,
    spec_wgl_pixel_format_attribs, wgl_context_attribs, wgl_pixel_format_attribs,
};
use crate::backend::{accepts, backend_accepts, Backend, WglExtensions, WindowHandle};
use crate::context::Context;
use crate::driver::{
    BindAction, ContextReply, ContextRequest, ContextTeardown, DriverBoot, InstanceTeardown,
    SurfaceReply, SurfaceRequest, SurfaceTeardown, SwapAction,
};
use crate::surface::Surface;
use crate::PowerPreference;

verus! {

/// Why an instance, context or surface could not be created.
#[derive(Clone, Copy, Debug, PartialEq, Eq, Structural)]
pub enum InstanceError {
    /// A WGL extension entry point needed for context creation was not
    /// resolved by the extension probe.
    RequiredExtensionUnavailable,
    /// The supplied window handle is of a kind this backend does not
    /// understand.
    IncompatibleWindowHandle,
    /// The driver rejected the native creation call.
    ContextCreationFailed,
    /// The JVM-attach bootstrap of the frame-pacing integration failed.
    JNIFailed,
}

/// The thread-local current binding an instance has established.
#[derive(Clone, Copy, Debug, PartialEq, Eq, Structural)]
pub enum Binding {
    /// No context is current.
    NotBound,
    /// A context is current with no drawable (off-screen work, or releasing
    /// a surface while keeping the context alive).
    ContextOnly { context: u64 },
    /// A `(context, surface)` pair is current: GL commands draw to the
    /// surface.
    Bound { context: u64, surface: u64 },
}

/// The GL function-pointer table, as the lifecycle sees it: a token for the
/// table of entry points the adapter resolved on the first successful
/// context bind.  The table is created at most once per instance and then
/// reused, never reloaded.
#[derive(Clone, Copy, Debug, PartialEq, Eq, Structural)]
pub struct FunctionTable {
    /// The native handle of the context that was current when the table was
    /// loaded.
    pub loaded_for_context: u64,
}

/// The root object: one display connection, one optional GL function
/// table, one current binding.
///
/// Contexts and surfaces an instance creates are owned entirely by the
/// caller; the instance does not track them.  It does own the binding
/// state, which is why `destroy` demands the binding be cleared first.
#[derive(Debug)]
pub struct Instance {
    /// The GPU-selection preference given at construction.
    pub power: PowerPreference,
    /// Whether presentation should synchronize with the display refresh.
    pub is_vsync: bool,
    /// The platform adapter this instance runs on.
    pub backend: Backend,
    /// The display connection handle (`0` only on `WebGl2`).
    pub display: u64,
    /// The WGL extension-probe outcome (meaningful only on `Wgl`).
    pub extensions: WglExtensions,
    /// Whether the frame-pacing integration is active (`Egl` only).
    pub pacing: bool,
    /// The GL function table, once a context bind has created it.
    pub table: Option<FunctionTable>,
    /// The current binding on the calling thread.
    pub binding: Binding,
    /// The last surface successfully created (`Egl` only): reused when the
    /// driver transiently refuses to create a surface for the same window
    /// again, as happens across Android activity-resume cycles.
    pub surface_cache: Option<Surface>,
}

impl Instance {
    /// The instance invariant: the display connection exists except on the
    /// web, pacing and the surface cache are EGL matters, and a live
    /// binding implies a live function table over non-null handles.
    pub open spec fn wf(self) -> bool {
        &&& (self.backend is WebGl2 <==> self.display == 0)
        &&& (self.pacing ==> self.backend is Egl)
        &&& (match self.surface_cache {
            Some(s) => self.backend is Egl && s.wf() && s.display == self.display,
            None => true,
        })
        &&& (match self.binding {
            Binding::NotBound => true,
            Binding::ContextOnly { context } => context != 0 && self.table is Some,
            Binding::Bound { context, surface } => context != 0 && surface != 0
                && self.table is Some,
        })
    }
}

/// Whether the backend can create a context at all: on WGL both the
/// pixel-format and the context-creation extension entry points must have
/// been resolved; EGL and the web always can.
pub open spec fn context_creation_supported(i: Instance) -> bool {
    i.backend is Wgl ==> (i.extensions.choose_pixel_format
        && i.extensions.create_context_attribs)
}

/// Whether a bound context's swap interval can be changed: through
/// `wglSwapIntervalEXT` when resolved, always through EGL, never on the
/// web.
pub open spec fn vsync_control_available(i: Instance) -> bool {
    match i.backend {
        Backend::Wgl => i.extensions.swap_interval,
        Backend::Egl => true,
        Backend::WebGl2 => false,
    }
}

/// The instance `Instance::new` returns for a boot report (when it does
/// not fail).
pub open spec fn spec_new_instance(power: PowerPreference, is_vsync: bool, boot: DriverBoot)
    -> Instance {
    Instance {
        power,
        is_vsync,
        backend: boot.backend,
        display: boot.display,
        extensions: boot.extensions,
        pacing: boot.pacing_requested,
        table: None,
        binding: Binding::NotBound,
        surface_cache: None,
    }
}

/// What `create_context` returns for a driver reply.
pub open spec fn spec_create_context(i: Instance, reply: ContextReply)
    -> Result<Context, InstanceError> {
    if !context_creation_supported(i) {
        Err(InstanceError::RequiredExtensionUnavailable)
    } else if reply.handle == 0 {
        Err(InstanceError::ContextCreationFailed)
    } else {
        Ok(Context { handle: reply.handle, display: i.display })
    }
}

/// What `create_surface` returns for a window handle and a driver reply.
pub open spec fn spec_create_surface_result(i: Instance, window: WindowHandle,
    reply: SurfaceReply) -> Result<Surface, InstanceError> {
    if !backend_accepts(i.backend, window) {
        Err(InstanceError::IncompatibleWindowHandle)
    } else if reply.handle != 0 {
        if reply.width == 0 || reply.height == 0 {
            Err(InstanceError::ContextCreationFailed)
        } else {
            Ok(Surface { handle: reply.handle, width: reply.width, height: reply.height,
                display: i.display })
        }
    } else {
        match i.surface_cache {
            Some(cached) => Ok(cached),
            None => Err(InstanceError::ContextCreationFailed),
        }
    }
}

/// The instance state after `create_surface`: on EGL a freshly created
/// surface is remembered for transient-failure reuse; nothing else changes,
/// and nothing at all changes when creation fails.
pub open spec fn spec_create_surface_next(i: Instance, window: WindowHandle,
    reply: SurfaceReply) -> Instance {
    match spec_create_surface_result(i, window, reply) {
        Ok(s) => if i.backend is Egl && reply.handle != 0 {
            Instance { surface_cache: Some(s), ..i }
        } else {
            i
        },
        Err(e) => i,
    }
}

/// The state after clearing the current binding.
pub open spec fn spec_unbind(i: Instance) -> Instance {
    Instance { binding: Binding::NotBound, ..i }
}

/// The state after binding `context` (and optionally `surface`) as
/// current: the binding is recorded, and the first such bind creates the
/// function table, which is never replaced afterwards.
pub open spec fn spec_bind(i: Instance, surface: Option<Surface>, context: Context) -> Instance {
    Instance {
        binding: match surface {
            Some(s) => Binding::Bound { context: context.handle, surface: s.handle },
            None => Binding::ContextOnly { context: context.handle },
        },
        table: match i.table {
            Some(t) => Some(t),
            None => Some(FunctionTable { loaded_for_context: context.handle }),
        },
        ..i
    }
}

/// The state after `make_current`: no context clears the binding; a
/// context-only request on the web is a no-op; anything else binds.
pub open spec fn spec_make_current_next(i: Instance, surface: Option<Surface>,
    context: Option<Context>) -> Instance {
    match context {
        None => spec_unbind(i),
        Some(c) => if surface is None && i.backend is WebGl2 {
            i
        } else {
            spec_bind(i, surface, c)
        },
    }
}

/// The native work `make_current` leaves to the adapter.  For a
/// context-only binding the drawable is the helper window's device context
/// on WGL and none on EGL; the swap-interval-zero call is requested
/// exactly when vsync is off and the backend can control it.
pub open spec fn spec_make_current_action(i: Instance, surface: Option<Surface>,
    context: Option<Context>) -> BindAction {
    match context {
        None => BindAction::Unbind { display: i.display },
        Some(c) => if surface is None && i.backend is WebGl2 {
            BindAction::Noop
        } else {
            BindAction::Bind {
                display: i.display,
                surface: match surface {
                    Some(s) => s.handle,
                    None => if i.backend is Wgl { i.display } else { 0 },
                },
                context: c.handle,
                disable_vsync: !i.is_vsync && vsync_control_available(i),
                load_table: i.table is None,
            }
        },
    }
}

/// How a frame on `surface` is presented: through the frame-pacing library
/// when it is active, by the browser itself on the web, and through the
/// native swap call otherwise.
pub open spec fn spec_swap_action(i: Instance, surface: Surface) -> SwapAction {
    match i.backend {
        Backend::Wgl => SwapAction::Present { display: i.display, surface: surface.handle },
        Backend::Egl => if i.pacing {
            SwapAction::PresentPaced { display: i.display, surface: surface.handle }
        } else {
            SwapAction::Present { display: i.display, surface: surface.handle }
        },
        Backend::WebGl2 => SwapAction::Noop,
    }
}

/// Whether the binding currently involves the context handle `context`.
pub open spec fn binding_uses_context(b: Binding, context: u64) -> bool {
    match b {
        Binding::NotBound => false,
        Binding::ContextOnly { context: c } => c == context,
        Binding::Bound { context: c, surface } => c == context,
    }
}

impl Instance {
    /// Builds the instance for a platform adapter's boot report.
    ///
    /// The adapter has already opened the display connection (a failure to
    /// open or initialize it is fatal there, not an error here) and, on
    /// WGL, run the extension probe.  Construction fails only when frame
    /// pacing was requested and its JVM-attach bootstrap failed.
    pub fn new(power: PowerPreference, is_vsync: bool, boot: DriverBoot)
        -> (r: Result<Instance, InstanceError>)
        requires
            boot.backend is WebGl2 <==> boot.display == 0,
            boot.pacing_requested ==> boot.backend is Egl,
        ensures
            match r {
                Ok(i) => {
                    &&& !(boot.pacing_requested && !boot.pacing_ready)
                    &&& i == spec_new_instance(power, is_vsync, boot)
                    &&& i.wf()
                },
                Err(e) => {
                    &&& e == InstanceError::JNIFailed
                    &&& boot.pacing_requested && !boot.pacing_ready
                },
            },
    {
        if boot.pacing_requested && !boot.pacing_ready {
            return Err(InstanceError::JNIFailed);
        }
        Ok(Instance {
            power,
            is_vsync,
            backend: boot.backend,
            display: boot.display,
            extensions: boot.extensions,
            pacing: boot.pacing_requested,
            table: None,
            binding: Binding::NotBound,
            surface_cache: None,
        })
    }

    /// The native calls a context creation needs, with the exact attribute
    /// lists, or `RequiredExtensionUnavailable` when the WGL extension
    /// probe came up short — in which case no native call is made and no
    /// handle can leak.
    pub fn context_request(&self) -> (r: Result<ContextRequest, InstanceError>)
        requires
            self.wf(),
        ensures
            match r {
                Ok(req) => {
                    &&& context_creation_supported(*self)
                    &&& (match self.backend {
                        Backend::Wgl => req matches ContextRequest::Wgl {
                                pixel_format_attribs, context_attribs }
                            && pixel_format_attribs@ == spec_wgl_pixel_format_attribs()
                            && context_attribs@ == spec_wgl_context_attribs(),
                        Backend::Egl => req matches ContextRequest::Egl {
                                config_attribs, context_attribs }
                            && config_attribs@ == spec_egl_config_attribs()
                            && context_attribs@ == spec_egl_context_attribs(),
                        Backend::WebGl2 => req is WebGl2,
                    })
                },
                Err(e) => {
                    &&& e == InstanceError::RequiredExtensionUnavailable
                    &&& !context_creation_supported(*self)
                },
            },
    {
        match self.backend {
            Backend::Wgl => {
                if !(self.extensions.choose_pixel_format
                    && self.extensions.create_context_attribs) {
                    return Err(InstanceError::RequiredExtensionUnavailable);
                }
                Ok(ContextRequest::Wgl {
                    pixel_format_attribs: wgl_pixel_format_attribs(),
                    context_attribs: wgl_context_attribs(),
                })
            },
            Backend::Egl => Ok(ContextRequest::Egl {
                config_attribs: egl_config_attribs(),
                context_attribs: egl_context_attribs(),
            }),
            Backend::WebGl2 => Ok(ContextRequest::WebGl2),
        }
    }

    /// Turns the driver's reply to a context request into a `Context`.
    ///
    /// Fails with `RequiredExtensionUnavailable` when the WGL extension
    /// probe came up short, and with `ContextCreationFailed` when the
    /// driver returned a null handle; otherwise the context is owned by the
    /// caller, created against this instance's display.
    pub fn create_context(&self, reply: ContextReply) -> (r: Result<Context, InstanceError>)
        requires
            self.wf(),
        ensures
            r == spec_create_context(*self, reply),
            (r matches Ok(c) ==> c.wf() && c.display == self.display),
    {
        match self.backend {
            Backend::Wgl => {
                if !(self.extensions.choose_pixel_format
                    && self.extensions.create_context_attribs) {
                    return Err(InstanceError::RequiredExtensionUnavailable);
                }
            },
            _ => {},
        }
        if reply.handle == 0 {
            return Err(InstanceError::ContextCreationFailed);
        }
        Ok(Context { handle: reply.handle, display: self.display })
    }

    /// The native calls a surface creation for `window` needs, or
    /// `IncompatibleWindowHandle` when the handle is of a kind this
    /// backend does not understand — in which case no native call is made.
    pub fn surface_request(&self, window: &WindowHandle)
        -> (r: Result<SurfaceRequest, InstanceError>)
        requires
            self.wf(),
        ensures
            match r {
                Ok(req) => {
                    &&& backend_accepts(self.backend, *window)
                    &&& (match self.backend {
                        Backend::Wgl => req matches SurfaceRequest::Wgl { hwnd }
                            && hwnd == window.spec_native(),
                        Backend::Egl => req matches SurfaceRequest::Egl {
                                native_window, config_attribs, surface_attribs }
                            && native_window == window.spec_native()
                            && config_attribs@ == spec_egl_config_attribs()
                            && surface_attribs@ == spec_egl_surface_attribs(),
                        Backend::WebGl2 => req matches SurfaceRequest::WebGl2 { id }
                            && id as u64 == window.spec_native(),
                    })
                },
                Err(e) => {
                    &&& e == InstanceError::IncompatibleWindowHandle
                    &&& !backend_accepts(self.backend, *window)
                },
            },
    {
        match self.backend {
            Backend::Wgl => match window {
                WindowHandle::Win32 { hwnd } => Ok(SurfaceRequest::Wgl { hwnd: *hwnd }),
                _ => Err(InstanceError::IncompatibleWindowHandle),
            },
            Backend::Egl => match window {
                WindowHandle::AndroidNdk { native_window } => Ok(SurfaceRequest::Egl {
                    native_window: *native_window,
                    config_attribs: egl_config_attribs(),
                    surface_attribs: egl_surface_attribs(),
                }),
                WindowHandle::Xlib { window: w } => Ok(SurfaceRequest::Egl {
                    native_window: *w,
                    config_attribs: egl_config_attribs(),
                    surface_attribs: egl_surface_attribs(),
                }),
                _ => Err(InstanceError::IncompatibleWindowHandle),
            },
            Backend::WebGl2 => match window {
                WindowHandle::Web { id } => Ok(SurfaceRequest::WebGl2 { id: *id }),
                _ => Err(InstanceError::IncompatibleWindowHandle),
            },
        }
    }

    /// Turns the driver's reply to a surface request into a `Surface`.
    ///
    /// Fails with `IncompatibleWindowHandle` for a window handle of the
    /// wrong kind, leaving the instance untouched.  A created drawable
    /// must have a non-zero size, or creation fails with
    /// `ContextCreationFailed` rather than hand out a zero-sized surface.
    /// On EGL a created surface is remembered, and a null reply falls back
    /// to the remembered one — surface re-creation is unreliable across
    /// Android activity-resume cycles — before failing with
    /// `ContextCreationFailed`.
    pub fn create_surface(&mut self, window: &WindowHandle, reply: SurfaceReply)
        -> (r: Result<Surface, InstanceError>)
        requires
            old(self).wf(),
        ensures
            r == spec_create_surface_result(*old(self), *window, reply),
            *final(self) == spec_create_surface_next(*old(self), *window, reply),
            final(self).wf(),
            (r matches Ok(s) ==> s.wf() && s.display == old(self).display),
            (r is Err ==> *final(self) == *old(self)),
    {
        if !accepts(self.backend, window) {
            return Err(InstanceError::IncompatibleWindowHandle);
        }
        if reply.handle != 0 {
            if reply.width == 0 || reply.height == 0 {
                return Err(InstanceError::ContextCreationFailed);
            }
            let s = Surface {
                handle: reply.handle,
                width: reply.width,
                height: reply.height,
                display: self.display,
            };
            match self.backend {
                Backend::Egl => {
                    self.surface_cache = Some(s);
                },
                _ => {},
            }
            Ok(s)
        } else {
            match &self.surface_cache {
                Some(cached) => Ok(*cached),
                None => Err(InstanceError::ContextCreationFailed),
            }
        }
    }

    /// Re-binds the thread's current context and drawable.
    ///
    /// With no context the current binding is cleared — always legal, in
    /// any state.  With a context (and optionally a surface of the same
    /// connection) the pair becomes current, and the first such bind
    /// creates the GL function table; afterwards the cached table is
    /// reused, never reloaded.  The returned action is the native work the
    /// platform adapter must perform for the transition; a driver that
    /// rejects it is a fatal environment failure, not an error here.
    pub fn make_current(&mut self, surface: Option<&Surface>, context: Option<&Context>)
        -> (action: BindAction)
        requires
            old(self).wf(),
            (match context {
                Some(c) => c.wf() && c.display == old(self).display && (match surface {
                    Some(s) => s.wf() && s.display == old(self).display,
                    None => true,
                }),
                None => true,
            }),
        ensures
            *final(self) == spec_make_current_next(*old(self), deref_opt(surface),
                deref_opt(context)),
            action == spec_make_current_action(*old(self), deref_opt(surface),
                deref_opt(context)),
            final(self).wf(),
            final(self).table is Some <==> (old(self).table is Some || context is Some
                && !(surface is None && old(self).backend is WebGl2)),
            (old(self).table is Some ==> final(self).table == old(self).table),
    {
        match context {
            None => {
                self.binding = Binding::NotBound;
                BindAction::Unbind { display: self.display }
            },
            Some(c) => {
                let context_only_noop = match (&surface, self.backend) {
                    (None, Backend::WebGl2) => true,
                    _ => false,
                };
                if context_only_noop {
                    return BindAction::Noop;
                }
                let bound_surface: u64 = match surface {
                    Some(s) => {
                        self.binding = Binding::Bound { context: c.handle, surface: s.handle };
                        s.handle
                    },
                    None => {
                        self.binding = Binding::ContextOnly { context: c.handle };
                        match self.backend {
                            Backend::Wgl => self.display,
                            _ => 0,
                        }
                    },
                };
                let load_table = self.table.is_none();
                if load_table {
                    self.table = Some(FunctionTable { loaded_for_context: c.handle });
                }
                let disable_vsync = !self.is_vsync && match self.backend {
                    Backend::Wgl => self.extensions.swap_interval,
                    Backend::Egl => true,
                    Backend::WebGl2 => false,
                };
                BindAction::Bind {
                    display: self.display,
                    surface: bound_surface,
                    context: c.handle,
                    disable_vsync,
                    load_table,
                }
            },
        }
    }

    /// The GL function table.  Callable only after a context has been made
    /// current: before the first successful bind there is no table, and GL
    /// entry points must not be reachable.
    pub fn get_glow(&self) -> (r: &FunctionTable)
        requires
            self.wf(),
            self.table is Some,
        ensures
            self.table matches Some(t) && *r == t,
    {
        self.table.as_ref().unwrap()
    }

    /// The GL function table, or `None` before the first successful
    /// context bind.
    pub fn try_get_glow(&self) -> (r: Option<&FunctionTable>)
        requires
            self.wf(),
        ensures
            match r {
                Some(t) => self.table matches Some(u) && *t == u,
                None => self.table is None,
            },
    {
        self.table.as_ref()
    }

    /// Presents `surface`'s back buffer.  Meaningful only while that
    /// surface is part of the current binding; the binding itself does not
    /// change.
    pub fn swap_buffers(&self, surface: &Surface) -> (action: SwapAction)
        requires
            self.wf(),
            surface.wf(),
            surface.display == self.display,
            self.binding matches Binding::Bound { surface: s, .. } && s == surface.handle,
        ensures
            action == spec_swap_action(*self, *surface),
    {
        match self.backend {
            Backend::Wgl => SwapAction::Present { display: self.display, surface: surface.handle },
            Backend::Egl => {
                if self.pacing {
                    SwapAction::PresentPaced { display: self.display, surface: surface.handle }
                } else {
                    SwapAction::Present { display: self.display, surface: surface.handle }
                }
            },
            Backend::WebGl2 => SwapAction::Noop,
        }
    }

    /// Consumes a context and says how to tear it down: destroy it against
    /// the display it was created from, and, on WGL, clear the current
    /// binding first if this context happens to be current — destroying a
    /// current context is undefined behavior there.
    pub fn destroy_context(&mut self, context: Context) -> (action: ContextTeardown)
        requires
            old(self).wf(),
            context.wf(),
            context.display == old(self).display,
        ensures
            final(self).wf(),
            action == (ContextTeardown {
                clear_current_first: old(self).backend is Wgl
                    && binding_uses_context(old(self).binding, context.handle),
                display: old(self).display,
                context: context.handle,
            }),
            (action.clear_current_first ==> *final(self) == spec_unbind(*old(self))),
            (!action.clear_current_first ==> *final(self) == *old(self)),
    {
        let is_current = match self.binding {
            Binding::NotBound => false,
            Binding::ContextOnly { context: c } => c == context.handle,
            Binding::Bound { context: c, .. } => c == context.handle,
        };
        let clear_current_first = match self.backend {
            Backend::Wgl => is_current,
            _ => false,
        };
        if clear_current_first {
            self.binding = Binding::NotBound;
        }
        ContextTeardown { clear_current_first, display: self.display, context: context.handle }
    }

    /// Consumes a surface and says how to tear it down.  The native
    /// destroy call is deliberately skipped on every backend — most
    /// pointedly on EGL, where some Android device drivers crash in
    /// `DestroySurface` during activity lifecycle transitions; the handle
    /// is leaked as a documented safety valve.
    pub fn destroy_surface(&self, surface: Surface) -> (action: SurfaceTeardown)
        requires
            self.wf(),
            surface.wf(),
            surface.display == self.display,
        ensures
            action == (SurfaceTeardown {
                release_native: false,
                display: self.display,
                surface: surface.handle,
            }),
    {
        SurfaceTeardown { release_native: false, display: self.display, surface: surface.handle }
    }

    /// Consumes the instance and says how to tear it down.  Valid only
    /// with the current binding cleared: terminating a display while one
    /// of its contexts is current is undefined behavior, so a caller must
    /// `make_current(None, None)` first.
    pub fn destroy(self) -> (action: InstanceTeardown)
        requires
            self.wf(),
            self.binding is NotBound,
        ensures
            action == (InstanceTeardown {
                terminate_display: self.backend is Egl,
                destroy_helper_window: self.backend is Wgl,
                shutdown_pacing: self.pacing,
                display: self.display,
            }),
    {
        let terminate_display = match self.backend {
            Backend::Egl => true,
            _ => false,
        };
        let destroy_helper_window = match self.backend {
            Backend::Wgl => true,
            _ => false,
        };
        InstanceTeardown {
            terminate_display,
            destroy_helper_window,
            shutdown_pacing: self.pacing,
            display: self.display,
        }
    }
}

/// The value of an optional reference.
pub open spec fn deref_opt<T>(o: Option<&T>) -> Option<T> {
    match o {
        Some(t) => Some(*t),
        None => None,
    }
}

} // verus!
