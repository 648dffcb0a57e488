//! Laws of the context/surface lifecycle, proved over the spec-level
//! transition functions the executable methods are specified by.

use vstd::prelude::*;
use crate::backend::WindowHandle;
use crate::context::Context;
use crate::driver::{ContextReply, DriverBoot, SurfaceReply};
use crate::instance::{
    context_creation_supported, spec_create_context, spec_create_surface_next,
    spec_create_surface_result, spec_make_current_next, spec_new_instance, Binding,
    FunctionTable, Instance,
};
use crate::surface::Surface;
use crate::PowerPreference;

verus! {

/// Any context the driver actually created for a supporting instance can
/// be made current: `create_context` returns it, and a later
/// `make_current` with it and any surface of the same connection meets
/// that call's precondition and reaches the bound state, with a live
/// function table.
pub proof fn lemma_created_context_becomes_current(i: Instance, reply: ContextReply, s: Surface)
    requires
        i.wf(),
        context_creation_supported(i),
        reply.handle != 0,
        s.wf(),
        s.display == i.display,
    ensures
        spec_create_context(i, reply) matches Ok(c) && {
            let j = spec_make_current_next(i, Some(s), Some(c));
            &&& c.wf() && c.display == i.display
            &&& j.wf()
            &&& j.binding == (Binding::Bound { context: c.handle, surface: s.handle })
            &&& j.table is Some
        },
{
}

/// A surface is never handed out with a zero dimension: whenever surface
/// creation succeeds, the surface is well-formed, with positive width and
/// height, and belongs to the instance's display.
pub proof fn lemma_surface_never_zero_sized(i: Instance, window: WindowHandle,
    reply: SurfaceReply)
    requires
        i.wf(),
    ensures
        spec_create_surface_result(i, window, reply) matches Ok(s) ==> {
            &&& s.wf()
            &&& s.width > 0 && s.height > 0
            &&& s.display == i.display
        },
        spec_create_surface_next(i, window, reply).wf(),
{
}

/// Clearing the current binding is idempotent: `make_current(None, None)`
/// is legal in every state, leaves the instance unbound, and a second
/// clearing changes nothing at all.
pub proof fn lemma_unbind_idempotent(i: Instance)
    requires
        i.wf(),
    ensures
        ({
            let j = spec_make_current_next(i, None, None);
            &&& j.wf()
            &&& j.binding is NotBound
            &&& spec_make_current_next(j, None, None) == j
        }),
{
}

/// The function table is created by the first successful context bind and
/// never replaced: across an unbind and a rebind — even with a different
/// surface and context — the instance keeps the very table the first bind
/// created.
pub proof fn lemma_table_stable_across_rebind(i: Instance, s1: Surface, c1: Context,
    s2: Surface, c2: Context)
    requires
        i.wf(),
        i.table is None,
        s1.wf() && s1.display == i.display,
        c1.wf() && c1.display == i.display,
        s2.wf() && s2.display == i.display,
        c2.wf() && c2.display == i.display,
    ensures
        ({
            let a = spec_make_current_next(i, Some(s1), Some(c1));
            let b = spec_make_current_next(a, None, None);
            let d = spec_make_current_next(b, Some(s2), Some(c2));
            &&& a.table == Some(FunctionTable { loaded_for_context: c1.handle })
            &&& b.table == a.table
            &&& d.table == a.table
        }),
{
}

/// GL entry points are unreachable before the first successful context
/// bind: a new instance has no function table, and neither surface
/// creation nor a bindless `make_current` installs one — only a
/// `make_current` with a context does.
pub proof fn lemma_no_table_before_first_bind(power: PowerPreference, is_vsync: bool,
    boot: DriverBoot, i: Instance, window: WindowHandle, reply: SurfaceReply,
    surface: Option<Surface>)
    requires
        i.wf(),
    ensures
        spec_new_instance(power, is_vsync, boot).table is None,
        spec_create_surface_next(i, window, reply).table == i.table,
        spec_make_current_next(i, surface, None).table == i.table,
{
}

} // verus!
