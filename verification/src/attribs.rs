//! The attribute lists handed to the native context API.
//!
//! Context creation negotiates a framebuffer configuration and a context
//! version through zero-terminated `i32` attribute lists.  The exact lists
//! are part of this crate's contract: RGBA8 color, a 24-bit depth buffer,
//! a double-buffered window drawable, and a major version 3 context with a
//! core (WGL) or ES (EGL) profile.

use vstd::prelude::*;

verus! {

// WGL pixel-format and context-attribute names.
pub const WGL_DRAW_TO_WINDOW_ARB: i32 = 0x2001;
pub const WGL_ACCELERATION_ARB: i32 = 0x2003;
pub const WGL_SUPPORT_OPENGL_ARB: i32 = 0x2010;
pub const WGL_DOUBLE_BUFFER_ARB: i32 = 0x2011;
pub const WGL_PIXEL_TYPE_ARB: i32 = 0x2013;
pub const WGL_COLOR_BITS_ARB: i32 = 0x2014;
pub const WGL_ALPHA_BITS_ARB: i32 = 0x201b;
pub const WGL_DEPTH_BITS_ARB: i32 = 0x2022;
pub const WGL_STENCIL_BITS_ARB: i32 = 0x2023;
pub const WGL_FULL_ACCELERATION_ARB: i32 = 0x2027;
pub const WGL_TYPE_RGBA_ARB: i32 = 0x202b;
pub const WGL_CONTEXT_MAJOR_VERSION_ARB: i32 = 0x2091;
pub const WGL_CONTEXT_MINOR_VERSION_ARB: i32 = 0x2092;
pub const WGL_CONTEXT_PROFILE_MASK_ARB: i32 = 0x9126;
pub const WGL_CONTEXT_CORE_PROFILE_BIT_ARB: i32 = 0x0001;

// EGL attribute names.
pub const EGL_BLUE_SIZE: i32 = 0x3022;
pub const EGL_GREEN_SIZE: i32 = 0x3023;
pub const EGL_RED_SIZE: i32 = 0x3024;
pub const EGL_DEPTH_SIZE: i32 = 0x3025;
pub const EGL_SURFACE_TYPE: i32 = 0x3033;
pub const EGL_NONE: i32 = 0x3038;
pub const EGL_RENDERABLE_TYPE: i32 = 0x3040;
pub const EGL_CONTEXT_CLIENT_VERSION: i32 = 0x3098;
pub const EGL_WINDOW_BIT: i32 = 0x0004;
pub const EGL_OPENGL_ES2_BIT: i32 = 0x0004;

/// The terminator of a WGL attribute list.
pub const ATTRIB_NONE: i32 = 0;

/// The GL / GLES major version every context request asks for.  This is a
/// lower bound: the driver may supply a compatible higher version.
pub const REQUESTED_MAJOR_VERSION: i32 = 3;

/// The WGL pixel-format attributes: a hardware-accelerated, double-buffered
/// RGBA window drawable with 32 color bits, 24 depth bits, 8 stencil bits
/// and 8 alpha bits.
pub open spec fn spec_wgl_pixel_format_attribs() -> Seq<i32> {
    seq![
        WGL_DRAW_TO_WINDOW_ARB, 1,
        WGL_SUPPORT_OPENGL_ARB, 1,
        WGL_DOUBLE_BUFFER_ARB, 1,
        WGL_ACCELERATION_ARB, WGL_FULL_ACCELERATION_ARB,
        WGL_PIXEL_TYPE_ARB, WGL_TYPE_RGBA_ARB,
        WGL_COLOR_BITS_ARB, 32,
        WGL_DEPTH_BITS_ARB, 24,
        WGL_STENCIL_BITS_ARB, 8,
        WGL_ALPHA_BITS_ARB, 8,
        ATTRIB_NONE,
    ]
}

/// The WGL context attributes: an OpenGL 3.3 core-profile context.
pub open spec fn spec_wgl_context_attribs() -> Seq<i32> {
    seq![
        WGL_CONTEXT_MAJOR_VERSION_ARB, REQUESTED_MAJOR_VERSION,
        WGL_CONTEXT_MINOR_VERSION_ARB, 3,
        WGL_CONTEXT_PROFILE_MASK_ARB, WGL_CONTEXT_CORE_PROFILE_BIT_ARB,
        ATTRIB_NONE,
    ]
}

/// The EGL framebuffer-configuration attributes: an ES2-renderable window
/// drawable with RGB8 color and a 24-bit depth buffer.  The trailing zeros
/// after the terminator are kept as the driver protocol sends them.
pub open spec fn spec_egl_config_attribs() -> Seq<i32> {
    seq![
        EGL_RENDERABLE_TYPE, EGL_OPENGL_ES2_BIT,
        EGL_SURFACE_TYPE, EGL_WINDOW_BIT,
        EGL_BLUE_SIZE, 8,
        EGL_GREEN_SIZE, 8,
        EGL_RED_SIZE, 8,
        EGL_DEPTH_SIZE, 24,
        EGL_NONE, 0, 0, 0,
    ]
}

/// The EGL context attributes: an OpenGL ES 3 context.
pub open spec fn spec_egl_context_attribs() -> Seq<i32> {
    seq![EGL_CONTEXT_CLIENT_VERSION, REQUESTED_MAJOR_VERSION, EGL_NONE]
}

/// The EGL window-surface attributes: no overrides, just the terminator.
pub open spec fn spec_egl_surface_attribs() -> Seq<i32> {
    seq![EGL_NONE]
}

/// Builds the WGL pixel-format attribute list.
pub fn wgl_pixel_format_attribs() -> (r: Vec<i32>)
    ensures
        r@ == spec_wgl_pixel_format_attribs(),
{
    let mut v: Vec<i32> = Vec::new();
    v.push(WGL_DRAW_TO_WINDOW_ARB);
    v.push(1);
    v.push(WGL_SUPPORT_OPENGL_ARB);
    v.push(1);
    v.push(WGL_DOUBLE_BUFFER_ARB);
    v.push(1);
    v.push(WGL_ACCELERATION_ARB);
    v.push(WGL_FULL_ACCELERATION_ARB);
    v.push(WGL_PIXEL_TYPE_ARB);
    v.push(WGL_TYPE_RGBA_ARB);
    v.push(WGL_COLOR_BITS_ARB);
    v.push(32);
    v.push(WGL_DEPTH_BITS_ARB);
    v.push(24);
    v.push(WGL_STENCIL_BITS_ARB);
    v.push(8);
    v.push(WGL_ALPHA_BITS_ARB);
    v.push(8);
    v.push(ATTRIB_NONE);
    proof {
        assert(v@ =~= spec_wgl_pixel_format_attribs());
    }
    v
}

/// Builds the WGL context attribute list.
pub fn wgl_context_attribs() -> (r: Vec<i32>)
    ensures
        r@ == spec_wgl_context_attribs(),
{
    let mut v: Vec<i32> = Vec::new();
    v.push(WGL_CONTEXT_MAJOR_VERSION_ARB);
    v.push(REQUESTED_MAJOR_VERSION);
    v.push(WGL_CONTEXT_MINOR_VERSION_ARB);
    v.push(3);
    v.push(WGL_CONTEXT_PROFILE_MASK_ARB);
    v.push(WGL_CONTEXT_CORE_PROFILE_BIT_ARB);
    v.push(ATTRIB_NONE);
    proof {
        assert(v@ =~= spec_wgl_context_attribs());
    }
    v
}

/// Builds the EGL framebuffer-configuration attribute list.
pub fn egl_config_attribs() -> (r: Vec<i32>)
    ensures
        r@ == spec_egl_config_attribs(),
{
    let mut v: Vec<i32> = Vec::new();
    v.push(EGL_RENDERABLE_TYPE);
    v.push(EGL_OPENGL_ES2_BIT);
    v.push(EGL_SURFACE_TYPE);
    v.push(EGL_WINDOW_BIT);
    v.push(EGL_BLUE_SIZE);
    v.push(8);
    v.push(EGL_GREEN_SIZE);
    v.push(8);
    v.push(EGL_RED_SIZE);
    v.push(8);
    v.push(EGL_DEPTH_SIZE);
    v.push(24);
    v.push(EGL_NONE);
    v.push(0);
    v.push(0);
    v.push(0);
    proof {
        assert(v@ =~= spec_egl_config_attribs());
    }
    v
}

/// Builds the EGL context attribute list.
pub fn egl_context_attribs() -> (r: Vec<i32>)
    ensures
        r@ == spec_egl_context_attribs(),
{
    let mut v: Vec<i32> = Vec::new();
    v.push(EGL_CONTEXT_CLIENT_VERSION);
    v.push(REQUESTED_MAJOR_VERSION);
    v.push(EGL_NONE);
    proof {
        assert(v@ =~= spec_egl_context_attribs());
    }
    v
}

/// Builds the EGL window-surface attribute list.
pub fn egl_surface_attribs() -> (r: Vec<i32>)
    ensures
        r@ == spec_egl_surface_attribs(),
{
    let mut v: Vec<i32> = Vec::new();
    v.push(EGL_NONE);
    proof {
        assert(v@ =~= spec_egl_surface_attribs());
    }
    v
}

} // verus!
