//! A drawable surface bound to one native window.

use vstd::prelude::*;

verus! {

/// A double-buffered drawable tied to one native window, through which
/// rendered frames are presented.
///
/// The width and height are captured when the surface is created: they are
/// what the system actually allocated, not client-requested values, and a
/// surface is never handed out with a zero dimension.  The descriptor is
/// freely copyable — several logical holders may refer to the same native
/// drawable — while teardown responsibility stays with
/// `Instance::destroy_surface`.
#[derive(Clone, Copy, Debug, PartialEq, Eq, Structural)]
pub struct Surface {
    /// The native drawable handle; never null for a created surface.
    pub handle: u64,
    /// The drawable's width in pixels, as queried at creation.
    pub width: u32,
    /// The drawable's height in pixels, as queried at creation.
    pub height: u32,
    /// The display connection the surface was created against.
    pub display: u64,
}

impl Surface {
    /// A created surface carries a non-null native handle and a non-zero
    /// size.
    pub open spec fn wf(self) -> bool {
        self.handle != 0 && self.width > 0 && self.height > 0
    }

    /// The drawable's width in pixels.
    pub fn get_width(&self) -> (r: u32)
        ensures
            r == self.width,
    {
        self.width
    }

    /// The drawable's height in pixels.
    pub fn get_height(&self) -> (r: u32)
        ensures
            r == self.height,
    {
        self.height
    }
}

} // verus!
