//! The surface configuration: the drawable target's pixel size, with the
//! invariant that a configuration submitted to the device never carries a
//! zero dimension.

use vstd::prelude::*;

verus! {

/// The size a drawable surface is configured with. A zero width or height
/// is an illegal configuration: constructors and resizes refuse it, so a
/// held `SurfaceConfig` is always submittable.
#[derive(Clone, Copy, PartialEq, Eq, Structural, Debug)]
pub struct SurfaceConfig {
    pub width: u32,
    pub height: u32,
}

impl SurfaceConfig {
    /// Both dimensions are positive.
    pub open spec fn wf(self) -> bool {
        &&& self.width > 0
        &&& self.height > 0
    }

    /// Build a configuration for the window's reported pixel size. A size
    /// with either dimension zero yields no configuration: such a frame is
    /// skipped, never submitted.
    pub fn new(width: u32, height: u32) -> (r: Option<SurfaceConfig>)
        ensures
            (width > 0 && height > 0) <==> r is Some,
            r is Some ==> r->0 == (SurfaceConfig { width, height }) && r->0.wf(),
    {
        if width > 0 && height > 0 {
            Option::Some(SurfaceConfig { width, height })
        } else {
            Option::None
        }
    }

    /// Adopt a new window size. A size with a zero dimension is refused and
    /// the configuration is left as it was, so well-formedness survives
    /// every resize. Returns whether the size was adopted.
    pub fn resize(&mut self, width: u32, height: u32) -> (changed: bool)
        ensures
            changed == (width > 0 && height > 0),
            changed ==> *final(self) == (SurfaceConfig { width, height }),
            !changed ==> *final(self) == *old(self),
            old(self).wf() ==> final(self).wf(),
    {
        if width > 0 && height > 0 {
            self.width = width;
            self.height = height;
            true
        } else {
            false
        }
    }
}

} // verus!
