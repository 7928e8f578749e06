//! Viewport state.
//!
//! [`ViewportState`] owns the current pixel size and scale factor of the
//! window surface. A resize to a zero-area size is rejected without any
//! state change, since a zero dimension would make coordinate
//! normalization undefined; an accepted resize replaces size and scale
//! factor and yields the new aspect ratio for propagation to the camera.

use vstd::prelude::*;
use crate::frac::{Frac, Rat};

verus! {

/// Mathematical view of a [`ViewportState`].
pub ghost struct ViewportModel {
    pub width: int,
    pub height: int,
    pub scale_factor: Rat,
}

impl ViewportModel {
    /// The viewport after a resize request: committed when both
    /// dimensions are positive, rejected (no change) otherwise.
    pub open spec fn after_resize(self, w: int, h: int, scale_factor: Rat) -> ViewportModel {
        if w > 0 && h > 0 {
            ViewportModel { width: w, height: h, scale_factor }
        } else {
            self
        }
    }
}

/// Current pixel size and scale factor of the window surface.
#[derive(Clone, Copy, Debug, PartialEq, Eq, Structural)]
pub struct ViewportState {
    pub width: u32,
    pub height: u32,
    pub scale_factor: Frac,
}

impl View for ViewportState {
    type V = ViewportModel;

    open spec fn view(&self) -> ViewportModel {
        ViewportModel {
            width: self.width as int,
            height: self.height as int,
            scale_factor: self.scale_factor@,
        }
    }
}

impl ViewportState {
    /// Both dimensions are positive (the window is realized) and the
    /// scale factor is a positive rational.
    pub open spec fn wf(self) -> bool {
        &&& self.width > 0
        &&& self.height > 0
        &&& self.scale_factor.wf()
        &&& self.scale_factor.num > 0
    }

    /// A viewport of `width` by `height` pixels at the given scale factor.
    pub fn new(width: u32, height: u32, scale_factor: Frac) -> (r: ViewportState)
        requires
            width > 0,
            height > 0,
            scale_factor.wf(),
            scale_factor.num > 0,
        ensures
            r.wf(),
            r.width == width,
            r.height == height,
            r.scale_factor == scale_factor,
    {
        ViewportState { width, height, scale_factor }
    }

    /// Commits a new size and scale factor, unless the size has a zero
    /// dimension: a zero-area request is rejected and the viewport keeps
    /// its prior value, so that a rejected resize is idempotent.
    pub fn resize(&mut self, w: u32, h: u32, scale_factor: Frac) -> (accepted: bool)
        requires
            old(self).wf(),
            scale_factor.wf(),
            scale_factor.num > 0,
        ensures
            final(self).wf(),
            accepted == (w > 0 && h > 0),
            final(self)@ == old(self)@.after_resize(w as int, h as int, scale_factor@),
            !accepted ==> *final(self) == *old(self),
    {
        if w > 0 && h > 0 {
            self.width = w;
            self.height = h;
            self.scale_factor = scale_factor;
            true
        } else {
            false
        }
    }

    /// The aspect ratio `width / height`, exact.
    pub fn aspect(&self) -> (r: Frac)
        requires
            self.wf(),
        ensures
            r.wf(),
            r.num == self.width,
            r.den == self.height,
    {
        Frac { num: self.width as i64, den: self.height as i64 }
    }
}

} // verus!
