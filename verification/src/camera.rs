//! Camera state.
//!
//! [`Camera`] holds the eye, target and up vectors together with the
//! perspective projection parameters. All fields are public: the debug
//! overlay edits them live and no validation is performed on such writes.
//! Instead, the matrix derivation guards degenerate inputs — an eye equal
//! to its target, a zero up vector, or projection parameters that are out
//! of order — and the host falls back to an identity matrix rather than
//! deriving one that is not a number. The aspect ratio is kept in step
//! with the viewport on every accepted resize; an overlay edit takes
//! precedence until the next resize recomputes it.

use vstd::prelude::*;
use crate::frac::{Frac, Rat};

verus! {

/// A three-component rational vector.
#[derive(Clone, Copy, Debug, PartialEq, Eq, Structural)]
pub struct Vec3r {
    pub x: Frac,
    pub y: Frac,
    pub z: Frac,
}

/// Mathematical view of a [`Vec3r`].
pub ghost struct Vec3Model {
    pub x: Rat,
    pub y: Rat,
    pub z: Rat,
}

impl View for Vec3r {
    type V = Vec3Model;

    open spec fn view(&self) -> Vec3Model {
        Vec3Model { x: self.x@, y: self.y@, z: self.z@ }
    }
}

impl Vec3r {
    /// All three components have positive denominators.
    pub open spec fn wf(self) -> bool {
        self.x.wf() && self.y.wf() && self.z.wf()
    }

    /// Builds the vector `(x, y, z)`.
    pub fn new(x: Frac, y: Frac, z: Frac) -> (r: Vec3r)
        ensures
            r == (Vec3r { x, y, z }),
    {
        Vec3r { x, y, z }
    }

    /// Exact componentwise value equality.
    pub fn eq_val(&self, other: &Vec3r) -> (r: bool)
        ensures
            r == self@.eq_vec(other@),
    {
        self.x.eq_val(&other.x) && self.y.eq_val(&other.y) && self.z.eq_val(&other.z)
    }
}

impl Vec3Model {
    /// The two vectors denote the same point, componentwise.
    pub open spec fn eq_vec(self, other: Vec3Model) -> bool {
        self.x.eq_rat(other.x) && self.y.eq_rat(other.y) && self.z.eq_rat(other.z)
    }

    /// The vector is exactly zero.
    pub open spec fn is_zero(self) -> bool {
        self.x.is_int(0) && self.y.is_int(0) && self.z.is_int(0)
    }
}

/// An overlay edit of one camera field; applied without validation.
#[derive(Clone, Copy, Debug, PartialEq, Eq, Structural)]
pub enum CameraEdit {
    SetEye(Vec3r),
    SetTarget(Vec3r),
    SetUp(Vec3r),
    SetAspect(Frac),
    SetFovy(Frac),
    SetZnear(Frac),
    SetZfar(Frac),
}

impl CameraEdit {
    /// The value carried by the edit is a well-formed rational.
    pub open spec fn wf(self) -> bool {
        match self {
            CameraEdit::SetEye(v) => v.wf(),
            CameraEdit::SetTarget(v) => v.wf(),
            CameraEdit::SetUp(v) => v.wf(),
            CameraEdit::SetAspect(f) => f.wf(),
            CameraEdit::SetFovy(f) => f.wf(),
            CameraEdit::SetZnear(f) => f.wf(),
            CameraEdit::SetZfar(f) => f.wf(),
        }
    }
}

/// Mathematical view of a [`Camera`].
pub ghost struct CameraModel {
    pub eye: Vec3Model,
    pub target: Vec3Model,
    pub up: Vec3Model,
    pub aspect: Rat,
    pub fovy: Rat,
    pub znear: Rat,
    pub zfar: Rat,
}

impl CameraModel {
    /// The projection parameters denote a valid perspective frustum:
    /// positive aspect, a field of view strictly between 0 and 180
    /// degrees, and `0 < znear < zfar`.
    pub open spec fn projection_valid(self) -> bool {
        &&& Rat::from_int(0).lt_rat(self.aspect)
        &&& Rat::from_int(0).lt_rat(self.fovy)
        &&& self.fovy.lt_rat(Rat::from_int(180))
        &&& Rat::from_int(0).lt_rat(self.znear)
        &&& self.znear.lt_rat(self.zfar)
    }

    /// Matrix derivation from this state would produce no number: the
    /// view ray vanishes, the up direction vanishes, or the frustum is
    /// invalid. The host must fall back to an identity matrix.
    pub open spec fn degenerate(self) -> bool {
        ||| self.eye.eq_vec(self.target)
        ||| self.up.is_zero()
        ||| !self.projection_valid()
    }

    /// The camera after its aspect ratio is recomputed from a viewport of
    /// `w` by `h` pixels.
    pub open spec fn with_aspect(self, w: int, h: int) -> CameraModel {
        CameraModel { aspect: Rat { num: w, den: h }, ..self }
    }

    /// The camera after one overlay edit.
    pub open spec fn after_edit(self, edit: CameraEdit) -> CameraModel {
        match edit {
            CameraEdit::SetEye(v) => CameraModel { eye: v@, ..self },
            CameraEdit::SetTarget(v) => CameraModel { target: v@, ..self },
            CameraEdit::SetUp(v) => CameraModel { up: v@, ..self },
            CameraEdit::SetAspect(f) => CameraModel { aspect: f@, ..self },
            CameraEdit::SetFovy(f) => CameraModel { fovy: f@, ..self },
            CameraEdit::SetZnear(f) => CameraModel { znear: f@, ..self },
            CameraEdit::SetZfar(f) => CameraModel { zfar: f@, ..self },
        }
    }

    /// The camera after a sequence of overlay edits, applied first to
    /// last; a later edit of the same field wins.
    pub open spec fn after_edits(self, edits: Seq<CameraEdit>) -> CameraModel
        decreases edits.len(),
    {
        if edits.len() == 0 {
            self
        } else {
            self.after_edits(edits.drop_last()).after_edit(edits.last())
        }
    }
}

/// Eye, target and up vectors plus perspective projection parameters,
/// exposed for live editing by the overlay.
#[derive(Clone, Copy, Debug, PartialEq, Eq, Structural)]
pub struct Camera {
    pub eye: Vec3r,
    pub target: Vec3r,
    pub up: Vec3r,
    pub aspect: Frac,
    pub fovy: Frac,
    pub znear: Frac,
    pub zfar: Frac,
}

impl View for Camera {
    type V = CameraModel;

    open spec fn view(&self) -> CameraModel {
        CameraModel {
            eye: self.eye@,
            target: self.target@,
            up: self.up@,
            aspect: self.aspect@,
            fovy: self.fovy@,
            znear: self.znear@,
            zfar: self.zfar@,
        }
    }
}

impl Camera {
    /// Every field is a well-formed rational.
    pub open spec fn wf(self) -> bool {
        &&& self.eye.wf()
        &&& self.target.wf()
        &&& self.up.wf()
        &&& self.aspect.wf()
        &&& self.fovy.wf()
        &&& self.znear.wf()
        &&& self.zfar.wf()
    }

    /// Builds a camera from its fields.
    pub fn new(
        eye: Vec3r,
        target: Vec3r,
        up: Vec3r,
        aspect: Frac,
        fovy: Frac,
        znear: Frac,
        zfar: Frac,
    ) -> (r: Camera)
        ensures
            r == (Camera { eye, target, up, aspect, fovy, znear, zfar }),
    {
        Camera { eye, target, up, aspect, fovy, znear, zfar }
    }

    /// Recomputes the aspect ratio from the viewport size, exactly
    /// `width / height`; every other field is kept.
    pub fn set_aspect(&mut self, width: u32, height: u32)
        requires
            old(self).wf(),
            width > 0,
            height > 0,
        ensures
            final(self).wf(),
            final(self)@ == old(self)@.with_aspect(width as int, height as int),
            final(self).aspect.num == width as i64,
            final(self).aspect.den == height as i64,
    {
        self.aspect = Frac { num: width as i64, den: height as i64 };
    }

    /// Applies one overlay edit to the named field, leaving the others
    /// untouched. The value is committed as given: degenerate states are
    /// caught by [`Camera::is_degenerate`] at matrix-derivation time, not
    /// rejected here.
    pub fn apply_edit(&mut self, edit: &CameraEdit)
        requires
            old(self).wf(),
            edit.wf(),
        ensures
            final(self).wf(),
            final(self)@ == old(self)@.after_edit(*edit),
    {
        match edit {
            CameraEdit::SetEye(v) => self.eye = *v,
            CameraEdit::SetTarget(v) => self.target = *v,
            CameraEdit::SetUp(v) => self.up = *v,
            CameraEdit::SetAspect(f) => self.aspect = *f,
            CameraEdit::SetFovy(f) => self.fovy = *f,
            CameraEdit::SetZnear(f) => self.znear = *f,
            CameraEdit::SetZfar(f) => self.zfar = *f,
        }
    }

    /// Whether matrix derivation must fall back to the identity matrix:
    /// the eye coincides with the target, the up vector is zero, or the
    /// projection parameters are out of order.
    pub fn is_degenerate(&self) -> (r: bool)
        ensures
            r == self@.degenerate(),
    {
        let zero = Frac::zero();
        if self.eye.eq_val(&self.target) {
            return true;
        }
        if self.up.x.eq_val(&zero) && self.up.y.eq_val(&zero) && self.up.z.eq_val(&zero) {
            proof {
                lemma_eq_zero_is_int(self.up.x@);
                lemma_eq_zero_is_int(self.up.y@);
                lemma_eq_zero_is_int(self.up.z@);
            }
            return true;
        }
        proof {
            lemma_eq_zero_is_int(self.up.x@);
            lemma_eq_zero_is_int(self.up.y@);
            lemma_eq_zero_is_int(self.up.z@);
        }
        !(zero.lt_val(&self.aspect) && zero.lt_val(&self.fovy) && self.fovy.lt_val(
            &Frac::from_i64(180),
        ) && zero.lt_val(&self.znear) && self.znear.lt_val(&self.zfar))
    }
}

/// Value equality with the literal zero coincides with being the integer
/// zero.
proof fn lemma_eq_zero_is_int(a: Rat)
    ensures
        a.eq_rat(Rat::from_int(0)) == a.is_int(0),
{
}

} // verus!
