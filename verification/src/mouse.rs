//! Cursor tracking.
//!
//! [`Mouse`] owns the cursor's pixel position, its normalized device
//! coordinates, the screen size those coordinates are normalized against,
//! and the press/release edges of the primary button. The fixed transform
//!
//! ```text
//! ndc.x = (x / width)  * 2 - 1
//! ndc.y = 1 - (y / height) * 2
//! ```
//!
//! is computed exactly over rationals: the y axis is flipped because the
//! pixel origin is the top-left corner while the NDC origin is the screen
//! center with +y up. The tracker keeps, as a type invariant, that the
//! stored NDC position is always the one derived from the stored pixel
//! position and the current screen size.

use vstd::prelude::*;
use crate::frac::{Frac, Rat};
use crate::event::{MouseButton, WindowEvent};

verus! {

/// Normalized device x coordinate of pixel column `p` on a screen `w`
/// pixels wide: `(p / w) * 2 - 1`, as an exact rational.
pub open spec fn ndc_x(p: Rat, w: int) -> Rat {
    Rat { num: 2 * p.num - w * p.den, den: w * p.den }
}

/// Normalized device y coordinate of pixel row `p` on a screen `h`
/// pixels tall: `1 - (p / h) * 2`, as an exact rational.
pub open spec fn ndc_y(p: Rat, h: int) -> Rat {
    Rat { num: h * p.den - 2 * p.num, den: h * p.den }
}

/// Mathematical view of a [`Mouse`].
pub ghost struct MouseModel {
    pub pos_viewport: (Rat, Rat),
    pub pos_ndc: (Rat, Rat),
    pub screen: (int, int),
    pub pressed: bool,
    pub released: bool,
}

impl MouseModel {
    /// The tracker after a cursor move to pixel position `(x, y)`.
    pub open spec fn after_move(self, x: Rat, y: Rat) -> MouseModel {
        MouseModel {
            pos_viewport: (x, y),
            pos_ndc: (ndc_x(x, self.screen.0), ndc_y(y, self.screen.1)),
            ..self
        }
    }

    /// The tracker after the screen size changes to `w` by `h` pixels:
    /// the pixel position is kept and its NDC position renormalized.
    pub open spec fn after_screen(self, w: int, h: int) -> MouseModel {
        MouseModel {
            screen: (w, h),
            pos_ndc: (ndc_x(self.pos_viewport.0, w), ndc_y(self.pos_viewport.1, h)),
            ..self
        }
    }

    /// The tracker after a primary-button edge event.
    pub open spec fn after_button(self, pressed: bool) -> MouseModel {
        MouseModel { pressed, released: !pressed, ..self }
    }

    /// The tracker after its edge flags are consumed at the end of a
    /// render tick.
    pub open spec fn after_clear(self) -> MouseModel {
        MouseModel { pressed: false, released: false, ..self }
    }

    /// The tracker after one window event is dispatched to it: cursor
    /// moves update the position, primary-button events record an edge,
    /// everything else leaves the tracker unchanged.
    pub open spec fn after_event(self, event: WindowEvent) -> MouseModel {
        match event {
            WindowEvent::CursorMoved { x, y } => self.after_move(x@, y@),
            WindowEvent::MouseInput { button: MouseButton::Left, pressed } => self.after_button(
                pressed,
            ),
            _ => self,
        }
    }
}

/// The events [`Mouse::process_events`] consumes: cursor moves and
/// primary-button input.
pub open spec fn mouse_event_handled(event: WindowEvent) -> bool {
    match event {
        WindowEvent::CursorMoved { .. } => true,
        WindowEvent::MouseInput { button, .. } => button is Left,
        _ => false,
    }
}

/// Cursor tracker: pixel position, derived NDC position, the screen size
/// they are normalized against, and the primary button's edge flags.
#[derive(Clone, Copy, Debug)]
pub struct Mouse {
    pub pos_viewport: (Frac, Frac),
    pub pos_ndc: (Frac, Frac),
    pub screen: (u32, u32),
    pub pressed: bool,
    pub released: bool,
}

impl View for Mouse {
    type V = MouseModel;

    open spec fn view(&self) -> MouseModel {
        MouseModel {
            pos_viewport: (self.pos_viewport.0@, self.pos_viewport.1@),
            pos_ndc: (self.pos_ndc.0@, self.pos_ndc.1@),
            screen: (self.screen.0 as int, self.screen.1 as int),
            pressed: self.pressed,
            released: self.released,
        }
    }
}

impl Mouse {
    /// Both screen dimensions are positive, the pixel position is small
    /// enough for the transform's arithmetic, and the stored NDC position
    /// is exactly the one derived from the pixel position and screen size.
    pub open spec fn wf(self) -> bool {
        &&& self.screen.0 > 0
        &&& self.screen.1 > 0
        &&& self.pos_viewport.0.coord_bounded()
        &&& self.pos_viewport.1.coord_bounded()
        &&& self@.pos_ndc.0 == ndc_x(self@.pos_viewport.0, self.screen.0 as int)
        &&& self@.pos_ndc.1 == ndc_y(self@.pos_viewport.1, self.screen.1 as int)
    }

    /// A tracker for a `sw` by `sh` pixel screen, with the cursor at the
    /// top-left pixel and no button edges recorded.
    pub fn new(sw: u32, sh: u32) -> (r: Mouse)
        requires
            sw > 0,
            sh > 0,
        ensures
            r.wf(),
            r@ == (MouseModel {
                pos_viewport: (Rat::from_int(0), Rat::from_int(0)),
                pos_ndc: (
                    Rat { num: -(sw as int), den: sw as int },
                    Rat { num: sh as int, den: sh as int },
                ),
                screen: (sw as int, sh as int),
                pressed: false,
                released: false,
            }),
    {
        let m = Mouse {
            pos_viewport: (Frac::zero(), Frac::zero()),
            pos_ndc: (
                Frac { num: -(sw as i64), den: sw as i64 },
                Frac { num: sh as i64, den: sh as i64 },
            ),
            screen: (sw, sh),
            pressed: false,
            released: false,
        };
        proof {
            assert(ndc_x(m@.pos_viewport.0, sw as int).num == 2 * 0 - (sw as int) * 1);
            assert(ndc_y(m@.pos_viewport.1, sh as int).num == (sh as int) * 1 - 2 * 0);
        }
        m
    }

    /// Current cursor position in viewport pixels.
    pub fn pos_viewport(&self) -> (r: (Frac, Frac))
        ensures
            r == self.pos_viewport,
    {
        self.pos_viewport
    }

    /// Current cursor position in normalized device coordinates.
    pub fn pos_ndc(&self) -> (r: (Frac, Frac))
        ensures
            r == self.pos_ndc,
    {
        self.pos_ndc
    }

    /// Whether a primary-button press edge is pending.
    pub fn pressed(&self) -> (r: bool)
        ensures
            r == self.pressed,
    {
        self.pressed
    }

    /// Whether a primary-button release edge is pending.
    pub fn released(&self) -> (r: bool)
        ensures
            r == self.released,
    {
        self.released
    }

    /// Moves the cursor to viewport pixel position `(x, y)` and recomputes
    /// its NDC position with the fixed transform.
    pub fn update_from_viewport(&mut self, x: Frac, y: Frac)
        requires
            old(self).wf(),
            x.coord_bounded(),
            y.coord_bounded(),
        ensures
            final(self).wf(),
            final(self)@ == old(self)@.after_move(x@, y@),
    {
        proof {
            lemma_screen_den_prod(self.screen.0 as int, x.den as int);
            lemma_screen_den_prod(self.screen.1 as int, y.den as int);
        }
        let dx: i64 = (self.screen.0 as i64) * x.den;
        let dy: i64 = (self.screen.1 as i64) * y.den;
        let nx: i64 = 2 * x.num - dx;
        let ny: i64 = dy - 2 * y.num;
        self.pos_viewport = (x, y);
        self.pos_ndc = (Frac { num: nx, den: dx }, Frac { num: ny, den: dy });
    }

    /// Renormalizes the stored pixel position against a new screen size,
    /// keeping the invariant that NDC is derived from the current size.
    pub fn set_screen(&mut self, w: u32, h: u32)
        requires
            old(self).wf(),
            w > 0,
            h > 0,
        ensures
            final(self).wf(),
            final(self)@ == old(self)@.after_screen(w as int, h as int),
    {
        proof {
            lemma_screen_den_prod(w as int, self.pos_viewport.0.den as int);
            lemma_screen_den_prod(h as int, self.pos_viewport.1.den as int);
        }
        let dx: i64 = (w as i64) * self.pos_viewport.0.den;
        let dy: i64 = (h as i64) * self.pos_viewport.1.den;
        let nx: i64 = 2 * self.pos_viewport.0.num - dx;
        let ny: i64 = dy - 2 * self.pos_viewport.1.num;
        self.screen = (w, h);
        self.pos_ndc = (Frac { num: nx, den: dx }, Frac { num: ny, den: dy });
    }

    /// Records a primary-button edge: a press sets `pressed`, a release
    /// sets `released`; the two are mutually exclusive.
    pub fn set_button_edge(&mut self, pressed: bool)
        requires
            old(self).wf(),
        ensures
            final(self).wf(),
            final(self)@ == old(self)@.after_button(pressed),
    {
        self.pressed = pressed;
        self.released = !pressed;
    }

    /// Clears both edge flags; called once a render tick has consumed
    /// them, so a stale edge never outlives its tick.
    pub fn clear_edges(&mut self)
        requires
            old(self).wf(),
        ensures
            final(self).wf(),
            final(self)@ == old(self)@.after_clear(),
    {
        self.pressed = false;
        self.released = false;
    }

    /// Dispatches one window event to the tracker and reports whether the
    /// event was one the tracker consumes.
    pub fn process_events(&mut self, event: &WindowEvent) -> (handled: bool)
        requires
            old(self).wf(),
            event matches WindowEvent::CursorMoved { x, y } ==> x.coord_bounded()
                && y.coord_bounded(),
        ensures
            final(self).wf(),
            final(self)@ == old(self)@.after_event(*event),
            handled == mouse_event_handled(*event),
    {
        match event {
            WindowEvent::CursorMoved { x, y } => {
                let xv = *x;
                let yv = *y;
                self.update_from_viewport(xv, yv);
                true
            },
            WindowEvent::MouseInput { button: MouseButton::Left, pressed } => {
                let p = *pressed;
                self.set_button_edge(p);
                true
            },
            _ => false,
        }
    }
}

/// The product of a positive screen dimension and a bounded coordinate
/// denominator is positive and leaves `i64` headroom.
proof fn lemma_screen_den_prod(w: int, d: int)
    requires
        0 < w <= u32::MAX,
        0 < d <= crate::frac::COORD_DEN_MAX,
    ensures
        0 < w * d <= 0x4000_0000_0000_0000,
{
    assert(0 < w * d <= 0x4000_0000_0000_0000) by (nonlinear_arith)
        requires
            0 < w <= u32::MAX,
            0 < d <= crate::frac::COORD_DEN_MAX,
    ;
}

/// For any cursor move inside the viewport, the tracker's resulting NDC
/// position lies in the closed unit square: moving to the top-left pixel
/// `(0, 0)` yields exactly `(-1, 1)`, and moving to the bottom-right
/// corner `(width, height)` yields exactly `(1, -1)`.
pub proof fn lemma_move_inside_viewport_ndc_in_unit_square(m: MouseModel, x: Rat, y: Rat)
    requires
        x.wf(),
        y.wf(),
        m.screen.0 > 0,
        m.screen.1 > 0,
        Rat::from_int(0).le_rat(x),
        x.le_rat(Rat::from_int(m.screen.0)),
        Rat::from_int(0).le_rat(y),
        y.le_rat(Rat::from_int(m.screen.1)),
    ensures
        Rat::from_int(-1).le_rat(m.after_move(x, y).pos_ndc.0),
        m.after_move(x, y).pos_ndc.0.le_rat(Rat::from_int(1)),
        Rat::from_int(-1).le_rat(m.after_move(x, y).pos_ndc.1),
        m.after_move(x, y).pos_ndc.1.le_rat(Rat::from_int(1)),
        x.is_int(0) && y.is_int(0) ==> m.after_move(x, y).pos_ndc.0.is_int(-1) && m.after_move(
            x,
            y,
        ).pos_ndc.1.is_int(1),
        x.is_int(m.screen.0) && y.is_int(m.screen.1) ==> m.after_move(x, y).pos_ndc.0.is_int(1)
            && m.after_move(x, y).pos_ndc.1.is_int(-1),
{
    lemma_ndc_x_in_range(x, m.screen.0);
    lemma_ndc_y_in_range(y, m.screen.1);
}

/// For a pixel column inside the viewport, the normalized device x
/// coordinate lies in `[-1, 1]`: `0` maps exactly to `-1` and the full
/// width maps exactly to `1`.
pub proof fn lemma_ndc_x_in_range(p: Rat, w: int)
    requires
        p.wf(),
        w > 0,
        Rat::from_int(0).le_rat(p),
        p.le_rat(Rat::from_int(w)),
    ensures
        ndc_x(p, w).wf(),
        Rat::from_int(-1).le_rat(ndc_x(p, w)),
        ndc_x(p, w).le_rat(Rat::from_int(1)),
        p.is_int(0) ==> ndc_x(p, w).is_int(-1),
        p.is_int(w) ==> ndc_x(p, w).is_int(1),
{
    assert(0 < w * p.den) by (nonlinear_arith)
        requires
            0 < w,
            0 < p.den,
    ;
}

/// For a pixel row inside the viewport, the normalized device y
/// coordinate lies in `[-1, 1]`: `0` maps exactly to `1` and the full
/// height maps exactly to `-1` (the y axis is flipped).
pub proof fn lemma_ndc_y_in_range(p: Rat, h: int)
    requires
        p.wf(),
        h > 0,
        Rat::from_int(0).le_rat(p),
        p.le_rat(Rat::from_int(h)),
    ensures
        ndc_y(p, h).wf(),
        Rat::from_int(-1).le_rat(ndc_y(p, h)),
        ndc_y(p, h).le_rat(Rat::from_int(1)),
        p.is_int(0) ==> ndc_y(p, h).is_int(1),
        p.is_int(h) ==> ndc_y(p, h).is_int(-1),
{
    assert(0 < h * p.den) by (nonlinear_arith)
        requires
            0 < h,
            0 < p.den,
    ;
}

} // verus!
