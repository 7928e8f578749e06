//! Frame coordination.
//!
//! [`Core`] owns the cursor tracker, the viewport, the camera and the
//! overlay bridge, and drives the per-tick frame decision through an
//! explicit state machine:
//!
//! ```text
//! Idle -> AwaitingRedraw -> Rendering -> { Presented | Reconfiguring
//!                                        | Degraded  | Terminating }
//! ```
//!
//! with every resolution state cycling back to `AwaitingRedraw` at the end
//! of the tick, except `Terminating`, which is absorbing. A render is
//! granted only from `AwaitingRedraw`, so a second redraw request can
//! never start a frame while one is in flight; a fatal backend outcome
//! moves the machine to `Terminating`, after which no redraw request is
//! ever granted again. Both guarantees are proved below over arbitrary
//! operation traces.

use vstd::prelude::*;
use crate::camera::{Camera, CameraEdit, CameraModel};
use crate::event::{AppStatus, FrameOutcome, WindowEvent};
use crate::frac::{Frac, Rat};
use crate::mouse::{Mouse, MouseModel};
use crate::ui::{OverlayOutput, ShortcutPresses, UI, UiState, signal_seq};
use crate::viewport::{ViewportModel, ViewportState};

verus! {

/// The coordinator's position in the per-tick frame cycle.
#[derive(Clone, Copy, Debug, PartialEq, Eq, Structural)]
pub enum Phase {
    /// Created, not yet driven by the event loop.
    Idle,
    /// Ready for the next redraw request.
    AwaitingRedraw,
    /// A frame has been handed to the rendering backend and has not
    /// resolved yet.
    Rendering,
    /// The frame reached the screen.
    Presented,
    /// The backend surface must be reconfigured before the next frame.
    Reconfiguring,
    /// The frame was skipped on a transient condition; the next tick
    /// retries naturally.
    Degraded,
    /// A fatal condition was reported; the host loop must exit. Absorbing.
    Terminating,
}

/// What the coordinator hands to the rendering backend when it grants a
/// frame: the screen descriptor of the surface to draw.
#[derive(Clone, Copy, Debug, PartialEq, Eq, Structural)]
pub struct FrameRequest {
    pub width: u32,
    pub height: u32,
    pub pixels_per_point: Frac,
}

/// What the host loop must do after a frame resolves.
#[derive(Clone, Copy, Debug, PartialEq, Eq, Structural)]
pub enum FrameAction {
    /// Nothing: the next redraw request proceeds normally.
    Continue,
    /// Reconfigure the backend surface to the given committed size before
    /// the next frame.
    Reconfigure { width: u32, height: u32 },
    /// Exit the host loop.
    Exit,
}

/// Mathematical view of a [`Core`].
pub ghost struct CoreModel {
    pub mouse: MouseModel,
    pub viewport: ViewportModel,
    pub camera: CameraModel,
    pub phase: Phase,
    pub pick_point: Option<(Rat, Rat)>,
    pub status: AppStatus,
}

/// One operation the host loop may drive the coordinator with; the
/// vocabulary of the trace laws below.
pub enum CoordOp {
    /// Activate the freshly created coordinator.
    Start,
    /// Dispatch one window event.
    Window(WindowEvent),
    /// Ask for a frame on a redraw request.
    BeginFrame,
    /// Resolve the frame in flight with the backend's outcome.
    CompleteFrame(FrameOutcome),
    /// Exchange state with the overlay.
    Overlay(Vec<CameraEdit>),
    /// Finish the tick, cycling a resolution back to `AwaitingRedraw`.
    EndTick,
}

impl CoreModel {
    /// The coordinator once the event loop first drives it.
    pub open spec fn after_start(self) -> CoreModel {
        if self.phase is Idle {
            CoreModel { phase: Phase::AwaitingRedraw, ..self }
        } else {
            self
        }
    }

    /// The coordinator after a resize or scale-factor event: a zero-area
    /// size is rejected with no state change at all; otherwise the
    /// viewport is replaced, the cursor's NDC position is renormalized,
    /// and the new aspect ratio is propagated to the camera.
    pub open spec fn after_resize(self, w: int, h: int, scale_factor: Rat) -> CoreModel {
        if w > 0 && h > 0 {
            CoreModel {
                viewport: ViewportModel { width: w, height: h, scale_factor },
                mouse: self.mouse.after_screen(w, h),
                camera: self.camera.with_aspect(w, h),
                ..self
            }
        } else {
            self
        }
    }

    /// The coordinator after a primary-button edge: the edge is recorded,
    /// and a press commits the cursor's current NDC position as the
    /// scene-facing pick point.
    pub open spec fn after_primary_button(self, pressed: bool) -> CoreModel {
        CoreModel {
            mouse: self.mouse.after_button(pressed),
            pick_point: if pressed {
                Some(self.mouse.pos_ndc)
            } else {
                self.pick_point
            },
            ..self
        }
    }

    /// The coordinator after one window event. Cursor moves and button
    /// edges update the tracker, resizes update viewport and camera, a
    /// close request moves to `Terminating`; the phase is untouched by
    /// everything else, and unrecognized events are no-ops.
    pub open spec fn after_window_event(self, event: WindowEvent) -> CoreModel {
        match event {
            WindowEvent::CursorMoved { x, y } => CoreModel {
                mouse: self.mouse.after_move(x@, y@),
                ..self
            },
            WindowEvent::MouseInput { button, pressed } => if button is Left {
                self.after_primary_button(pressed)
            } else {
                self
            },
            WindowEvent::Resized { width, height, scale_factor } => self.after_resize(
                width as int,
                height as int,
                scale_factor@,
            ),
            WindowEvent::ScaleFactorChanged { width, height, scale_factor } => self.after_resize(
                width as int,
                height as int,
                scale_factor@,
            ),
            WindowEvent::CloseRequested => CoreModel { phase: Phase::Terminating, ..self },
            WindowEvent::Unrecognized => self,
        }
    }

    /// The coordinator after a redraw request: a frame is granted only
    /// from `AwaitingRedraw`; any other phase leaves the request ungranted
    /// and the state unchanged.
    pub open spec fn after_begin(self) -> CoreModel {
        if self.phase is AwaitingRedraw {
            CoreModel { phase: Phase::Rendering, ..self }
        } else {
            self
        }
    }

    /// The resolution each backend outcome maps the frame in flight to.
    pub open spec fn resolved_phase(outcome: FrameOutcome) -> Phase {
        match outcome {
            FrameOutcome::Presented => Phase::Presented,
            FrameOutcome::NeedsReconfigure => Phase::Reconfiguring,
            FrameOutcome::Transient(_) => Phase::Degraded,
            FrameOutcome::Fatal(_) => Phase::Terminating,
        }
    }

    /// The coordinator after the frame in flight resolves; without a
    /// frame in flight the outcome is ignored.
    pub open spec fn after_complete(self, outcome: FrameOutcome) -> CoreModel {
        if self.phase is Rendering {
            CoreModel { phase: Self::resolved_phase(outcome), ..self }
        } else {
            self
        }
    }

    /// The coordinator after one overlay exchange: the overlay's camera
    /// edits are committed; nothing else moves.
    pub open spec fn after_overlay(self, edits: Seq<CameraEdit>) -> CoreModel {
        CoreModel { camera: self.camera.after_edits(edits), ..self }
    }

    /// The coordinator at the end of a tick: a resolved frame cycles back
    /// to `AwaitingRedraw` and the consumed button edges are cleared;
    /// `Terminating` (and any unresolved phase) stays put.
    pub open spec fn after_end_tick(self) -> CoreModel {
        if self.phase is Presented || self.phase is Reconfiguring || self.phase is Degraded {
            CoreModel { phase: Phase::AwaitingRedraw, mouse: self.mouse.after_clear(), ..self }
        } else {
            self
        }
    }

    /// The transition function of the coordinator: every exported mutating
    /// operation is one case.
    pub open spec fn step(self, op: CoordOp) -> CoreModel {
        match op {
            CoordOp::Start => self.after_start(),
            CoordOp::Window(event) => self.after_window_event(event),
            CoordOp::BeginFrame => self.after_begin(),
            CoordOp::CompleteFrame(outcome) => self.after_complete(outcome),
            CoordOp::Overlay(edits) => self.after_overlay(edits@),
            CoordOp::EndTick => self.after_end_tick(),
        }
    }
}

/// The state after the first `k` operations of `ops` have been applied
/// to `m`.
pub open spec fn run(m: CoreModel, ops: Seq<CoordOp>, k: int) -> CoreModel
    recommends
        0 <= k <= ops.len(),
    decreases k,
{
    if k <= 0 {
        m
    } else {
        run(m, ops, k - 1).step(ops[k - 1])
    }
}

/// The operation starts a render: the machine was not in `Rendering`
/// and is afterwards.
pub open spec fn enters_rendering(m: CoreModel, op: CoordOp) -> bool {
    !(m.phase is Rendering) && m.step(op).phase is Rendering
}

/// Frame coordinator: owns the cursor tracker, viewport, camera and
/// overlay bridge, and the frame state machine that decides, tick by
/// tick, whether to render, reconfigure, skip or terminate.
#[derive(Clone, Debug)]
pub struct Core {
    pub mouse: Mouse,
    pub viewport: ViewportState,
    pub camera: Camera,
    pub ui: UI,
    pub phase: Phase,
    pub pick_point: Option<(Frac, Frac)>,
    pub status: AppStatus,
}

impl View for Core {
    type V = CoreModel;

    open spec fn view(&self) -> CoreModel {
        CoreModel {
            mouse: self.mouse@,
            viewport: self.viewport@,
            camera: self.camera@,
            phase: self.phase,
            pick_point: match self.pick_point {
                Some(p) => Some((p.0@, p.1@)),
                None => None,
            },
            status: self.status,
        }
    }
}

impl Core {
    /// Every component is well-formed and the cursor tracker is
    /// normalized against the viewport's committed size.
    pub open spec fn wf(self) -> bool {
        &&& self.mouse.wf()
        &&& self.viewport.wf()
        &&& self.camera.wf()
        &&& self.mouse.screen.0 == self.viewport.width
        &&& self.mouse.screen.1 == self.viewport.height
    }

    /// A coordinator for a realized window of `width` by `height` pixels,
    /// in `Idle`, with the cursor tracker zeroed, no pick point, and the
    /// given camera and status line.
    pub fn new(width: u32, height: u32, scale_factor: Frac, camera: Camera, status: AppStatus) -> (r:
        Core)
        requires
            width > 0,
            height > 0,
            scale_factor.wf(),
            scale_factor.num > 0,
            camera.wf(),
        ensures
            r.wf(),
            r.phase is Idle,
            r.pick_point is None,
            r.camera == camera,
            r.status == status,
            r.viewport == (ViewportState { width, height, scale_factor }),
            r.mouse@.pos_viewport == (Rat::from_int(0), Rat::from_int(0)),
            r.mouse@.screen == (width as int, height as int),
            !r.mouse.pressed,
            !r.mouse.released,
    {
        Core {
            mouse: Mouse::new(width, height),
            viewport: ViewportState::new(width, height, scale_factor),
            camera,
            ui: UI::new(),
            phase: Phase::Idle,
            pick_point: None,
            status,
        }
    }

    /// Activates the coordinator: the first drive of the event loop moves
    /// it from `Idle` to `AwaitingRedraw`.
    pub fn start(&mut self)
        requires
            old(self).wf(),
        ensures
            final(self).wf(),
            final(self)@ == old(self)@.after_start(),
    {
        match self.phase {
            Phase::Idle => {
                self.phase = Phase::AwaitingRedraw;
            },
            _ => {},
        }
    }

    /// Commits a resize: rejects a zero-area size with no state change;
    /// otherwise replaces the viewport, renormalizes the cursor's NDC
    /// position, and propagates the exact aspect ratio `width / height`
    /// to the camera.
    pub fn resize(&mut self, width: u32, height: u32, scale_factor: Frac) -> (accepted: bool)
        requires
            old(self).wf(),
            scale_factor.wf(),
            scale_factor.num > 0,
        ensures
            final(self).wf(),
            accepted == (width > 0 && height > 0),
            final(self)@ == old(self)@.after_resize(width as int, height as int, scale_factor@),
            !accepted ==> *final(self) == *old(self),
            accepted ==> final(self).camera.aspect.num == width as i64
                && final(self).camera.aspect.den == height as i64,
    {
        let accepted = self.viewport.resize(width, height, scale_factor);
        if accepted {
            self.mouse.set_screen(width, height);
            self.camera.set_aspect(width, height);
        }
        accepted
    }

    /// Dispatches one window event and reports whether its kind is one
    /// the coordinator consumes.
    pub fn handle_window_event(&mut self, event: &WindowEvent) -> (handled: bool)
        requires
            old(self).wf(),
            event matches WindowEvent::CursorMoved { x, y } ==> x.coord_bounded()
                && y.coord_bounded(),
            event matches WindowEvent::Resized { scale_factor, .. } ==> scale_factor.wf()
                && scale_factor.num > 0,
            event matches WindowEvent::ScaleFactorChanged { scale_factor, .. } ==> scale_factor.wf()
                && scale_factor.num > 0,
        ensures
            final(self).wf(),
            final(self)@ == old(self)@.after_window_event(*event),
            handled == !(event is Unrecognized),
    {
        match event {
            WindowEvent::CursorMoved { x, y } => {
                let xv = *x;
                let yv = *y;
                self.mouse.update_from_viewport(xv, yv);
                true
            },
            WindowEvent::MouseInput { button, pressed } => {
                match button {
                    crate::event::MouseButton::Left => {
                        self.handle_mouse_input(*pressed);
                    },
                    _ => {},
                }
                true
            },
            WindowEvent::Resized { width, height, scale_factor } => {
                self.resize(*width, *height, *scale_factor);
                true
            },
            WindowEvent::ScaleFactorChanged { width, height, scale_factor } => {
                self.resize(*width, *height, *scale_factor);
                true
            },
            WindowEvent::CloseRequested => {
                self.phase = Phase::Terminating;
                true
            },
            WindowEvent::Unrecognized => false,
        }
    }

    /// Records a primary-button edge; a press commits the cursor's
    /// current NDC position as the pick point.
    pub fn handle_mouse_input(&mut self, pressed: bool)
        requires
            old(self).wf(),
        ensures
            final(self).wf(),
            final(self)@ == old(self)@.after_primary_button(pressed),
    {
        self.mouse.set_button_edge(pressed);
        if pressed {
            self.pick_point = Some(self.mouse.pos_ndc());
        }
    }

    /// Answers a redraw request: grants a frame — with the screen
    /// descriptor of the committed viewport — only from `AwaitingRedraw`,
    /// and refuses it, leaving the coordinator untouched, from every
    /// other phase. In particular a request during `Rendering` or after
    /// `Terminating` is never granted.
    pub fn begin_frame(&mut self) -> (req: Option<FrameRequest>)
        requires
            old(self).wf(),
        ensures
            final(self).wf(),
            final(self)@ == old(self)@.after_begin(),
            req is Some <==> old(self).phase is AwaitingRedraw,
            old(self).phase is AwaitingRedraw ==> req == Some(
                FrameRequest {
                    width: old(self).viewport.width,
                    height: old(self).viewport.height,
                    pixels_per_point: old(self).viewport.scale_factor,
                },
            ),
            !(old(self).phase is AwaitingRedraw) ==> *final(self) == *old(self),
    {
        match self.phase {
            Phase::AwaitingRedraw => {
                self.phase = Phase::Rendering;
                Some(
                    FrameRequest {
                        width: self.viewport.width,
                        height: self.viewport.height,
                        pixels_per_point: self.viewport.scale_factor,
                    },
                )
            },
            _ => None,
        }
    }

    /// Resolves the frame in flight with the backend's classified
    /// outcome and says what the host must do: a presented frame and a
    /// transient skip just continue; a reconfigure demand returns the
    /// last committed viewport size for the backend resize within this
    /// same tick; a fatal outcome moves to `Terminating` and tells the
    /// host to exit. Without a frame in flight the outcome is ignored.
    pub fn complete_frame(&mut self, outcome: FrameOutcome) -> (act: FrameAction)
        requires
            old(self).wf(),
        ensures
            final(self).wf(),
            final(self)@ == old(self)@.after_complete(outcome),
            old(self).phase is Rendering ==> act == (match outcome {
                FrameOutcome::Presented => FrameAction::Continue,
                FrameOutcome::NeedsReconfigure => FrameAction::Reconfigure {
                    width: old(self).viewport.width,
                    height: old(self).viewport.height,
                },
                FrameOutcome::Transient(_) => FrameAction::Continue,
                FrameOutcome::Fatal(_) => FrameAction::Exit,
            }),
            old(self).phase is Rendering && outcome is Fatal ==> final(self).phase is Terminating,
            !(old(self).phase is Rendering) ==> *final(self) == *old(self) && act
                == FrameAction::Continue,
    {
        match self.phase {
            Phase::Rendering => {
                match outcome {
                    FrameOutcome::Presented => {
                        self.phase = Phase::Presented;
                        FrameAction::Continue
                    },
                    FrameOutcome::NeedsReconfigure => {
                        self.phase = Phase::Reconfiguring;
                        FrameAction::Reconfigure {
                            width: self.viewport.width,
                            height: self.viewport.height,
                        }
                    },
                    FrameOutcome::Transient(_) => {
                        self.phase = Phase::Degraded;
                        FrameAction::Continue
                    },
                    FrameOutcome::Fatal(_) => {
                        self.phase = Phase::Terminating;
                        FrameAction::Exit
                    },
                }
            },
            _ => FrameAction::Continue,
        }
    }

    /// One overlay exchange: fires the matched shortcuts' signals and
    /// commits the overlay's camera edits; everything else, the phase
    /// included, stays put.
    pub fn prepare_overlay(&mut self, presses: &ShortcutPresses, edits: &Vec<CameraEdit>) -> (out:
        OverlayOutput)
        requires
            old(self).wf(),
            forall|k: int| 0 <= k < edits@.len() ==> edits@[k].wf(),
        ensures
            final(self).wf(),
            final(self)@ == old(self)@.after_overlay(edits@),
            out.signals@ == signal_seq(*presses),
    {
        let mut state = UiState { is_paused: false, status: self.status.clone() };
        let ui = self.ui;
        ui.prepare(presses, &mut state, &mut self.camera, edits)
    }

    /// Ends the tick: a resolved frame cycles back to `AwaitingRedraw`
    /// and the button edges consumed by this tick are cleared;
    /// `Terminating` stays put, as does any phase with nothing resolved.
    pub fn end_tick(&mut self)
        requires
            old(self).wf(),
        ensures
            final(self).wf(),
            final(self)@ == old(self)@.after_end_tick(),
    {
        match self.phase {
            Phase::Presented | Phase::Reconfiguring | Phase::Degraded => {
                self.phase = Phase::AwaitingRedraw;
                self.mouse.clear_edges();
            },
            _ => {},
        }
    }

    /// Whether the coordinator has reached the absorbing `Terminating`
    /// phase and the host loop must exit.
    pub fn terminated(&self) -> (r: bool)
        ensures
            r == (self.phase is Terminating),
    {
        match self.phase {
            Phase::Terminating => true,
            _ => false,
        }
    }
}

/// A render can only be started by a redraw request finding the machine
/// in `AwaitingRedraw`; no other operation, from no other phase, enters
/// `Rendering`.
pub proof fn lemma_render_entry_only_from_awaiting(m: CoreModel, op: CoordOp)
    ensures
        enters_rendering(m, op) ==> m.phase is AwaitingRedraw && op is BeginFrame,
{
}

/// While a frame is in flight, no operation but its resolution (or a
/// close request, which terminates) moves the machine; in particular a
/// second redraw request is refused outright.
pub proof fn lemma_rendering_holds_until_resolution(m: CoreModel, op: CoordOp)
    requires
        m.phase is Rendering,
        !(op is CompleteFrame),
    ensures
        m.step(op).phase is Rendering || m.step(op).phase is Terminating,
{
}

/// `Terminating` is absorbing: no operation leaves it, and no operation
/// taken in it starts a render.
pub proof fn lemma_terminating_absorbing(m: CoreModel, op: CoordOp)
    requires
        m.phase is Terminating,
    ensures
        m.step(op).phase is Terminating,
        !enters_rendering(m, op),
{
}

/// Along any trace without a frame resolution, a machine that was
/// rendering is still rendering or has terminated.
proof fn lemma_rendering_persists(m: CoreModel, ops: Seq<CoordOp>, a: int, b: int)
    requires
        0 <= a <= b <= ops.len(),
        run(m, ops, a).phase is Rendering || run(m, ops, a).phase is Terminating,
        forall|k: int| a <= k < b ==> !(ops[k] is CompleteFrame),
    ensures
        run(m, ops, b).phase is Rendering || run(m, ops, b).phase is Terminating,
    decreases b - a,
{
    if a < b {
        let prev = run(m, ops, b - 1);
        lemma_rendering_persists(m, ops, a, b - 1);
        if prev.phase is Rendering {
            lemma_rendering_holds_until_resolution(prev, ops[b - 1]);
        } else {
            lemma_terminating_absorbing(prev, ops[b - 1]);
        }
    }
}

/// The machine never enters `Rendering` twice without an intervening
/// frame resolution: between any two operations that start a render
/// there is a `CompleteFrame`, i.e. no render call is re-entrant.
pub proof fn lemma_no_reentrant_render(m: CoreModel, ops: Seq<CoordOp>, i: int, j: int)
    requires
        0 <= i < j < ops.len(),
        enters_rendering(run(m, ops, i), ops[i]),
        enters_rendering(run(m, ops, j), ops[j]),
    ensures
        exists|k: int| i < k < j && ops[k] is CompleteFrame,
{
    if forall|k: int| i < k < j ==> !(ops[k] is CompleteFrame) {
        assert(run(m, ops, i + 1).phase is Rendering);
        lemma_rendering_persists(m, ops, i + 1, j);
        assert(!enters_rendering(run(m, ops, j), ops[j])) by {
            let mj = run(m, ops, j);
            if mj.phase is Terminating {
                lemma_terminating_absorbing(mj, ops[j]);
            }
        }
        assert(false);
    } else {
        assert(exists|k: int| i < k < j && ops[k] is CompleteFrame);
    }
}

/// Once the machine has terminated it stays terminated, and no later
/// operation — no redraw request in particular — ever starts a render
/// again.
pub proof fn lemma_terminated_forever(m: CoreModel, ops: Seq<CoordOp>, i: int, j: int)
    requires
        0 <= i <= j <= ops.len(),
        run(m, ops, i).phase is Terminating,
    ensures
        run(m, ops, j).phase is Terminating,
        forall|k: int| i <= k < j ==> !enters_rendering(run(m, ops, k), ops[k]),
    decreases j - i,
{
    if i < j {
        lemma_terminating_absorbing(run(m, ops, i), ops[i]);
        lemma_terminated_forever(m, ops, i + 1, j);
        assert forall|k: int| i <= k < j implies !enters_rendering(run(m, ops, k), ops[k]) by {
            if k == i {
                lemma_terminating_absorbing(run(m, ops, i), ops[i]);
            }
        }
    }
}

} // verus!
