//! Overlay bridge.
//!
//! [`UI::prepare`] is the per-tick exchange with the debug overlay: it
//! turns the shortcuts the overlay matched this tick into outgoing
//! application signals — each shortcut fires at most once per tick — and
//! commits the overlay's camera edits, which take effect immediately and
//! are visible to the next matrix derivation within the same tick. The
//! widget tree itself (layout, text fields, draw lists) lives with the
//! host; this bridge owns only the decisions.

use vstd::prelude::*;
use crate::camera::{Camera, CameraEdit};
use crate::event::{AppStatus, UserEvent};

verus! {

/// Which shortcuts the overlay matched (and consumed) this tick.
#[derive(Clone, Copy, Debug, PartialEq, Eq, Structural, Default)]
pub struct ShortcutPresses {
    pub app_quit: bool,
    pub file_new: bool,
    pub file_open: bool,
    pub file_save: bool,
    pub file_save_as: bool,
}

/// Per-frame state lent to the overlay for display.
#[derive(Clone, Debug, PartialEq, Eq)]
pub struct UiState {
    pub is_paused: bool,
    pub status: AppStatus,
}

/// What one overlay build hands back to the coordinator: the outgoing
/// application signals, in a fixed firing order.
#[derive(Clone, Debug, PartialEq, Eq)]
pub struct OverlayOutput {
    pub signals: Vec<UserEvent>,
}

/// Either a one-element sequence holding `e`, when the shortcut fired,
/// or the empty sequence.
pub open spec fn opt_sig(fire: bool, e: UserEvent) -> Seq<UserEvent> {
    if fire {
        seq![e]
    } else {
        Seq::empty()
    }
}

/// The signals one tick emits, in firing order: quit, new, open, save,
/// save-as — one per matched shortcut.
pub open spec fn signal_seq(p: ShortcutPresses) -> Seq<UserEvent> {
    opt_sig(p.app_quit, UserEvent::Quit) + opt_sig(p.file_new, UserEvent::NewFile) + opt_sig(
        p.file_open,
        UserEvent::OpenFile,
    ) + opt_sig(p.file_save, UserEvent::SaveFile) + opt_sig(p.file_save_as, UserEvent::SaveFileAs)
}

/// Whether the shortcut bound to signal `e` was matched this tick.
pub open spec fn shortcut_pressed(p: ShortcutPresses, e: UserEvent) -> bool {
    match e {
        UserEvent::Quit => p.app_quit,
        UserEvent::NewFile => p.file_new,
        UserEvent::OpenFile => p.file_open,
        UserEvent::SaveFile => p.file_save,
        UserEvent::SaveFileAs => p.file_save_as,
    }
}

/// How many times `e` occurs in `s`.
pub open spec fn count_sig(s: Seq<UserEvent>, e: UserEvent) -> nat
    decreases s.len(),
{
    if s.len() == 0 {
        0
    } else {
        count_sig(s.drop_last(), e) + if s.last() == e {
            1nat
        } else {
            0nat
        }
    }
}

/// Occurrence counting distributes over concatenation.
proof fn lemma_count_concat(a: Seq<UserEvent>, b: Seq<UserEvent>, e: UserEvent)
    ensures
        count_sig(a + b, e) == count_sig(a, e) + count_sig(b, e),
    decreases b.len(),
{
    if b.len() == 0 {
        assert(a + b =~= a);
    } else {
        assert((a + b).drop_last() =~= a + b.drop_last());
        lemma_count_concat(a, b.drop_last(), e);
    }
}

/// Counting occurrences in a possible single-signal sequence.
proof fn lemma_count_single(fire: bool, x: UserEvent, e: UserEvent)
    ensures
        count_sig(opt_sig(fire, x), e) == if fire && x == e {
            1nat
        } else {
            0nat
        },
{
    if fire {
        assert(opt_sig(fire, x).last() == x);
        assert(opt_sig(fire, x).drop_last().len() == 0);
        assert(count_sig(opt_sig(fire, x).drop_last(), e) == 0);
    }
}

/// Shortcut consumption is idempotent within a tick: a signal occurs in
/// the tick's output exactly once when its shortcut was matched, and not
/// at all otherwise — so each shortcut fires at most one signal.
pub proof fn lemma_signal_fires_at_most_once(p: ShortcutPresses, e: UserEvent)
    ensures
        count_sig(signal_seq(p), e) == if shortcut_pressed(p, e) {
            1nat
        } else {
            0nat
        },
{
    let s1 = opt_sig(p.app_quit, UserEvent::Quit);
    let s2 = opt_sig(p.file_new, UserEvent::NewFile);
    let s3 = opt_sig(p.file_open, UserEvent::OpenFile);
    let s4 = opt_sig(p.file_save, UserEvent::SaveFile);
    let s5 = opt_sig(p.file_save_as, UserEvent::SaveFileAs);
    lemma_count_concat(s1 + s2 + s3 + s4, s5, e);
    lemma_count_concat(s1 + s2 + s3, s4, e);
    lemma_count_concat(s1 + s2, s3, e);
    lemma_count_concat(s1, s2, e);
    lemma_count_single(p.app_quit, UserEvent::Quit, e);
    lemma_count_single(p.file_new, UserEvent::NewFile, e);
    lemma_count_single(p.file_open, UserEvent::OpenFile, e);
    lemma_count_single(p.file_save, UserEvent::SaveFile, e);
    lemma_count_single(p.file_save_as, UserEvent::SaveFileAs, e);
}

/// A signal is emitted exactly when its shortcut was matched.
pub proof fn lemma_signal_iff_pressed(p: ShortcutPresses, e: UserEvent)
    ensures
        signal_seq(p).contains(e) == shortcut_pressed(p, e),
{
    lemma_signal_fires_at_most_once(p, e);
    lemma_count_contains(signal_seq(p), e);
}

/// An element occurs in a sequence exactly when its count is positive.
proof fn lemma_count_contains(s: Seq<UserEvent>, e: UserEvent)
    ensures
        s.contains(e) == (count_sig(s, e) > 0),
    decreases s.len(),
{
    if s.len() == 0 {
    } else {
        lemma_count_contains(s.drop_last(), e);
        assert(s.contains(e) == (s.last() == e || s.drop_last().contains(e))) by {
            if s.contains(e) {
                let i = choose|i: int| 0 <= i < s.len() && s[i] == e;
                if i < s.len() - 1 {
                    assert(s.drop_last()[i] == e);
                }
            }
            if s.drop_last().contains(e) {
                let i = choose|i: int| 0 <= i < s.drop_last().len() && s.drop_last()[i] == e;
                assert(s[i] == e);
            }
        }
    }
}

/// The overlay bridge: stateless glue between the coordinator's mutable
/// state and the overlay widget tree.
#[derive(Clone, Copy, Debug)]
pub struct UI {
}

impl UI {
    /// Builds the bridge.
    pub fn new() -> (r: UI) {
        UI {  }
    }

    /// One overlay exchange: fires at most one signal per matched
    /// shortcut, in the fixed firing order, and applies the overlay's
    /// camera edits first to last, so a later edit of the same field
    /// wins. The display state is lent to the overlay and returned
    /// unchanged.
    pub fn prepare(
        &self,
        presses: &ShortcutPresses,
        state: &mut UiState,
        camera: &mut Camera,
        edits: &Vec<CameraEdit>,
    ) -> (out: OverlayOutput)
        requires
            old(camera).wf(),
            forall|k: int| 0 <= k < edits@.len() ==> edits@[k].wf(),
        ensures
            final(camera).wf(),
            final(camera)@ == old(camera)@.after_edits(edits@),
            *final(state) == *old(state),
            out.signals@ == signal_seq(*presses),
    {
        let mut signals: Vec<UserEvent> = Vec::new();
        if presses.app_quit {
            signals.push(UserEvent::Quit);
        }
        if presses.file_new {
            signals.push(UserEvent::NewFile);
        }
        if presses.file_open {
            signals.push(UserEvent::OpenFile);
        }
        if presses.file_save {
            signals.push(UserEvent::SaveFile);
        }
        if presses.file_save_as {
            signals.push(UserEvent::SaveFileAs);
        }
        proof {
            assert(signals@ =~= signal_seq(*presses));
        }
        let ghost cam0 = camera@;
        let mut i: usize = 0;
        while i < edits.len()
            invariant
                0 <= i <= edits@.len(),
                camera.wf(),
                forall|k: int| 0 <= k < edits@.len() ==> edits@[k].wf(),
                camera@ == cam0.after_edits(edits@.take(i as int)),
            decreases edits@.len() - i,
        {
            camera.apply_edit(&edits[i]);
            proof {
                assert(edits@.take(i as int + 1).drop_last() =~= edits@.take(i as int));
                assert(edits@.take(i as int + 1).last() == edits@[i as int]);
            }
            i = i + 1;
        }
        proof {
            assert(edits@.take(edits@.len() as int) =~= edits@);
        }
        OverlayOutput { signals }
    }
}

} // verus!
