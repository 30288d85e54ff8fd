//! Frame scheduling: at most one frame request in flight per surface.
//!
//! The interface engine may signal that it wants to repaint at any moment,
//! and from a call stack that the dispatch loop does not control. The
//! compositor wants one frame callback per frame. `FrameState` is the state
//! machine between the two, and `FrameScheduler` holds it in a flag that can
//! be shared with the engine's notification hook.
use std::sync::atomic::AtomicBool;
use std::sync::atomic::Ordering;
use std::sync::Arc;
use vstd::prelude::*;

verus! {

/// Whether a surface is waiting for a frame callback.
#[derive(Clone, Copy, Debug, PartialEq, Eq, Structural)]
pub enum FrameState {
    /// No frame callback is outstanding.
    Idle,
    /// A frame callback was registered with the compositor and has not been
    /// delivered yet.
    Requested,
}

/// What a repaint signal leads to.
#[derive(Clone, Copy, Debug, PartialEq, Eq, Structural)]
pub struct Signalled {
    /// The state that the signal found.
    pub found: FrameState,
    /// The state after the signal.
    pub state: FrameState,
    /// Whether a frame callback has to be registered with the compositor.
    pub register: bool,
}

impl FrameState {
    /// The state after a repaint signal: always `Requested`.
    pub open spec fn after_signal(self) -> FrameState {
        FrameState::Requested
    }

    /// Whether a repaint signal in this state registers a frame callback:
    /// only when none is outstanding.
    pub open spec fn registers(self) -> bool {
        self == FrameState::Idle
    }

    /// The state after `count` repaint signals in a row.
    pub open spec fn after_signals(self, count: nat) -> FrameState
        decreases count,
    {
        if count == 0 {
            self
        } else {
            self.after_signal().after_signals((count - 1) as nat)
        }
    }

    /// The number of frame callbacks that `count` repaint signals in a row
    /// register.
    pub open spec fn registrations(self, count: nat) -> nat
        decreases count,
    {
        if count == 0 {
            0
        } else {
            let first: nat = if self.registers() {
                1
            } else {
                0
            };
            first + self.after_signal().registrations((count - 1) as nat)
        }
    }

    /// The state after a draw or a teardown: always `Idle`.
    pub open spec fn after_draw(self) -> FrameState {
        FrameState::Idle
    }

    /// The state that a flag value stands for.
    pub open spec fn of_flag(requested: bool) -> FrameState {
        if requested {
            FrameState::Requested
        } else {
            FrameState::Idle
        }
    }

    /// The state that a flag value stands for.
    pub fn from_flag(requested: bool) -> (state: FrameState)
        ensures
            state == FrameState::of_flag(requested),
    {
        if requested {
            FrameState::Requested
        } else {
            FrameState::Idle
        }
    }

    /// The flag value that stands for the state.
    pub fn flag(self) -> (requested: bool)
        ensures
            requested == (self == FrameState::Requested),
            FrameState::of_flag(requested) == self,
    {
        match self {
            FrameState::Idle => false,
            FrameState::Requested => true,
        }
    }

    /// Takes a repaint signal. In `Idle` a frame callback has to be
    /// registered; in `Requested` the signal is dropped.
    pub fn signal(self) -> (outcome: Signalled)
        ensures
            outcome.found == self,
            outcome.state == self.after_signal(),
            outcome.register == self.registers(),
    {
        match self {
            FrameState::Idle => Signalled {
                found: FrameState::Idle,
                state: FrameState::Requested,
                register: true,
            },
            FrameState::Requested => Signalled {
                found: FrameState::Requested,
                state: FrameState::Requested,
                register: false,
            },
        }
    }

    /// Takes a draw, or the surface's teardown: no frame callback is
    /// outstanding afterwards.
    pub fn drawn(self) -> (state: FrameState)
        ensures
            state == self.after_draw(),
    {
        FrameState::Idle
    }
}

/// Repaint signals coalesce: however many arrive while a frame callback is
/// outstanding, none of them registers another one, and the callback stays
/// outstanding.
pub proof fn lemma_signals_coalesce(count: nat)
    ensures
        FrameState::Requested.registrations(count) == 0,
        FrameState::Requested.after_signals(count) == FrameState::Requested,
    decreases count,
{
    if count > 0 {
        lemma_signals_coalesce((count - 1) as nat);
    }
}

/// From any state, one signal or more leaves exactly one frame callback
/// outstanding: from `Idle` exactly one is registered, whatever the number
/// of signals, and from `Requested` the one that is already there stays the
/// only one.
pub proof fn lemma_one_frame_in_flight(state: FrameState, count: nat)
    requires
        count > 0,
    ensures
        state.after_signals(count) == FrameState::Requested,
        state == FrameState::Idle ==> state.registrations(count) == 1,
        state == FrameState::Requested ==> state.registrations(count) == 0,
{
    lemma_signals_coalesce((count - 1) as nat);
    lemma_signals_coalesce(count);
}

/// After a draw the next signal registers a frame callback again.
pub proof fn lemma_draw_rearms(state: FrameState)
    ensures
        state.after_draw().registers(),
        state.after_draw().after_signal() == FrameState::Requested,
{
}

/// A surface's frame state in a flag that the dispatch loop and the
/// interface engine's repaint hook share.
///
/// The flag is atomic, because the hook may run outside the dispatch loop's
/// call stack. Nothing is known statically about the value that a read of
/// it finds: what follows from each value is `FrameState`'s business.
pub struct FrameScheduler {
    requested: Arc<AtomicBool>,
}

impl FrameScheduler {
    /// A scheduler in the given state.
    pub fn new(state: FrameState) -> FrameScheduler {
        FrameScheduler { requested: Arc::new(AtomicBool::new(state.flag())) }
    }

    /// Another handle to the same flag: it is the scheduler that this one
    /// is, not a scheduler of its own.
    pub fn share(&self) -> (shared: FrameScheduler)
        ensures
            shared == *self,
    {
        FrameScheduler { requested: self.requested.clone() }
    }

    /// The state that the flag holds at this moment.
    pub fn state(&self) -> FrameState {
        FrameState::from_flag(self.requested.load(Ordering::Relaxed))
    }

    /// Takes a repaint signal from the interface engine.
    ///
    /// The outcome is that of `FrameState::signal` on the state found: only
    /// where no frame callback was outstanding does the caller have to
    /// register one with the compositor, and the flag is set so that signals
    /// that follow are dropped.
    pub fn request(&self) -> (outcome: Signalled)
        ensures
            outcome.state == outcome.found.after_signal(),
            outcome.register == outcome.found.registers(),
    {
        let outcome = self.state().signal();
        if outcome.register {
            self.requested.store(outcome.state.flag(), Ordering::Relaxed);
        }
        outcome
    }

    /// Records that the surface is being drawn or torn down: the next signal
    /// registers a frame callback again.
    pub fn clear(&self) {
        let state = self.state().drawn();
        self.requested.store(state.flag(), Ordering::Relaxed);
    }
}

/// What an embedder keeps of a registered surface: the means to end it.
///
/// The handle shares a flag with the surface's state. The flag is atomic,
/// because the embedder may raise it from outside the dispatch loop.
pub struct LayerAppHandle {
    exit: Arc<AtomicBool>,
}

impl LayerAppHandle {
    /// A handle whose flag is not raised.
    pub fn new() -> LayerAppHandle {
        LayerAppHandle { exit: Arc::new(AtomicBool::new(false)) }
    }

    /// Another handle to the same flag: it is the handle that this one is,
    /// not a handle of its own.
    pub fn share(&self) -> (shared: LayerAppHandle)
        ensures
            shared == *self,
    {
        LayerAppHandle { exit: self.exit.clone() }
    }

    /// Marks the surface for teardown. The surface goes away at its next
    /// frame callback, so the caller follows this with a repaint request to
    /// the interface engine, which wakes the surface up.
    pub fn exit(&self) {
        self.exit.store(true, Ordering::Relaxed);
    }

    /// Whether teardown has been asked for, at this moment.
    pub fn exit_requested(&self) -> bool {
        self.exit.load(Ordering::Relaxed)
    }
}

} // verus!
