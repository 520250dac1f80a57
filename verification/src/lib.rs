//! Signal-based change detection for retained views.
//!
//! Each memoizing view keeps, across frames, the version of its data that
//! it last rendered and a flag that a child may raise to ask for a rebuild.
//! The functions here decide, from that record and the current version,
//! whether a frame has to rebuild the inner view, and keep the record up to
//! date.  Running the inner views themselves is left to the caller.

mod foreign;

pub mod message;

pub mod effect_view;
pub mod signal_memoize;
pub mod signal_state_memoize;
pub mod state_memoize;
pub mod tracking;
pub mod watch_signal;

pub use message::MessageOutcome;
pub use effect_view::{effect_view, EffectView, EffectViewState};
pub use signal_memoize::{signal_memoize, SignalMemoize, SignalMemoizeState};
pub use signal_state_memoize::{
    signal_state_memoize, SignalStateMemoize, SignalStateMemoizeState,
};
pub use state_memoize::{state_memoize, StateMemoize, StateMemoizeState};
pub use watch_signal::{watch_signal, WatchSignal, WatchSignalState};
