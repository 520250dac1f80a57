//! A wrapper that tells an inner view to rebuild when a signal changes.
use core::marker::PhantomData;
use vstd::prelude::*;

use auralis_signal::Signal;
use crate::message::MessageOutcome;

use crate::foreign::signals_shared;
use crate::tracking::{
    check_versions, rebuild_due, tracking_after_build, tracking_after_check, tracking_after_message,
    Tracking,
};

verus! {

/// Wraps a view and has it rebuilt whenever `signal` changes.  Unlike
/// [`SignalMemoize`](crate::SignalMemoize) it does not construct a new
/// inner view: the inner view already knows how to read the current state
/// and only needs to be told when to re-render.  As for `SignalMemoize`, a
/// frame whose view holds a different signal than the previous frame's
/// counts as a change and rebuilds, whatever version the new signal is at.
#[verifier::reject_recursive_types(Data)]
pub struct WatchSignal<V, Data, State, Action, Context> {
    signal: Signal<Data>,
    inner: V,
    phantom: PhantomData<(State, Action, Context)>,
}

/// Creates a [`WatchSignal`] that watches `signal` and wraps `inner`.
pub fn watch_signal<Data, V, State, Action, Context>(
    signal: Signal<Data>,
    inner: V,
) -> (r: WatchSignal<V, Data, State, Action, Context>) where
    State: 'static,
    Data: 'static,

    ensures
        r.watched() == signal,
        r.wrapped() == inner,
{
    WatchSignal { signal, inner, phantom: PhantomData }
}

impl<V, Data, State, Action, Context> WatchSignal<V, Data, State, Action, Context> {
    /// The signal this view watches.
    pub closed spec fn watched(&self) -> Signal<Data> {
        self.signal
    }

    /// The wrapped view.
    pub closed spec fn wrapped(&self) -> V {
        self.inner
    }

    /// The signal this view watches.
    pub fn signal(&self) -> (r: &Signal<Data>)
        ensures
            *r == self.watched(),
    {
        &self.signal
    }

    /// The wrapped view.
    pub fn inner(&self) -> (r: &V)
        ensures
            *r == self.wrapped(),
    {
        &self.inner
    }

    /// A frame's check, with `prev` the view of the last frame and
    /// `current_version` the version `self`'s signal reports now: whether
    /// the inner view has to be rebuilt.  The answer and the new record
    /// are those of [`WatchSignalState::check`], with the same signal
    /// exactly when the two views hold clones of one signal: a pending
    /// request, a replaced signal or a version other than the recorded one
    /// means a rebuild, and the request is consumed.
    pub fn begin_rebuild<VState>(
        &self,
        prev: &Self,
        state: &mut WatchSignalState<VState>,
        current_version: u64,
    ) -> (rebuild: bool)
        ensures
            final(state).inner_state == old(state).inner_state,
            old(state).dirty ==> rebuild,
            !final(state).dirty,
            rebuild == rebuild_due(old(state).tracking(), self.watched() == prev.watched(), current_version),
            final(state).tracking()
                == tracking_after_check(old(state).tracking(), self.watched() == prev.watched(), current_version),
    {
        let same_signal = signals_shared(&self.signal, &prev.signal);
        state.check(same_signal, current_version)
    }
}

/// The state a [`WatchSignal`] keeps across frames.
pub struct WatchSignalState<VState> {
    /// The inner view's state.
    pub inner_state: VState,
    /// Signal version at last rebuild.
    pub last_version: u64,
    /// Set when a child answered a message with a rebuild request.
    pub dirty: bool,
}

impl<VState> WatchSignalState<VState> {
    /// The change-detection record held in this state.
    pub open spec fn tracking(&self) -> Tracking {
        Tracking { last_version: self.last_version, dirty: self.dirty }
    }

    /// The state right after the inner view was built into `inner_state`
    /// with the signal at `version`.
    pub fn new(inner_state: VState, version: u64) -> (r: Self)
        ensures
            r.inner_state == inner_state,
            r.tracking() == tracking_after_build(version),
    {
        WatchSignalState { inner_state, last_version: version, dirty: false }
    }

    /// A frame's check on this record, given whether the view still reads
    /// the same signal and that signal's current version: a replaced
    /// signal always means a rebuild, the pending request is consumed, and
    /// the result says whether to rebuild the inner view.
    pub fn check(&mut self, same_signal: bool, current_version: u64) -> (rebuild: bool)
        ensures
            rebuild == rebuild_due(old(self).tracking(), same_signal, current_version),
            final(self).tracking() == tracking_after_check(old(self).tracking(), same_signal, current_version),
            final(self).inner_state == old(self).inner_state,
    {
        let (version, rebuild) = check_versions(self.last_version, self.dirty, same_signal, current_version);
        self.last_version = version;
        self.dirty = false;
        rebuild
    }

    /// Records a child's answer to a message; `requested` is whether it
    /// asked for a rebuild.
    pub fn note_answer(&mut self, requested: bool)
        ensures
            final(self).tracking() == tracking_after_message(old(self).tracking(), requested),
            final(self).inner_state == old(self).inner_state,
    {
        if requested {
            self.dirty = true;
        }
    }

    /// Records the child's answer `outcome` and hands it back unchanged: a
    /// `RequestRebuild` marks the state dirty, any other answer leaves the
    /// record as it was.
    pub fn record_message<A>(&mut self, outcome: MessageOutcome<A>) -> (r: MessageOutcome<A>)
        ensures
            r == outcome,
            final(self).inner_state == old(self).inner_state,
            final(self).tracking() == tracking_after_message(old(self).tracking(), outcome.asks_rebuild()),
    {
        let requested = outcome.requests_rebuild();
        self.note_answer(requested);
        outcome
    }
}

} // verus!
