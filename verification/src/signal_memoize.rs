//! A view memoized on the version of a signal that the view owns.
use core::marker::PhantomData;
use vstd::prelude::*;

use auralis_signal::Signal;
use crate::message::MessageOutcome;

use crate::foreign::signals_shared;
use crate::tracking::{
    rebuild_due, tracking_after_build, tracking_after_check, tracking_after_message, check_versions,
    Tracking,
};

verus! {

/// A view that memoizes on `Signal::version()` instead of on equality of its
/// data: the caller owns the signal, every `set` on it bumps the version,
/// and a frame rebuilds the inner view only when the version moved, the
/// signal was replaced by another, or a child asked for it.
#[verifier::reject_recursive_types(Data)]
pub struct SignalMemoize<V, ViewFn, Data, State, Action, Context> {
    signal: Signal<Data>,
    view_fn: ViewFn,
    phantom: PhantomData<(V, State, Action, Context)>,
}

/// Creates a [`SignalMemoize`] from the signal it watches and the function
/// that builds the inner view from that signal.
pub fn signal_memoize<Data, V, ViewFn, State, Action, Context>(
    signal: Signal<Data>,
    view_fn: ViewFn,
) -> (r: SignalMemoize<V, ViewFn, Data, State, Action, Context>) where
    State: 'static,
    Data: 'static,
    ViewFn: Fn(&Signal<Data>) -> V + 'static,

    ensures
        r.watched() == signal,
        r.builder() == view_fn,
{
    SignalMemoize { signal, view_fn, phantom: PhantomData }
}

impl<V, ViewFn, Data, State, Action, Context> SignalMemoize<V, ViewFn, Data, State, Action, Context> {
    /// The signal this view watches.
    pub closed spec fn watched(&self) -> Signal<Data> {
        self.signal
    }

    /// The function that builds the inner view.
    pub closed spec fn builder(&self) -> ViewFn {
        self.view_fn
    }

    /// The signal this view watches.
    pub fn signal(&self) -> (r: &Signal<Data>)
        ensures
            *r == self.watched(),
    {
        &self.signal
    }

    /// The function that builds the inner view from the signal.
    pub fn view_fn(&self) -> (r: &ViewFn)
        ensures
            *r == self.builder(),
    {
        &self.view_fn
    }

    /// A frame's check, with `prev` the view of the last frame and
    /// `current_version` the version `self`'s signal reports now: whether
    /// the inner view has to be rebuilt.  The answer and the new record
    /// are those of [`SignalMemoizeState::check`], with the same signal
    /// exactly when the two views hold clones of one signal: a pending
    /// request, a replaced signal or a version other than the recorded one
    /// means a rebuild, and the request is consumed.
    pub fn begin_rebuild<VState>(
        &self,
        prev: &Self,
        state: &mut SignalMemoizeState<V, VState>,
        current_version: u64,
    ) -> (rebuild: bool)
        ensures
            final(state).view == old(state).view,
            final(state).view_state == old(state).view_state,
            old(state).dirty ==> rebuild,
            !final(state).dirty,
            rebuild == rebuild_due(old(state).tracking(), self.watched() == prev.watched(), current_version),
            final(state).tracking()
                == tracking_after_check(old(state).tracking(), self.watched() == prev.watched(), current_version),
    {
        let same_signal = signals_shared(&self.signal, &prev.signal);
        state.check(same_signal, current_version)
    }
}

/// The state a [`SignalMemoize`] keeps across frames.
pub struct SignalMemoizeState<V, VState> {
    /// The currently rendered view.
    pub view: V,
    /// The inner view's state.
    pub view_state: VState,
    /// Signal version at last rebuild.
    pub last_version: u64,
    /// Set when a child answered a message with a rebuild request.
    pub dirty: bool,
}

impl<V, VState> SignalMemoizeState<V, VState> {
    /// The change-detection record held in this state.
    pub open spec fn tracking(&self) -> Tracking {
        Tracking { last_version: self.last_version, dirty: self.dirty }
    }

    /// The state right after `view` was built into `view_state` from a
    /// signal at `version`.
    pub fn new(view: V, view_state: VState, version: u64) -> (r: Self)
        ensures
            r.view == view,
            r.view_state == view_state,
            r.tracking() == tracking_after_build(version),
    {
        SignalMemoizeState { view, view_state, last_version: version, dirty: false }
    }

    /// Stores `view` as the rendered view, once the inner view state was
    /// rebuilt from it.
    pub fn set_view(&mut self, view: V)
        ensures
            final(self).view == view,
            final(self).view_state == old(self).view_state,
            final(self).tracking() == old(self).tracking(),
    {
        self.view = view;
    }

    /// A frame's check on this record, given whether the view still reads
    /// the same signal and that signal's current version: a replaced
    /// signal always means a rebuild, the pending request is consumed, and
    /// the result says whether to rebuild the inner view.
    pub fn check(&mut self, same_signal: bool, current_version: u64) -> (rebuild: bool)
        ensures
            rebuild == rebuild_due(old(self).tracking(), same_signal, current_version),
            final(self).tracking() == tracking_after_check(old(self).tracking(), same_signal, current_version),
            final(self).view == old(self).view,
            final(self).view_state == old(self).view_state,
    {
        let (version, rebuild) = check_versions(self.last_version, self.dirty, same_signal, current_version);
        self.last_version = version;
        self.dirty = false;
        rebuild
    }

    /// Records a child's answer to a message; `requested` is whether it
    /// asked for a rebuild.
    pub fn note_answer(&mut self, requested: bool)
        ensures
            final(self).tracking() == tracking_after_message(old(self).tracking(), requested),
            final(self).view == old(self).view,
            final(self).view_state == old(self).view_state,
    {
        if requested {
            self.dirty = true;
        }
    }

    /// Records the child's answer `outcome` and hands it back unchanged: a
    /// `RequestRebuild` marks the state dirty, any other answer leaves the
    /// record as it was.
    pub fn record_message<A>(&mut self, outcome: MessageOutcome<A>) -> (r: MessageOutcome<A>)
        ensures
            r == outcome,
            final(self).view == old(self).view,
            final(self).view_state == old(self).view_state,
            final(self).tracking() == tracking_after_message(old(self).tracking(), outcome.asks_rebuild()),
    {
        let requested = outcome.requests_rebuild();
        self.note_answer(requested);
        outcome
    }
}

} // verus!
