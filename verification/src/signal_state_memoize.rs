//! A view memoized on the version of a signal kept in the application
//! state.
use core::marker::PhantomData;
use vstd::prelude::*;

use auralis_signal::Signal;
use crate::message::MessageOutcome;

use crate::tracking::{
    check_versions, rebuild_due, tracking_after_build, tracking_after_check, tracking_after_message,
    Tracking,
};

verus! {

/// A memoizing view that fetches a `Signal` from the application state
/// through a function.  The signal lives in the state, not in the view, and
/// `Signal::set` bumps the version with no counter to keep by hand.  This
/// is the verified description of the view; its type marker names the
/// other type parameters directly, so it is `Send + Sync` only when they
/// all are.  The copy handed to Xilem marks them through a function type
/// instead, and is `Send + Sync` whenever the two functions are.
pub struct SignalStateMemoize<V, GetSignal, ViewFn, Data, State, Action, Context> {
    get_signal: GetSignal,
    view_fn: ViewFn,
    phantom: PhantomData<(V, Data, State, Action, Context)>,
}

/// Creates a [`SignalStateMemoize`]: `get_signal` extracts the signal from
/// the state, and `view_fn` builds a view from it.
pub fn signal_state_memoize<GetSignal, ViewFn, Data, V, State, Action, Context>(
    get_signal: GetSignal,
    view_fn: ViewFn,
) -> (r: SignalStateMemoize<V, GetSignal, ViewFn, Data, State, Action, Context>) where
    State: 'static,
    Data: 'static,
    GetSignal: Fn(&State) -> Signal<Data> + Send + Sync + 'static,
    ViewFn: Fn(&Signal<Data>) -> V + Send + Sync + 'static,

    ensures
        r.parts() == (get_signal, view_fn),
{
    SignalStateMemoize { get_signal, view_fn, phantom: PhantomData }
}

impl<V, GetSignal, ViewFn, Data, State, Action, Context> SignalStateMemoize<
    V,
    GetSignal,
    ViewFn,
    Data,
    State,
    Action,
    Context,
> {
    /// The two functions this view was made from.
    pub closed spec fn parts(&self) -> (GetSignal, ViewFn) {
        (self.get_signal, self.view_fn)
    }

    /// Gives back the two functions this view was made from.
    pub fn into_parts(self) -> (r: (GetSignal, ViewFn))
        ensures
            r == self.parts(),
    {
        (self.get_signal, self.view_fn)
    }
}

/// The state a [`SignalStateMemoize`] keeps across frames.
pub struct SignalStateMemoizeState<V, VState> {
    /// The currently rendered view.
    pub view: V,
    /// The inner view's state.
    pub view_state: VState,
    /// Signal version at last rebuild.
    pub last_version: u64,
    /// Set when a child answered a message with a rebuild request.
    pub dirty: bool,
}

impl<V, VState> SignalStateMemoizeState<V, VState> {
    /// The change-detection record held in this state.
    pub open spec fn tracking(&self) -> Tracking {
        Tracking { last_version: self.last_version, dirty: self.dirty }
    }

    /// The state right after `view` was built into `view_state` from a
    /// signal at `version`.
    pub fn new(view: V, view_state: VState, version: u64) -> (r: Self)
        ensures
            r.view == view,
            r.view_state == view_state,
            r.tracking() == tracking_after_build(version),
    {
        SignalStateMemoizeState { view, view_state, last_version: version, dirty: false }
    }

    /// Stores `view` as the rendered view, once the inner view state was
    /// rebuilt from it.
    pub fn set_view(&mut self, view: V)
        ensures
            final(self).view == view,
            final(self).view_state == old(self).view_state,
            final(self).tracking() == old(self).tracking(),
    {
        self.view = view;
    }

    /// A frame's check on this record, given the version of the signal the
    /// state holds now: the pending request is consumed, and the result
    /// says whether to re-create the view.
    pub fn check(&mut self, current_version: u64) -> (rebuild: bool)
        ensures
            rebuild == rebuild_due(old(self).tracking(), true, current_version),
            final(self).tracking() == tracking_after_check(old(self).tracking(), true, current_version),
            final(self).view == old(self).view,
            final(self).view_state == old(self).view_state,
    {
        let (version, rebuild) = check_versions(self.last_version, self.dirty, true, current_version);
        self.last_version = version;
        self.dirty = false;
        rebuild
    }

    /// Records a child's answer to a message; `requested` is whether it
    /// asked for a rebuild.
    pub fn note_answer(&mut self, requested: bool)
        ensures
            final(self).tracking() == tracking_after_message(old(self).tracking(), requested),
            final(self).view == old(self).view,
            final(self).view_state == old(self).view_state,
    {
        if requested {
            self.dirty = true;
        }
    }

    /// Records the child's answer `outcome` and hands it back unchanged: a
    /// `RequestRebuild` marks the state dirty, any other answer leaves the
    /// record as it was.
    pub fn record_message<A>(&mut self, outcome: MessageOutcome<A>) -> (r: MessageOutcome<A>)
        ensures
            r == outcome,
            final(self).view == old(self).view,
            final(self).view_state == old(self).view_state,
            final(self).tracking() == tracking_after_message(old(self).tracking(), outcome.asks_rebuild()),
    {
        let requested = outcome.requests_rebuild();
        self.note_answer(requested);
        outcome
    }
}

} // verus!
