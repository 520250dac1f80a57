//! A view memoized on a version counter that the application state keeps.
use core::marker::PhantomData;
use vstd::prelude::*;

use crate::message::MessageOutcome;

use crate::tracking::{
    check_versions, rebuild_due, tracking_after_build, tracking_after_check, tracking_after_message,
    Tracking,
};

verus! {

/// A memoizing view that reads its data and its version from the
/// application state through two functions; the caller bumps the version
/// alongside each change of the data.  This is the verified description of
/// the view; its type marker names the other type parameters directly, so
/// it is `Send + Sync` only when they all are.  The copy handed to Xilem
/// marks them through a function type instead, and is `Send + Sync`
/// whenever the three functions are.
pub struct StateMemoize<V, GetData, GetVersion, ViewFn, Data, State, Action, Context> {
    get_data: GetData,
    get_version: GetVersion,
    view_fn: ViewFn,
    phantom: PhantomData<(V, Data, State, Action, Context)>,
}

/// Creates a [`StateMemoize`]: `get_data` extracts the data from the state,
/// `get_version` its version, and `view_fn` builds a view from the data.
pub fn state_memoize<GetData, GetVersion, ViewFn, Data, V, State, Action, Context>(
    get_data: GetData,
    get_version: GetVersion,
    view_fn: ViewFn,
) -> (r: StateMemoize<V, GetData, GetVersion, ViewFn, Data, State, Action, Context>) where
    State: 'static,
    Data: 'static,
    GetData: Fn(&State) -> Data + Send + Sync + 'static,
    GetVersion: Fn(&State) -> u64 + Send + Sync + 'static,
    ViewFn: Fn(&Data) -> V + Send + Sync + 'static,

    ensures
        r.parts() == (get_data, get_version, view_fn),
{
    StateMemoize { get_data, get_version, view_fn, phantom: PhantomData }
}

impl<V, GetData, GetVersion, ViewFn, Data, State, Action, Context> StateMemoize<
    V,
    GetData,
    GetVersion,
    ViewFn,
    Data,
    State,
    Action,
    Context,
> {
    /// The three functions this view was made from.
    pub closed spec fn parts(&self) -> (GetData, GetVersion, ViewFn) {
        (self.get_data, self.get_version, self.view_fn)
    }

    /// Gives back the three functions this view was made from.
    pub fn into_parts(self) -> (r: (GetData, GetVersion, ViewFn))
        ensures
            r == self.parts(),
    {
        (self.get_data, self.get_version, self.view_fn)
    }
}

/// The state a [`StateMemoize`] keeps across frames.
pub struct StateMemoizeState<V, VState> {
    /// The currently rendered view.
    pub view: V,
    /// The inner view's state.
    pub view_state: VState,
    /// Version at last rebuild.
    pub last_version: u64,
    /// Set when a child answered a message with a rebuild request.
    pub dirty: bool,
}

impl<V, VState> StateMemoizeState<V, VState> {
    /// The change-detection record held in this state.
    pub open spec fn tracking(&self) -> Tracking {
        Tracking { last_version: self.last_version, dirty: self.dirty }
    }

    /// The state right after `view` was built into `view_state` from data
    /// at `version`.
    pub fn new(view: V, view_state: VState, version: u64) -> (r: Self)
        ensures
            r.view == view,
            r.view_state == view_state,
            r.tracking() == tracking_after_build(version),
    {
        StateMemoizeState { view, view_state, last_version: version, dirty: false }
    }

    /// Stores `view` as the rendered view, once the inner view state was
    /// rebuilt from it.
    pub fn set_view(&mut self, view: V)
        ensures
            final(self).view == view,
            final(self).view_state == old(self).view_state,
            final(self).tracking() == old(self).tracking(),
    {
        self.view = view;
    }

    /// A frame's check on this record, given the version the state reports
    /// now: the pending request is consumed, and the result says whether
    /// to re-create the view from the data.
    pub fn check(&mut self, current_version: u64) -> (rebuild: bool)
        ensures
            rebuild == rebuild_due(old(self).tracking(), true, current_version),
            final(self).tracking() == tracking_after_check(old(self).tracking(), true, current_version),
            final(self).view == old(self).view,
            final(self).view_state == old(self).view_state,
    {
        let (version, rebuild) = check_versions(self.last_version, self.dirty, true, current_version);
        self.last_version = version;
        self.dirty = false;
        rebuild
    }

    /// Records a child's answer to a message; `requested` is whether it
    /// asked for a rebuild.
    pub fn note_answer(&mut self, requested: bool)
        ensures
            final(self).tracking() == tracking_after_message(old(self).tracking(), requested),
            final(self).view == old(self).view,
            final(self).view_state == old(self).view_state,
    {
        if requested {
            self.dirty = true;
        }
    }

    /// Records the child's answer `outcome` and hands it back unchanged: a
    /// `RequestRebuild` marks the state dirty, any other answer leaves the
    /// record as it was.
    pub fn record_message<A>(&mut self, outcome: MessageOutcome<A>) -> (r: MessageOutcome<A>)
        ensures
            r == outcome,
            final(self).view == old(self).view,
            final(self).view_state == old(self).view_state,
            final(self).tracking() == tracking_after_message(old(self).tracking(), outcome.asks_rebuild()),
    {
        let requested = outcome.requests_rebuild();
        self.note_answer(requested);
        outcome
    }
}

} // verus!
