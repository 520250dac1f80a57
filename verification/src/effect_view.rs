//! A view rebuilt whenever a dependency-tracking memo goes dirty.
use core::marker::PhantomData;
use vstd::prelude::*;

use auralis_signal::Memo;
use crate::message::MessageOutcome;

use crate::foreign::memo_is_dirty;

verus! {

/// A view that uses a `Memo<()>` as a dependency tracker: the memo reads
/// every signal whose change should rebuild the view, and when one of them
/// changes the memo turns dirty and the view re-runs `view_fn`.
pub struct EffectView<V, ViewFn, State, Action, Context> {
    tracker: Memo<()>,
    view_fn: ViewFn,
    phantom: PhantomData<(V, State, Action, Context)>,
}

/// Creates an [`EffectView`] from the tracking memo and the function that
/// builds the inner view.
pub fn effect_view<V, ViewFn, State, Action, Context>(
    tracker: Memo<()>,
    view_fn: ViewFn,
) -> (r: EffectView<V, ViewFn, State, Action, Context>) where
    State: 'static,
    ViewFn: Fn() -> V + 'static,

    ensures
        r.tracked_by() == tracker,
        r.builder() == view_fn,
{
    EffectView { tracker, view_fn, phantom: PhantomData }
}

/// Whether a frame rebuilds an effect view: a child asked for it, or the
/// tracker is dirty.
pub open spec fn effect_rebuild_due(dirty: bool, tracker_dirty: bool) -> bool {
    dirty || tracker_dirty
}

impl<V, ViewFn, State, Action, Context> EffectView<V, ViewFn, State, Action, Context> {
    /// The tracking memo.
    pub closed spec fn tracked_by(&self) -> Memo<()> {
        self.tracker
    }

    /// The function that builds the inner view.
    pub closed spec fn builder(&self) -> ViewFn {
        self.view_fn
    }

    /// The tracking memo.
    pub fn tracker(&self) -> (r: &Memo<()>)
        ensures
            *r == self.tracked_by(),
    {
        &self.tracker
    }

    /// The function that builds the inner view.
    pub fn view_fn(&self) -> (r: &ViewFn)
        ensures
            *r == self.builder(),
    {
        &self.view_fn
    }

    /// A frame's check: the view rebuilds when a child asked for it or the
    /// tracker is dirty.  The tracker is only asked when no request is
    /// pending; a pending request is consumed.  On a rebuild the caller
    /// reads the tracker again, to take the change and register its
    /// dependencies anew.
    pub fn begin_rebuild<VState>(&self, state: &mut EffectViewState<V, VState>) -> (rebuild: bool)
        ensures
            final(state).view == old(state).view,
            final(state).view_state == old(state).view_state,
            old(state).dirty ==> rebuild,
            !final(state).dirty,
    {
        let tracker_dirty = if state.dirty {
            false
        } else {
            memo_is_dirty(&self.tracker)
        };
        state.check(tracker_dirty)
    }
}

/// The state an [`EffectView`] keeps across frames.
pub struct EffectViewState<V, VState> {
    /// The currently rendered view.
    pub view: V,
    /// The inner view's state.
    pub view_state: VState,
    /// Set when a child answered a message with a rebuild request.
    pub dirty: bool,
}

impl<V, VState> EffectViewState<V, VState> {
    /// The state right after `view` was built into `view_state`.
    pub fn new(view: V, view_state: VState) -> (r: Self)
        ensures
            r.view == view,
            r.view_state == view_state,
            !r.dirty,
    {
        EffectViewState { view, view_state, dirty: false }
    }

    /// Stores `view` as the rendered view, once the inner view state was
    /// rebuilt from it.
    pub fn set_view(&mut self, view: V)
        ensures
            final(self).view == view,
            final(self).view_state == old(self).view_state,
            final(self).dirty == old(self).dirty,
    {
        self.view = view;
    }

    /// A frame's check given whether the tracker is dirty: the pending
    /// request is consumed, and the result says whether to rebuild.
    pub fn check(&mut self, tracker_dirty: bool) -> (rebuild: bool)
        ensures
            rebuild == effect_rebuild_due(old(self).dirty, tracker_dirty),
            !final(self).dirty,
            final(self).view == old(self).view,
            final(self).view_state == old(self).view_state,
    {
        let rebuild = self.dirty || tracker_dirty;
        self.dirty = false;
        rebuild
    }

    /// Records a child's answer to a message; `requested` is whether it
    /// asked for a rebuild.
    pub fn note_answer(&mut self, requested: bool)
        ensures
            final(self).dirty == (old(self).dirty || requested),
            final(self).view == old(self).view,
            final(self).view_state == old(self).view_state,
    {
        if requested {
            self.dirty = true;
        }
    }

    /// Records the child's answer `outcome` and hands it back unchanged: a
    /// `RequestRebuild` marks the state dirty, any other answer leaves it
    /// as it was.
    pub fn record_message<A>(&mut self, outcome: MessageOutcome<A>) -> (r: MessageOutcome<A>)
        ensures
            r == outcome,
            final(self).view == old(self).view,
            final(self).view_state == old(self).view_state,
            final(self).dirty == (old(self).dirty || outcome.asks_rebuild()),
    {
        let requested = outcome.requests_rebuild();
        self.note_answer(requested);
        outcome
    }
}

/// A pending request forces the next frame of an effect view to rebuild,
/// whatever the tracker says; without one, the frame rebuilds exactly when
/// the tracker is dirty.
pub proof fn lemma_effect_rebuild(dirty: bool, tracker_dirty: bool)
    ensures
        dirty ==> effect_rebuild_due(dirty, tracker_dirty),
        !dirty ==> (effect_rebuild_due(dirty, tracker_dirty) <==> tracker_dirty),
{
}

} // verus!
