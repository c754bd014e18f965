//! Shared ownership of a loaded model between its handles and its decode states.
//!
//! `M` owns the engine's model resource and releases it when dropped; `S`
//! owns one per-session resource. A context shares its model through a
//! reference count, and every state derived from it holds a share of its own,
//! so the model is released only once the last context handle and the last
//! state are gone. A state's own resource is released when the state is.
use vstd::prelude::*;
use std::sync::Arc;

use crate::session::{DecodePhase, DecodeTracker};

verus! {

/// A loaded model, shareable across decode states.
pub struct WhisperContext<M> {
    ctx: Arc<M>,
}

/// One decode session on a shared model.
pub struct WhisperState<M, S> {
    ctx: Arc<M>,
    session: S,
    tracker: DecodeTracker,
}

impl<M> WhisperContext<M> {
    /// The model this handle shares.
    pub closed spec fn model(&self) -> M {
        *self.ctx
    }

    /// Takes ownership of a freshly loaded model.
    pub fn new(model: M) -> (r: Self)
        ensures
            r.model() == model,
    {
        WhisperContext { ctx: Arc::new(model) }
    }

    /// Another handle on the same model.
    pub fn share(&self) -> (r: Self)
        ensures
            r.model() == self.model(),
    {
        WhisperContext { ctx: self.ctx.clone() }
    }

    /// The shared model.
    pub fn inner(&self) -> (r: &M)
        ensures
            *r == self.model(),
    {
        &*self.ctx
    }

    /// A new decode state on this model, owning `session`.
    pub fn create_state<S>(&self, session: S) -> (r: WhisperState<M, S>)
        ensures
            r.model() == self.model(),
            r.session() == session,
            r.tracker().phase == DecodePhase::Empty,
    {
        WhisperState { ctx: self.ctx.clone(), session, tracker: DecodeTracker::new() }
    }
}

impl<M, S> WhisperState<M, S> {
    /// The model this state decodes with.
    pub closed spec fn model(&self) -> M {
        *self.ctx
    }

    /// The state's own session resource.
    pub closed spec fn session(&self) -> S {
        self.session
    }

    /// Where the session stands in the decode pipeline.
    pub closed spec fn tracker(&self) -> DecodeTracker {
        self.tracker
    }

    /// The phase tracker, to check and record the session's calls; the model
    /// and the session resource stay as they are.
    pub fn tracker_mut(&mut self) -> (r: &mut DecodeTracker)
        ensures
            *r == old(self).tracker(),
            final(self).tracker() == *final(r),
            final(self).model() == old(self).model(),
            final(self).session() == old(self).session(),
    {
        &mut self.tracker
    }

    /// The phase tracker.
    pub fn tracker_ref(&self) -> (r: &DecodeTracker)
        ensures
            *r == self.tracker(),
    {
        &self.tracker
    }

    /// The shared model.
    pub fn model_ref(&self) -> (r: &M)
        ensures
            *r == self.model(),
    {
        &*self.ctx
    }

    /// The session resource.
    pub fn session_ref(&self) -> (r: &S)
        ensures
            *r == self.session(),
    {
        &self.session
    }
}

} // verus!
