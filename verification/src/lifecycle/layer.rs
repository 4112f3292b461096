//! The layer that puts handlers under observation.

use super::service::LifeCycle;
use vstd::prelude::*;

verus! {

/// What observes a handler, before there is a handler: a maker of
/// classifiers, the callbacks and the two body hooks.
#[derive(Clone, Debug)]
pub struct LifeCycleLayer<MC, CB, OBC, OES> {
    pub make_classifier: MC,
    pub callbacks: CB,
    pub on_body_chunk: OBC,
    pub on_exact_body_size: OES,
}

impl<MC, CB, OBC, OES> LifeCycleLayer<MC, CB, OBC, OES> {
    /// Creates a new `LifeCycleLayer`.
    pub fn new(make_classifier: MC, callbacks: CB, on_body_chunk: OBC, on_exact_body_size: OES) -> (layer:
        Self)
        ensures
            layer == (LifeCycleLayer { make_classifier, callbacks, on_body_chunk, on_exact_body_size }),
    {
        LifeCycleLayer { make_classifier, callbacks, on_body_chunk, on_exact_body_size }
    }

    /// Replaces the hook that sees every chunk.
    pub fn on_body_chunk(&mut self, on_body_chunk: OBC)
        ensures
            *final(self) == (LifeCycleLayer { on_body_chunk, ..*old(self) }),
    {
        self.on_body_chunk = on_body_chunk;
    }

    /// Replaces the hook that learns the exact size.
    pub fn on_exact_body_size(&mut self, on_exact_body_size: OES)
        ensures
            *final(self) == (LifeCycleLayer { on_exact_body_size, ..*old(self) }),
    {
        self.on_exact_body_size = on_exact_body_size;
    }

    /// Puts `inner` under observation: the service holds `inner` and a copy
    /// of everything that the layer holds.
    pub fn layer<S>(&self, inner: S) -> (service: LifeCycle<S, MC, CB, OBC, OES>) where
        MC: Clone,
        CB: Clone,
        OBC: Clone,
        OES: Clone,

        ensures
            service.inner == inner,
            cloned(self.make_classifier, service.make_classifier),
            cloned(self.callbacks, service.callbacks),
            cloned(self.on_body_chunk, service.on_body_chunk),
            cloned(self.on_exact_body_size, service.on_exact_body_size),
    {
        LifeCycle {
            inner,
            make_classifier: self.make_classifier.clone(),
            callbacks: self.callbacks.clone(),
            on_body_chunk: self.on_body_chunk.clone(),
            on_exact_body_size: self.on_exact_body_size.clone(),
        }
    }
}

} // verus!
