//! The entry of the lifecycle: it receives a request and fires `prepare`.

use super::future::ResponseFuture;
use super::layer::LifeCycleLayer;
use super::Callbacks;
use crate::message::RequestHead;
use crate::metric::{MetricEvent, MetricEventView};
use vstd::prelude::*;

verus! {

/// A handler together with what observes it: a maker of classifiers, the
/// callbacks and the two body hooks.
///
/// The handler and the maker of classifiers are the host's. They are kept
/// here and never looked into.
#[derive(Clone, Debug)]
pub struct LifeCycle<S, MC, CB, OBC, OES> {
    pub inner: S,
    pub make_classifier: MC,
    pub callbacks: CB,
    pub on_body_chunk: OBC,
    pub on_exact_body_size: OES,
}

impl<S, MC, CB, OBC, OES> LifeCycle<S, MC, CB, OBC, OES> {
    /// Puts a handler under observation.
    pub fn new(
        inner: S,
        make_classifier: MC,
        callbacks: CB,
        on_body_chunk: OBC,
        on_exact_body_size: OES,
    ) -> (service: Self)
        ensures
            service == (LifeCycle { inner, make_classifier, callbacks, on_body_chunk, on_exact_body_size }),
    {
        LifeCycle { inner, make_classifier, callbacks, on_body_chunk, on_exact_body_size }
    }

    /// The layer that puts handlers under this observation.
    pub fn layer(make_classifier: MC, callbacks: CB, on_body_chunk: OBC, on_exact_body_size: OES) -> (layer:
        LifeCycleLayer<MC, CB, OBC, OES>)
        ensures
            layer == (LifeCycleLayer { make_classifier, callbacks, on_body_chunk, on_exact_body_size }),
    {
        LifeCycleLayer::new(make_classifier, callbacks, on_body_chunk, on_exact_body_size)
    }

    /// The handler.
    pub fn get_ref(&self) -> (inner: &S)
        ensures
            *inner == self.inner,
    {
        &self.inner
    }

    /// The handler, to change it. Nothing else changes.
    pub fn get_mut(&mut self) -> (inner: &mut S)
        ensures
            *inner == old(self).inner,
            *final(self) == (LifeCycle { inner: *final(inner), ..*old(self) }),
    {
        &mut self.inner
    }

    /// Gives the handler back.
    pub fn into_inner(self) -> (inner: S)
        ensures
            inner == self.inner,
    {
        self.inner
    }

    /// What the arrival of `request` does: `prepare` fires on the callbacks
    /// and leaves them as they are in `after`; `future` holds the state that
    /// `prepare` made, a copy of the callbacks as `prepare` left them and a
    /// copy of each body hook. `metrics` are the hook's.
    pub open spec fn received<FailureClass>(
        before: Self,
        request: RequestHead,
        after: Self,
        future: ResponseFuture<CB, OBC, OES, CB::Data>,
        metrics: Seq<MetricEventView>,
    ) -> bool where CB: Callbacks<FailureClass> + Clone, OBC: Clone, OES: Clone {
        &&& future.is_pending()
        &&& CB::prepared(
            before.callbacks,
            request,
            after.callbacks,
            future.callbacks_data()->0,
            metrics,
        )
        &&& cloned(after.callbacks, future.callbacks()->0)
        &&& cloned(before.on_body_chunk, future.on_body_chunk()->0)
        &&& cloned(before.on_exact_body_size, future.on_exact_body_size()->0)
    }

    /// Receives a request: fires `prepare`, once, and hands back what waits
    /// for the handler's result.
    ///
    /// The host calls the handler and makes the classifier; neither is
    /// touched here.
    pub fn call<FailureClass>(&mut self, request: &RequestHead) -> (out: (
        ResponseFuture<CB, OBC, OES, CB::Data>,
        Vec<MetricEvent>,
    )) where CB: Callbacks<FailureClass> + Clone, OBC: Clone, OES: Clone
        ensures
            final(self).inner == old(self).inner,
            final(self).make_classifier == old(self).make_classifier,
            final(self).on_body_chunk == old(self).on_body_chunk,
            final(self).on_exact_body_size == old(self).on_exact_body_size,
            Self::received::<FailureClass>(*old(self), *request, *final(self), out.0, out.1.deep_view()),
    {
        let (callbacks_data, metrics) = self.callbacks.prepare(request);
        let future = ResponseFuture::new(
            self.callbacks.clone(),
            self.on_body_chunk.clone(),
            self.on_exact_body_size.clone(),
            callbacks_data,
        );
        (future, metrics)
    }
}

} // verus!
