//! The step between the handler and the body: it waits for the handler's
//! result and fires the hook that the result owes.

use super::body::ResponseBody;
use super::trace::{awaits_eos_from, completion_hook, Hook, Outcome};
use super::{Callbacks, ClassifiedResponse, FailedAt};
use crate::message::ResponseHead;
use crate::metric::{MetricEvent, MetricEventView};
use vstd::prelude::*;

verus! {

/// What the handler's future resolved to, with what the classifier said of
/// it.
#[derive(Debug)]
pub enum Polled<FailureClass, ClassifyEos> {
    /// A response, and the classification of its head, with the classifier
    /// of the end of the stream where the classification waits for it.
    Response { head: ResponseHead, classification: ClassifiedResponse<FailureClass, ClassifyEos> },
    /// An error, and its classification.
    Error { failure_classification: FailureClass },
}

impl<FailureClass, ClassifyEos> Polled<FailureClass, ClassifyEos> {
    /// The head of the response, where there is a response.
    pub open spec fn head(self) -> Option<ResponseHead> {
        match self {
            Polled::Response { head, .. } => Some(head),
            Polled::Error { .. } => None,
        }
    }

    /// The classification of the response, where there is a response.
    pub open spec fn classification(self) -> Option<ClassifiedResponse<FailureClass, ClassifyEos>> {
        match self {
            Polled::Response { classification, .. } => Some(classification),
            Polled::Error { .. } => None,
        }
    }

    /// The classification of the error, where there is an error.
    pub open spec fn failure_classification(self) -> Option<FailureClass> {
        match self {
            Polled::Response { .. } => None,
            Polled::Error { failure_classification } => Some(failure_classification),
        }
    }

    /// How the handler's future resolved.
    pub open spec fn outcome(self) -> Outcome {
        match self {
            Polled::Response { classification: ClassifiedResponse::Ready(_), .. } => Outcome::Ready,
            Polled::Response { classification: ClassifiedResponse::RequiresEos(_), .. } => Outcome::RequiresEos,
            Polled::Error { .. } => Outcome::Error,
        }
    }
}

/// What waits for the handler's result: the callbacks, the state of the
/// request and the two body hooks, until the result has come. They can be
/// taken once.
pub struct ResponseFuture<CB, OBC, OES, D> {
    callbacks: Option<CB>,
    on_body_chunk: Option<OBC>,
    on_exact_body_size: Option<OES>,
    callbacks_data: Option<D>,
}

impl<CB, OBC, OES, D> ResponseFuture<CB, OBC, OES, D> {
    /// The callbacks, until the result has come.
    pub closed spec fn callbacks(self) -> Option<CB> {
        self.callbacks
    }

    /// The hook that sees every chunk, until the result has come.
    pub closed spec fn on_body_chunk(self) -> Option<OBC> {
        self.on_body_chunk
    }

    /// The hook that learns the exact size, until the result has come.
    pub closed spec fn on_exact_body_size(self) -> Option<OES> {
        self.on_exact_body_size
    }

    /// The state of the request, until the result has come.
    pub closed spec fn callbacks_data(self) -> Option<D> {
        self.callbacks_data
    }

    /// Whether the handler's result is still to come.
    pub open spec fn is_pending(self) -> bool {
        &&& self.callbacks() is Some
        &&& self.on_body_chunk() is Some
        &&& self.on_exact_body_size() is Some
        &&& self.callbacks_data() is Some
    }

    /// Whether the handler's result has come and everything was given up.
    pub open spec fn is_completed(self) -> bool {
        &&& self.callbacks() is None
        &&& self.on_body_chunk() is None
        &&& self.on_exact_body_size() is None
        &&& self.callbacks_data() is None
    }

    /// Starts to wait for a handler's result.
    pub fn new(callbacks: CB, on_body_chunk: OBC, on_exact_body_size: OES, callbacks_data: D) -> (future: Self)
        ensures
            future.callbacks() == Some(callbacks),
            future.on_body_chunk() == Some(on_body_chunk),
            future.on_exact_body_size() == Some(on_exact_body_size),
            future.callbacks_data() == Some(callbacks_data),
            future.is_pending(),
    {
        ResponseFuture {
            callbacks: Some(callbacks),
            on_body_chunk: Some(on_body_chunk),
            on_exact_body_size: Some(on_exact_body_size),
            callbacks_data: Some(callbacks_data),
        }
    }

    /// Whether the handler's result is still to come.
    pub fn is_waiting(&self) -> (waiting: bool)
        ensures
            waiting == self.is_pending(),
    {
        self.callbacks.is_some() && self.on_body_chunk.is_some() && self.on_exact_body_size.is_some()
            && self.callbacks_data.is_some()
    }

    /// That `on_response` fired for the response of `polled` on the
    /// callbacks of `before`, with the classification as the hooks see it,
    /// and left `callbacks` behind; and that `body` wraps the response's
    /// body: it holds the state as the hook left it, the two body hooks and
    /// the response's `content-length`, and where the classification waits
    /// for the end of the stream, and only there, it holds the classifier
    /// of that end together with `callbacks`.
    pub open spec fn response_fired<FailureClass, C>(
        before: Self,
        polled: Polled<FailureClass, C>,
        callbacks: CB,
        body: ResponseBody<C, CB, OBC, OES, D>,
        metrics: Seq<MetricEventView>,
    ) -> bool where CB: Callbacks<FailureClass, Data = D> {
        &&& polled is Response
        &&& CB::responded(
            before.callbacks()->0,
            polled.head()->0,
            polled.classification()->0.erased(),
            before.callbacks_data()->0,
            callbacks,
            body.callbacks_data(),
            metrics,
        )
        &&& body.parts() == match polled.classification()->0.classify_eos() {
            Some(classify_eos) => Some((classify_eos, callbacks)),
            None => None,
        }
        &&& body.on_body_chunk() == before.on_body_chunk()->0
        &&& body.on_exact_body_size() == before.on_exact_body_size()->0
        &&& !body.exact_size_reported()
        &&& body.content_length() == match polled.head()->0.content_length {
            Some(bytes) => Some(bytes@),
            None => None,
        }
    }

    /// That `on_failure` fired for the error of `polled` on the callbacks of
    /// `before`, as a failure at `failed_at`, and left the state `data`
    /// behind.
    pub open spec fn failure_fired<FailureClass, C>(
        before: Self,
        polled: Polled<FailureClass, C>,
        failed_at: FailedAt,
        data: D,
        metrics: Seq<MetricEventView>,
    ) -> bool where CB: Callbacks<FailureClass, Data = D> {
        &&& polled is Error
        &&& CB::failed(
            before.callbacks()->0,
            failed_at,
            polled.failure_classification()->0,
            before.callbacks_data()->0,
            data,
            metrics,
        )
    }

    /// What the handler's result does: the hook that `completion_hook` names
    /// fires, and `metrics` are the hook's. With `on_response` a body wrapper
    /// comes back; with `on_failure`, which fires at the response, none does.
    pub open spec fn completed<FailureClass, C>(
        before: Self,
        polled: Polled<FailureClass, C>,
        body: Option<ResponseBody<C, CB, OBC, OES, D>>,
        metrics: Seq<MetricEventView>,
    ) -> bool where CB: Callbacks<FailureClass, Data = D> {
        match completion_hook(polled.outcome()) {
            Hook::OnResponse => exists|callbacks: CB, wrapper: ResponseBody<C, CB, OBC, OES, D>|
                body == Some(wrapper) && #[trigger] Self::response_fired(
                    before,
                    polled,
                    callbacks,
                    wrapper,
                    metrics,
                ),
            Hook::OnFailure(failed_at) => body is None && exists|data: D| #[trigger]
                Self::failure_fired(before, polled, failed_at, data, metrics),
            Hook::OnEos => false,
        }
    }

    /// Takes the handler's result.
    ///
    /// On an error, `on_failure` fires with `FailedAt::Response` and that is
    /// the end of the request: no body wrapper comes back. On a response,
    /// `on_response` fires and the wrapper of the response's body comes
    /// back. The wrapper owes a terminal hook if and only if the
    /// classification waits for the end of the stream, and then it holds
    /// the classifier of that end; in both cases it observes the chunks.
    ///
    /// The result can be taken once: the future must be waiting for it. The
    /// host hands the response or the error on to its caller as it came.
    pub fn poll<FailureClass, C>(&mut self, polled: Polled<FailureClass, C>) -> (out: (
        Option<ResponseBody<C, CB, OBC, OES, D>>,
        Vec<MetricEvent>,
    )) where CB: Callbacks<FailureClass, Data = D>
        requires
            old(self).is_pending(),
        ensures
            final(self).is_completed(),
            out.0 is Some <==> !(polled.outcome() is Error),
            out.0 matches Some(body) ==> body.awaits_eos() == awaits_eos_from(polled.outcome()),
            Self::completed(*old(self), polled, out.0, out.1.deep_view()),
    {
        let mut callbacks = self.callbacks.take().unwrap();
        let mut callbacks_data = self.callbacks_data.take().unwrap();
        let on_body_chunk = self.on_body_chunk.take().unwrap();
        let on_exact_body_size = self.on_exact_body_size.take().unwrap();

        match polled {
            Polled::Response { head, classification } => {
                let (seen, classify_eos) = classification.erase();
                let metrics = callbacks.on_response(&head, seen, &mut callbacks_data);
                let ghost fired_on = callbacks;
                let parts = match classify_eos {
                    Some(classify_eos) => Some((classify_eos, callbacks)),
                    None => None,
                };
                let body = ResponseBody::new(
                    parts,
                    callbacks_data,
                    on_body_chunk,
                    on_exact_body_size,
                    head.content_length,
                );
                proof {
                    assert(Self::response_fired(*old(self), polled, fired_on, body, metrics.deep_view()));
                }
                (Some(body), metrics)
            },
            Polled::Error { failure_classification } => {
                let metrics = callbacks.on_failure(
                    FailedAt::Response,
                    failure_classification,
                    &mut callbacks_data,
                );
                proof {
                    assert(Self::failure_fired(
                        *old(self),
                        polled,
                        FailedAt::Response,
                        callbacks_data,
                        metrics.deep_view(),
                    ));
                }
                (None, metrics)
            },
        }
    }
}

} // verus!
