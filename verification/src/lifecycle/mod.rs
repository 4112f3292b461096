//! The hooks of a request's lifecycle, and the machinery that fires them.
//!
//! A request passes three places. [`service::LifeCycle`] receives it and
//! fires `prepare`. [`future::ResponseFuture`] waits for the handler and fires
//! `on_response`, or `on_failure` where the handler failed. Where the
//! response's classification waits for the end of the stream,
//! [`body::ResponseBody`] holds the classifier of that end together with the
//! callbacks, and fires `on_eos` or `on_failure` when the body ends.
//!
//! A hook changes nothing outside the values it is given. What it wants
//! recorded it hands back as [`MetricEvent`]s.

pub mod body;
pub mod future;
pub mod layer;
pub mod service;
pub mod trace;

use crate::message::{RequestHead, ResponseHead, Trailers};
use crate::metric::{MetricEvent, MetricEventView};
use vstd::prelude::*;

verus! {

/// Where a terminal error of a request was observed.
#[derive(Clone, Copy, Debug, PartialEq, Eq, Structural)]
pub enum FailedAt {
    /// Generating the response failed.
    Response,
    /// Generating the response body failed.
    Body,
    /// Generating the response trailers failed.
    Trailers,
}

/// What a classifier says of the head of a response: an outcome, or that the
/// outcome is known only when the stream has ended.
#[derive(Debug)]
pub enum ClassifiedResponse<FailureClass, ClassifyEos> {
    /// The outcome is known from the head.
    Ready(Result<(), FailureClass>),
    /// The outcome waits for the end of the stream.
    RequiresEos(ClassifyEos),
}

impl<FailureClass, ClassifyEos> ClassifiedResponse<FailureClass, ClassifyEos> {
    /// The classification as the hooks see it: without the classifier of
    /// the end of the stream.
    pub open spec fn erased(self) -> ClassifiedResponse<FailureClass, ()> {
        match self {
            ClassifiedResponse::Ready(outcome) => ClassifiedResponse::Ready(outcome),
            ClassifiedResponse::RequiresEos(_) => ClassifiedResponse::RequiresEos(()),
        }
    }

    /// The classifier of the end of the stream, where the classification
    /// waits for it.
    pub open spec fn classify_eos(self) -> Option<ClassifyEos> {
        match self {
            ClassifiedResponse::Ready(_) => None,
            ClassifiedResponse::RequiresEos(classify_eos) => Some(classify_eos),
        }
    }

    /// Parts the classification from the classifier of the end of the
    /// stream.
    pub fn erase(self) -> (parts: (ClassifiedResponse<FailureClass, ()>, Option<ClassifyEos>))
        ensures
            parts.0 == self.erased(),
            parts.1 == self.classify_eos(),
    {
        match self {
            ClassifiedResponse::Ready(outcome) => (ClassifiedResponse::Ready(outcome), None),
            ClassifiedResponse::RequiresEos(classify_eos) => (
                ClassifiedResponse::RequiresEos(()),
                Some(classify_eos),
            ),
        }
    }
}

/// The hooks that the lifecycle fires on one request after another.
///
/// Each hook comes with a relation of the same tense, which says what the
/// hook may leave behind and hand back. An implementation defines the
/// relation and is held to it; one that defines none promises nothing of
/// its hook. The lifecycle's own contracts say of which values the relation
/// holds, which is how they say that a hook fired.
pub trait Callbacks<FailureClass>: Sized {
    /// The state that belongs to one request.
    type Data;

    /// What `prepare` may do: from `before` and `request` to `after`, the
    /// request's state `data`, and `metrics` to record.
    open spec fn prepared(
        before: Self,
        request: RequestHead,
        after: Self,
        data: Self::Data,
        metrics: Seq<MetricEventView>,
    ) -> bool {
        true
    }

    /// What `on_response` may do.
    open spec fn responded(
        before: Self,
        response: ResponseHead,
        classification: ClassifiedResponse<FailureClass, ()>,
        data: Self::Data,
        after: Self,
        data_after: Self::Data,
        metrics: Seq<MetricEventView>,
    ) -> bool {
        true
    }

    /// What `on_eos` may do.
    open spec fn ended(
        callbacks: Self,
        trailers: Option<Trailers>,
        classification: Result<(), FailureClass>,
        data: Self::Data,
        metrics: Seq<MetricEventView>,
    ) -> bool {
        true
    }

    /// What `on_failure` may do.
    open spec fn failed(
        callbacks: Self,
        failed_at: FailedAt,
        failure_classification: FailureClass,
        data: Self::Data,
        data_after: Self::Data,
        metrics: Seq<MetricEventView>,
    ) -> bool {
        true
    }

    /// Creates the state of one request. Fired once, when the request is
    /// received.
    fn prepare(&mut self, request: &RequestHead) -> (out: (Self::Data, Vec<MetricEvent>))
        ensures
            Self::prepared(*old(self), *request, *final(self), out.0, out.1.deep_view()),
    ;

    /// Fired once, when the handler has produced a response, whether the
    /// response is classified as a success or as a failure. Where the
    /// response starts a stream, `classification` is `RequiresEos(())`.
    fn on_response(
        &mut self,
        response: &ResponseHead,
        classification: ClassifiedResponse<FailureClass, ()>,
        data: &mut Self::Data,
    ) -> (metrics: Vec<MetricEvent>)
        ensures
            Self::responded(
                *old(self),
                *response,
                classification,
                *old(data),
                *final(self),
                *final(data),
                metrics.deep_view(),
            ),
    ;

    /// Fired once, when a stream has ended, whether the end is classified as
    /// a success or as a failure.
    fn on_eos(
        self,
        trailers: Option<&Trailers>,
        classification: Result<(), FailureClass>,
        data: Self::Data,
    ) -> (metrics: Vec<MetricEvent>)
        ensures
            Self::ended(
                self,
                match trailers {
                    Some(t) => Some(*t),
                    None => None,
                },
                classification,
                data,
                metrics.deep_view(),
            ),
    ;

    /// Fired once, when the handler, the body or the trailers failed. Not
    /// fired for a response or an end of stream that is classified as a
    /// failure.
    fn on_failure(
        self,
        failed_at: FailedAt,
        failure_classification: FailureClass,
        data: &mut Self::Data,
    ) -> (metrics: Vec<MetricEvent>)
        ensures
            Self::failed(
                self,
                failed_at,
                failure_classification,
                *old(data),
                *final(data),
                metrics.deep_view(),
            ),
    ;
}

/// The hook that sees every chunk of a response body.
///
/// As with `Callbacks`, the relation says what the hook may do, and an
/// implementation that defines none promises nothing.
pub trait OnBodyChunk: Sized {
    /// The state that belongs to one request.
    type Data;

    /// What `call` may do.
    open spec fn observed(
        before: Self,
        chunk_len: usize,
        exact_body_size: Option<u64>,
        data: Self::Data,
        after: Self,
        data_after: Self::Data,
        metrics: Seq<MetricEventView>,
    ) -> bool {
        true
    }

    /// Fired for every chunk that the body produces, empty or not, with the
    /// chunk's length and the body's exact size where that is known.
    fn call(&mut self, chunk_len: usize, exact_body_size: Option<u64>, data: &mut Self::Data) -> (metrics:
        Vec<MetricEvent>)
        ensures
            Self::observed(
                *old(self),
                chunk_len,
                exact_body_size,
                *old(data),
                *final(self),
                *final(data),
                metrics.deep_view(),
            ),
    ;
}

/// The hook that learns the exact size of a response body ahead of time.
///
/// As with `Callbacks`, the relation says what the hook may do, and an
/// implementation that defines none promises nothing.
pub trait OnExactBodySize: Sized {
    /// The state that belongs to one request.
    type Data;

    /// What `call` may do.
    open spec fn sized(
        before: Self,
        size: u64,
        data: Self::Data,
        after: Self,
        data_after: Self::Data,
        metrics: Seq<MetricEventView>,
    ) -> bool {
        true
    }

    /// Fired at most once for a body, before its first chunk is observed,
    /// where the body's exact size is known by then.
    fn call(&mut self, size: u64, data: &mut Self::Data) -> (metrics: Vec<MetricEvent>)
        ensures
            Self::sized(*old(self), size, *old(data), *final(self), *final(data), metrics.deep_view()),
    ;
}

/// A hook that may be missing: the hook where there is one, and nothing
/// where there is none.
impl<T: OnBodyChunk> OnBodyChunk for Option<T> {
    type Data = T::Data;

    open spec fn observed(
        before: Self,
        chunk_len: usize,
        exact_body_size: Option<u64>,
        data: Self::Data,
        after: Self,
        data_after: Self::Data,
        metrics: Seq<MetricEventView>,
    ) -> bool {
        match before {
            Some(inner) => after matches Some(inner_after) && T::observed(
                inner,
                chunk_len,
                exact_body_size,
                data,
                inner_after,
                data_after,
                metrics,
            ),
            None => after is None && data_after == data && metrics =~= Seq::<MetricEventView>::empty(),
        }
    }

    fn call(&mut self, chunk_len: usize, exact_body_size: Option<u64>, data: &mut Self::Data) -> (metrics:
        Vec<MetricEvent>) {
        match self {
            Some(this) => this.call(chunk_len, exact_body_size, data),
            None => Vec::new(),
        }
    }
}

/// A hook that may be missing: the hook where there is one, and nothing
/// where there is none.
impl<T: OnExactBodySize> OnExactBodySize for Option<T> {
    type Data = T::Data;

    open spec fn sized(
        before: Self,
        size: u64,
        data: Self::Data,
        after: Self,
        data_after: Self::Data,
        metrics: Seq<MetricEventView>,
    ) -> bool {
        match before {
            Some(inner) => after matches Some(inner_after) && T::sized(
                inner,
                size,
                data,
                inner_after,
                data_after,
                metrics,
            ),
            None => after is None && data_after == data && metrics =~= Seq::<MetricEventView>::empty(),
        }
    }

    fn call(&mut self, size: u64, data: &mut Self::Data) -> (metrics: Vec<MetricEvent>) {
        match self {
            Some(this) => this.call(size, data),
            None => Vec::new(),
        }
    }
}

} // verus!
