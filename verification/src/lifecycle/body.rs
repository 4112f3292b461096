//! The wrapper of a response body: it sees every frame and fires the hooks
//! that the frame owes.

use super::trace::{awaits_eos_after, frame_hook, FrameKind, Hook};
use super::{Callbacks, FailedAt, OnBodyChunk, OnExactBodySize};
use crate::content_length::{exact_body_size, spec_exact_body_size};
use crate::message::Trailers;
use crate::metric::{MetricEvent, MetricEventView};
use vstd::prelude::*;

verus! {

/// What the wrapped body produced when it was polled. A frame that ends the
/// stream comes with the question that its end puts to the classifier of
/// the end of the stream: `KE` judges an end, `KF` an error.
///
/// The question is asked of the classifier that the wrapper holds, once, and
/// only while the wrapper owes its terminal hook.
#[allow(inconsistent_fields)]
pub enum Frame<KE, KF> {
    /// A chunk of `len` bytes.
    Data { len: usize },
    /// The trailers, which end the stream.
    Trailers { trailers: Trailers, classify: KE },
    /// An error in place of a chunk.
    BodyError { classify: KF },
    /// An error in place of the trailers.
    TrailersError { classify: KF },
    /// The end of a stream without trailers.
    End { classify: KE },
}

impl<KE, KF> Frame<KE, KF> {
    /// What kind of frame this is.
    pub open spec fn kind(self) -> FrameKind {
        match self {
            Frame::Data { .. } => FrameKind::Data,
            Frame::Trailers { .. } => FrameKind::Trailers,
            Frame::BodyError { .. } => FrameKind::BodyError,
            Frame::TrailersError { .. } => FrameKind::TrailersError,
            Frame::End { .. } => FrameKind::End,
        }
    }

    /// The trailers, where the frame holds them.
    pub open spec fn trailers(self) -> Option<Trailers> {
        match self {
            Frame::Trailers { trailers, .. } => Some(trailers),
            _ => None,
        }
    }

    /// The question that an end of the stream puts to the classifier, where
    /// the frame is the trailers or a plain end.
    pub open spec fn eos_question(self) -> Option<KE> {
        match self {
            Frame::Trailers { classify, .. } => Some(classify),
            Frame::End { classify } => Some(classify),
            _ => None,
        }
    }

    /// The question that an error puts to the classifier, where the frame is
    /// an error.
    pub open spec fn failure_question(self) -> Option<KF> {
        match self {
            Frame::BodyError { classify } => Some(classify),
            Frame::TrailersError { classify } => Some(classify),
            _ => None,
        }
    }

    /// Whether the frame's question can be put to `classifier`. A chunk has
    /// none.
    pub open spec fn can_ask<C, FailureClass>(self, classifier: C) -> bool where
        KE: FnOnce(C) -> Result<(), FailureClass>,
        KF: FnOnce(C) -> FailureClass,
     {
        match self {
            Frame::Data { .. } => true,
            Frame::Trailers { classify, .. } => call_requires(classify, (classifier,)),
            Frame::End { classify } => call_requires(classify, (classifier,)),
            Frame::BodyError { classify } => call_requires(classify, (classifier,)),
            Frame::TrailersError { classify } => call_requires(classify, (classifier,)),
        }
    }
}

/// The wrapper of one response body.
///
/// It holds the classifier of the end of the stream and the callbacks, the
/// two together, for as long as it owes a terminal hook. It gives them up,
/// by value, to the hook that it fires: no second terminal hook can fire.
pub struct ResponseBody<C, CB, OBC, OES, D> {
    parts: Option<(C, CB)>,
    callbacks_data: D,
    on_body_chunk: OBC,
    on_exact_body_size: OES,
    exact_size_reported: bool,
    content_length: Option<Vec<u8>>,
}

impl<C, CB, OBC, OES, D> ResponseBody<C, CB, OBC, OES, D> {
    /// The classifier of the end of the stream and the callbacks, for as
    /// long as a terminal hook is owed.
    pub closed spec fn parts(self) -> Option<(C, CB)> {
        self.parts
    }

    /// The classifier of the end of the stream, for as long as a terminal
    /// hook is owed.
    pub open spec fn classifier(self) -> Option<C> {
        match self.parts() {
            Some(parts) => Some(parts.0),
            None => None,
        }
    }

    /// The callbacks, for as long as a terminal hook is owed.
    pub open spec fn callbacks(self) -> Option<CB> {
        match self.parts() {
            Some(parts) => Some(parts.1),
            None => None,
        }
    }

    /// The state of the request.
    pub closed spec fn callbacks_data(self) -> D {
        self.callbacks_data
    }

    /// The hook that sees every chunk.
    pub closed spec fn on_body_chunk(self) -> OBC {
        self.on_body_chunk
    }

    /// The hook that learns the exact size.
    pub closed spec fn on_exact_body_size(self) -> OES {
        self.on_exact_body_size
    }

    /// Whether the exact size was handed to its hook.
    pub closed spec fn exact_size_reported(self) -> bool {
        self.exact_size_reported
    }

    /// The bytes of the response's `content-length` header.
    pub closed spec fn content_length(self) -> Option<Seq<u8>> {
        match self.content_length {
            Some(bytes) => Some(bytes@),
            None => None,
        }
    }

    /// Whether a terminal hook is still owed.
    pub open spec fn awaits_eos(self) -> bool {
        self.parts() is Some
    }

    /// Wraps a body that has produced nothing yet. With `parts`, the wrapper
    /// owes a terminal hook; without, it only observes chunks.
    pub fn new(
        parts: Option<(C, CB)>,
        callbacks_data: D,
        on_body_chunk: OBC,
        on_exact_body_size: OES,
        content_length: Option<Vec<u8>>,
    ) -> (body: Self)
        ensures
            body.parts() == parts,
            body.callbacks_data() == callbacks_data,
            body.on_body_chunk() == on_body_chunk,
            body.on_exact_body_size() == on_exact_body_size,
            !body.exact_size_reported(),
            body.content_length() == match content_length {
                Some(bytes) => Some(bytes@),
                None => None,
            },
    {
        ResponseBody {
            parts,
            callbacks_data,
            on_body_chunk,
            on_exact_body_size,
            exact_size_reported: false,
            content_length,
        }
    }

    /// Whether a terminal hook is still owed.
    pub fn is_awaiting_eos(&self) -> (awaiting: bool)
        ensures
            awaiting == self.awaits_eos(),
    {
        self.parts.is_some()
    }

    /// The two steps that a chunk of `len` bytes takes through a wrapper,
    /// where the body's exact size is `size`. The size goes to its hook
    /// first, unless it is unknown or went there before: that leaves the
    /// state `data` and hands back `sized`. Then the chunk goes to the chunk
    /// hook with that state, which hands back `chunked`.
    pub open spec fn chunk_steps(
        before: Self,
        len: usize,
        size: Option<u64>,
        data: D,
        sized: Seq<MetricEventView>,
        chunked: Seq<MetricEventView>,
        after: Self,
    ) -> bool where OBC: OnBodyChunk<Data = D>, OES: OnExactBodySize<Data = D> {
        &&& if size is Some && !before.exact_size_reported() {
            OES::sized(
                before.on_exact_body_size(),
                size->0,
                before.callbacks_data(),
                after.on_exact_body_size(),
                data,
                sized,
            )
        } else {
            &&& after.on_exact_body_size() == before.on_exact_body_size()
            &&& data == before.callbacks_data()
            &&& sized =~= Seq::<MetricEventView>::empty()
        }
        &&& OBC::observed(
            before.on_body_chunk(),
            len,
            size,
            data,
            after.on_body_chunk(),
            after.callbacks_data(),
            chunked,
        )
    }

    /// What a chunk of `len` bytes does to a wrapper, where the body's exact
    /// size is `size`: it takes the two steps of `chunk_steps`, and `metrics`
    /// are those of the first step, then those of the second.
    pub open spec fn observed_chunk(
        before: Self,
        len: usize,
        size: Option<u64>,
        after: Self,
        metrics: Seq<MetricEventView>,
    ) -> bool where OBC: OnBodyChunk<Data = D>, OES: OnExactBodySize<Data = D> {
        &&& after.parts() == before.parts()
        &&& after.content_length() == before.content_length()
        &&& after.exact_size_reported() == (before.exact_size_reported() || size is Some)
        &&& exists|data: D, sized: Seq<MetricEventView>, chunked: Seq<MetricEventView>|
            {
                &&& #[trigger] Self::chunk_steps(before, len, size, data, sized, chunked, after)
                &&& metrics =~= sized + chunked
            }
    }

    /// That the classifier of `before` answered the question of `frame`
    /// with `classification`, and that `on_eos` fired with it on the
    /// callbacks of `before`, with the copy `data` of the request's state,
    /// and handed back `metrics`.
    pub open spec fn eos_fired<FailureClass, KE, KF>(
        before: Self,
        frame: Frame<KE, KF>,
        classification: Result<(), FailureClass>,
        data: D,
        metrics: Seq<MetricEventView>,
    ) -> bool where
        KE: FnOnce(C) -> Result<(), FailureClass>,
        KF: FnOnce(C) -> FailureClass,
        CB: Callbacks<FailureClass, Data = D>,
        D: Clone,
     {
        &&& call_ensures(frame.eos_question()->0, (before.classifier()->0,), classification)
        &&& cloned(before.callbacks_data(), data)
        &&& CB::ended(before.callbacks()->0, frame.trailers(), classification, data, metrics)
    }

    /// That the classifier of `before` answered the question of `frame`
    /// with `classification`, and that `on_failure` fired with it on the
    /// callbacks of `before`, for a failure at `failed_at`, left the state
    /// `data` behind and handed back `metrics`.
    pub open spec fn failure_fired<FailureClass, KE, KF>(
        before: Self,
        frame: Frame<KE, KF>,
        failed_at: FailedAt,
        classification: FailureClass,
        data: D,
        metrics: Seq<MetricEventView>,
    ) -> bool where
        KE: FnOnce(C) -> Result<(), FailureClass>,
        KF: FnOnce(C) -> FailureClass,
        CB: Callbacks<FailureClass, Data = D>,
     {
        &&& call_ensures(frame.failure_question()->0, (before.classifier()->0,), classification)
        &&& CB::failed(
            before.callbacks()->0,
            failed_at,
            classification,
            before.callbacks_data(),
            data,
            metrics,
        )
    }

    /// What a frame that ends the stream does to a wrapper: the classifier
    /// answers the frame's question, the hook that `frame_hook` names fires
    /// with the answer on the callbacks, both are given up, and `metrics`
    /// are the hook's. Where no hook is owed, nothing happens and no
    /// question is asked.
    pub open spec fn observed_end<FailureClass, KE, KF>(
        before: Self,
        frame: Frame<KE, KF>,
        after: Self,
        metrics: Seq<MetricEventView>,
    ) -> bool where
        KE: FnOnce(C) -> Result<(), FailureClass>,
        KF: FnOnce(C) -> FailureClass,
        CB: Callbacks<FailureClass, Data = D>,
        D: Clone,
     {
        &&& after.parts() is None
        &&& after.content_length() == before.content_length()
        &&& after.exact_size_reported() == before.exact_size_reported()
        &&& after.on_body_chunk() == before.on_body_chunk()
        &&& after.on_exact_body_size() == before.on_exact_body_size()
        &&& match frame_hook(before.awaits_eos(), frame.kind()) {
            None => {
                &&& after.callbacks_data() == before.callbacks_data()
                &&& metrics =~= Seq::<MetricEventView>::empty()
            },
            Some(Hook::OnEos) => {
                &&& after.callbacks_data() == before.callbacks_data()
                &&& exists|classification: Result<(), FailureClass>, data: D| #[trigger]
                    Self::eos_fired(before, frame, classification, data, metrics)
            },
            Some(Hook::OnFailure(failed_at)) => exists|classification: FailureClass| #[trigger]
                Self::failure_fired(
                    before,
                    frame,
                    failed_at,
                    classification,
                    after.callbacks_data(),
                    metrics,
                ),
            Some(Hook::OnResponse) => false,
        }
    }

    /// What a frame does to a wrapper, where the wrapped body gives
    /// `size_hint` as its exact size.
    pub open spec fn polled<FailureClass, KE, KF>(
        before: Self,
        frame: Frame<KE, KF>,
        size_hint: Option<u64>,
        after: Self,
        metrics: Seq<MetricEventView>,
    ) -> bool where
        KE: FnOnce(C) -> Result<(), FailureClass>,
        KF: FnOnce(C) -> FailureClass,
        CB: Callbacks<FailureClass, Data = D>,
        OBC: OnBodyChunk<Data = D>,
        OES: OnExactBodySize<Data = D>,
        D: Clone,
     {
        match frame {
            Frame::Data { len } => Self::observed_chunk(
                before,
                len,
                spec_exact_body_size(size_hint, before.content_length()),
                after,
                metrics,
            ),
            _ => Self::observed_end(before, frame, after, metrics),
        }
    }

    /// Fires `on_eos` where it is owed, with what the classifier answers to
    /// `classify`.
    fn end<FailureClass, KE, KF>(&mut self, trailers: Option<&Trailers>, classify: KE, Ghost(frame): Ghost<
        Frame<KE, KF>,
    >) -> (metrics: Vec<MetricEvent>) where
        KE: FnOnce(C) -> Result<(), FailureClass>,
        KF: FnOnce(C) -> FailureClass,
        CB: Callbacks<FailureClass, Data = D>,
        D: Clone,

        requires
            frame.kind() is Trailers || frame.kind() is End,
            frame.eos_question() == Some(classify),
            frame.trailers() == match trailers {
                Some(t) => Some(*t),
                None => None,
            },
            old(self).parts() matches Some(parts) ==> call_requires(classify, (parts.0,)),
        ensures
            Self::observed_end(*old(self), frame, *final(self), metrics.deep_view()),
    {
        match self.parts.take() {
            Some((classifier, callbacks)) => {
                let classification = classify(classifier);
                let data = self.callbacks_data.clone();
                let metrics = callbacks.on_eos(trailers, classification, data);
                proof {
                    assert(Self::eos_fired(
                        *old(self),
                        frame,
                        classification,
                        data,
                        metrics.deep_view(),
                    ));
                }
                metrics
            },
            None => Vec::new(),
        }
    }

    /// Fires `on_failure` where it is owed, with what the classifier
    /// answers to `classify`.
    fn fail<FailureClass, KE, KF>(&mut self, failed_at: FailedAt, classify: KF, Ghost(frame): Ghost<
        Frame<KE, KF>,
    >) -> (metrics: Vec<MetricEvent>) where
        KE: FnOnce(C) -> Result<(), FailureClass>,
        KF: FnOnce(C) -> FailureClass,
        CB: Callbacks<FailureClass, Data = D>,
        D: Clone,

        requires
            failed_at is Body && frame.kind() is BodyError || failed_at is Trailers && frame.kind()
                is TrailersError,
            frame.failure_question() == Some(classify),
            old(self).parts() matches Some(parts) ==> call_requires(classify, (parts.0,)),
        ensures
            Self::observed_end(*old(self), frame, *final(self), metrics.deep_view()),
    {
        match self.parts.take() {
            Some((classifier, callbacks)) => {
                let classification = classify(classifier);
                let metrics = callbacks.on_failure(failed_at, classification, &mut self.callbacks_data);
                proof {
                    assert(frame_hook(old(self).awaits_eos(), frame.kind()) == Some(
                        Hook::OnFailure(failed_at),
                    ));
                    assert(Self::failure_fired(
                        *old(self),
                        frame,
                        failed_at,
                        classification,
                        self.callbacks_data(),
                        metrics.deep_view(),
                    ));
                }
                metrics
            },
            None => Vec::new(),
        }
    }

    /// Takes note of what the wrapped body produced; `size_hint` is the exact
    /// size that the wrapped body gives of itself, where it gives one.
    ///
    /// A chunk goes to the chunk hook, after the body's exact size has gone
    /// to its own hook where it is known and has not gone there before. A
    /// frame that ends the stream fires the terminal hook where one is owed:
    /// `on_eos` for trailers or a plain end, `on_failure` for an error, each
    /// with what the classifier answers to the frame's question. After that
    /// none is owed, and no question is asked again.
    ///
    /// Where a hook is owed, the frame's question must be one that can be
    /// put to the classifier. The host hands every frame on to its caller as
    /// it came.
    pub fn poll_frame<FailureClass, KE, KF>(&mut self, frame: Frame<KE, KF>, size_hint: Option<u64>) -> (metrics:
        Vec<MetricEvent>) where
        KE: FnOnce(C) -> Result<(), FailureClass>,
        KF: FnOnce(C) -> FailureClass,
        CB: Callbacks<FailureClass, Data = D>,
        OBC: OnBodyChunk<Data = D>,
        OES: OnExactBodySize<Data = D>,
        D: Clone,

        requires
            old(self).parts() matches Some(parts) ==> frame.can_ask(parts.0),
        ensures
            final(self).awaits_eos() == awaits_eos_after(old(self).awaits_eos(), frame.kind()),
            Self::polled(*old(self), frame, size_hint, *final(self), metrics.deep_view()),
    {
        match frame {
            Frame::Data { len } => {
                let size = exact_body_size(size_hint, &self.content_length);
                let mut metrics = match size {
                    Some(exact) => {
                        if !self.exact_size_reported {
                            self.exact_size_reported = true;
                            self.on_exact_body_size.call(exact, &mut self.callbacks_data)
                        } else {
                            Vec::new()
                        }
                    },
                    None => Vec::new(),
                };
                let ghost sized = metrics.deep_view();
                let ghost data = self.callbacks_data;
                let mut chunked = self.on_body_chunk.call(len, size, &mut self.callbacks_data);
                let ghost chunked_view = chunked.deep_view();
                metrics.append(&mut chunked);
                proof {
                    assert(metrics.deep_view() =~= sized + chunked_view);
                    assert(Self::chunk_steps(
                        *old(self),
                        len,
                        size,
                        data,
                        sized,
                        chunked_view,
                        *self,
                    ));
                }
                metrics
            },
            Frame::Trailers { trailers, classify } => self.end::<FailureClass, KE, KF>(
                Some(&trailers),
                classify,
                Ghost(frame),
            ),
            Frame::End { classify } => self.end::<FailureClass, KE, KF>(None, classify, Ghost(frame)),
            Frame::BodyError { classify } => self.fail::<FailureClass, KE, KF>(
                FailedAt::Body,
                classify,
                Ghost(frame),
            ),
            Frame::TrailersError { classify } => self.fail::<FailureClass, KE, KF>(
                FailedAt::Trailers,
                classify,
                Ghost(frame),
            ),
        }
    }
}

} // verus!
