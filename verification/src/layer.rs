//! The metrics layer: the lifecycle with `Traffic` as its callbacks.

use crate::builder::{LayerOnly, MetricLayerBuilder, Paired};
use crate::lifecycle::layer::LifeCycleLayer;
use crate::lifecycle::service::LifeCycle;
use crate::traffic::{BodySizeRecorder, Group, Traffic};
use core::marker::PhantomData;
use tower_http::classify::{SharedClassifier, StatusInRangeAsFailures};
use vstd::prelude::*;

verus! {

/// `tower_http::classify::StatusInRangeAsFailures`, the classifier that
/// takes a status in a range as a failure. The crate carries it to the
/// host.
#[verifier::external_type_specification]
#[verifier::external_body]
pub struct ExStatusInRangeAsFailures(StatusInRangeAsFailures);

/// `tower_http::classify::SharedClassifier`, the maker of classifiers that
/// hands out copies of one classifier. The crate carries it to the host.
#[verifier::external_type_specification]
#[verifier::external_body]
#[verifier::reject_recursive_types(C)]
pub struct ExSharedClassifier<C>(SharedClassifier<C>);

/// The maker of the classifiers of the metrics layer.
pub type StatusClassifier = SharedClassifier<StatusInRangeAsFailures>;

/// Calls `StatusInRangeAsFailures::new_for_client_and_server_errors`. The
/// classifier is the host's to use; nothing is claimed of it.
#[verifier::external_body]
fn client_and_server_errors() -> StatusInRangeAsFailures {
    StatusInRangeAsFailures::new_for_client_and_server_errors()
}

/// Calls `StatusInRangeAsFailures::into_make_classifier`. Nothing is
/// claimed of what it gives.
#[verifier::external_body]
fn into_make_classifier(classifier: StatusInRangeAsFailures) -> StatusClassifier {
    classifier.into_make_classifier()
}

/// Calls `Clone::clone` of `SharedClassifier`. Nothing is claimed of the
/// copy.
#[verifier::external_body]
fn clone_make_classifier(make_classifier: &StatusClassifier) -> StatusClassifier {
    make_classifier.clone()
}

/// How a metrics exporter is set up by default.
pub trait MakeDefaultHandle {
    /// The handle of the exporter.
    type Out;

    /// Sets the exporter up and gives its handle.
    fn make_default_handle(self) -> Self::Out;
}

/// Whether `handle` is a default handle of `M`: what `make_default_handle`
/// may give for a default value of `M`.
pub open spec fn made_by_default<T, M: MakeDefaultHandle<Out = T> + Default>(handle: T) -> bool {
    exists|made: M|
        call_ensures(M::default, (), made) && #[trigger] call_ensures(
            M::make_default_handle,
            (made,),
            handle,
        )
}

/// The default handle of `M`.
pub fn default_handle<T, M: MakeDefaultHandle<Out = T> + Default>() -> (handle: T)
    ensures
        made_by_default::<T, M>(handle),
{
    let made = M::default();
    let handle = M::make_default_handle(made);
    proof {
        assert(call_ensures(M::make_default_handle, (made,), handle));
    }
    handle
}

/// The layer that records the metrics of the requests that pass through
/// it. `T` is the handle of the metrics exporter and `M` what sets the
/// exporter up; the layer holds neither.
pub struct GenericMetricLayer<'a, T, M, F: Fn(&str) -> String + Copy> {
    inner_layer: LifeCycleLayer<
        StatusClassifier,
        Traffic<'a, F>,
        Option<BodySizeRecorder>,
        Option<BodySizeRecorder>,
    >,
    _marker: PhantomData<(T, M)>,
}

impl<'a, T, M, F: Fn(&str) -> String + Copy> Clone for GenericMetricLayer<'a, T, M, F> {
    fn clone(&self) -> (copy: Self)
        ensures
            copy.traffic().ignore_routes() == self.traffic().ignore_routes(),
            copy.traffic().groups() == self.traffic().groups(),
            copy.traffic().endpoint_label() == self.traffic().endpoint_label(),
            copy.tracks_body_size() == self.tracks_body_size(),
            copy.learns_exact_size() == self.learns_exact_size(),
    {
        GenericMetricLayer {
            inner_layer: LifeCycleLayer::new(
                clone_make_classifier(&self.inner_layer.make_classifier),
                self.inner_layer.callbacks.clone(),
                self.inner_layer.on_body_chunk,
                self.inner_layer.on_exact_body_size,
            ),
            _marker: PhantomData,
        }
    }
}

impl<'a, T, M, F: Fn(&str) -> String + Copy> GenericMetricLayer<'a, T, M, F> {
    /// The callbacks of the layer.
    pub closed spec fn traffic(self) -> Traffic<'a, F> {
        self.inner_layer.callbacks
    }

    /// Whether the layer tracks the sizes of response bodies: whether it
    /// holds the hook that sees every chunk.
    pub closed spec fn tracks_body_size(self) -> bool {
        self.inner_layer.on_body_chunk is Some
    }

    /// Whether the layer is told the exact size of a response body ahead of
    /// time: whether it holds the hook for that.
    pub closed spec fn learns_exact_size(self) -> bool {
        self.inner_layer.on_exact_body_size is Some
    }

    /// The layer with these callbacks, with or without the tracking of body
    /// sizes.
    fn assemble(traffic: Traffic<'a, F>, enable_body_size: bool) -> (layer: Self)
        ensures
            layer.traffic() == traffic,
            layer.tracks_body_size() == enable_body_size,
            layer.learns_exact_size() == enable_body_size,
    {
        let make_classifier = into_make_classifier(client_and_server_errors());
        let recorder = if enable_body_size {
            Some(BodySizeRecorder)
        } else {
            None
        };
        GenericMetricLayer {
            inner_layer: LifeCycleLayer::new(make_classifier, traffic, recorder, recorder),
            _marker: PhantomData,
        }
    }

    /// A layer that ignores nothing, groups nothing, names an endpoint by
    /// its matched path and does not track body sizes. It classifies
    /// responses with a client or server error status as failures.
    pub fn new() -> (layer: Self)
        ensures
            layer.traffic().ignore_routes() == Seq::<Seq<char>>::empty(),
            layer.traffic().groups() == Seq::<Group>::empty(),
            layer.traffic().endpoint_label() is MatchedPath,
            forall|path: Seq<char>| !#[trigger] layer.traffic().spec_ignores(path),
            !layer.tracks_body_size(),
            !layer.learns_exact_size(),
    {
        Self::assemble(Traffic::new(), false)
    }

    /// The layer that `builder` describes.
    pub fn from_builder(builder: MetricLayerBuilder<'a, T, M, LayerOnly, F>) -> (layer: Self)
        ensures
            layer.traffic() == builder.traffic(),
            layer.tracks_body_size() == builder.tracks_body_size(),
            layer.learns_exact_size() == builder.tracks_body_size(),
    {
        let (traffic, enable_body_size, _) = builder.into_parts();
        Self::assemble(traffic, enable_body_size)
    }

    /// Enables the tracking of response body sizes.
    pub fn enable_response_body_size(&mut self)
        ensures
            final(self).tracks_body_size(),
            final(self).learns_exact_size(),
            final(self).traffic() == old(self).traffic(),
    {
        self.inner_layer.on_body_chunk(Some(BodySizeRecorder));
        self.inner_layer.on_exact_body_size(Some(BodySizeRecorder));
    }

    /// The layer that `builder` describes, and the handle that the builder
    /// holds. A builder without a handle gets the default handle of `M`.
    pub fn pair_from_builder(builder: MetricLayerBuilder<'a, T, M, Paired, F>) -> (pair: (Self, T)) where
        M: MakeDefaultHandle<Out = T> + Default,

        ensures
            pair.0.traffic() == builder.traffic(),
            pair.0.tracks_body_size() == builder.tracks_body_size(),
            pair.0.learns_exact_size() == builder.tracks_body_size(),
            builder.metric_handle() matches Some(handle) ==> pair.1 == handle,
            builder.metric_handle() is None ==> made_by_default::<T, M>(pair.1),
    {
        let (traffic, enable_body_size, metric_handle) = builder.into_parts();
        let layer = Self::assemble(traffic, enable_body_size);
        let handle = match metric_handle {
            Some(handle) => handle,
            None => default_handle::<T, M>(),
        };
        (layer, handle)
    }

    /// A new layer, and the handle that `m` makes.
    pub fn pair_from(m: M) -> (pair: (Self, T)) where M: MakeDefaultHandle<Out = T>
        ensures
            pair.0.traffic().ignore_routes() == Seq::<Seq<char>>::empty(),
            pair.0.traffic().groups() == Seq::<Group>::empty(),
            pair.0.traffic().endpoint_label() is MatchedPath,
            forall|path: Seq<char>| !#[trigger] pair.0.traffic().spec_ignores(path),
            !pair.0.tracks_body_size(),
            !pair.0.learns_exact_size(),
            call_ensures(M::make_default_handle, (m,), pair.1),
    {
        (Self::new(), M::make_default_handle(m))
    }

    /// A new layer, and the default handle of `M`.
    pub fn pair() -> (pair: (Self, T)) where M: MakeDefaultHandle<Out = T> + Default
        ensures
            pair.0.traffic().ignore_routes() == Seq::<Seq<char>>::empty(),
            pair.0.traffic().groups() == Seq::<Group>::empty(),
            pair.0.traffic().endpoint_label() is MatchedPath,
            forall|path: Seq<char>| !#[trigger] pair.0.traffic().spec_ignores(path),
            !pair.0.tracks_body_size(),
            !pair.0.learns_exact_size(),
            made_by_default::<T, M>(pair.1),
    {
        (Self::new(), default_handle::<T, M>())
    }

    /// Puts `inner` under observation: the service holds `inner`, callbacks
    /// with the routes, groups and endpoint naming of the layer's, and the
    /// body hooks where the layer tracks body sizes.
    pub fn layer<S>(&self, inner: S) -> (service: LifeCycle<
        S,
        StatusClassifier,
        Traffic<'a, F>,
        Option<BodySizeRecorder>,
        Option<BodySizeRecorder>,
    >)
        ensures
            service.inner == inner,
            service.callbacks.ignore_routes() == self.traffic().ignore_routes(),
            service.callbacks.groups() == self.traffic().groups(),
            service.callbacks.endpoint_label() == self.traffic().endpoint_label(),
            service.on_body_chunk is Some == self.tracks_body_size(),
            service.on_exact_body_size is Some == self.learns_exact_size(),
    {
        LifeCycle::new(
            inner,
            clone_make_classifier(&self.inner_layer.make_classifier),
            self.inner_layer.callbacks.clone(),
            self.inner_layer.on_body_chunk,
            self.inner_layer.on_exact_body_size,
        )
    }
}

impl<'a, T, M, F: Fn(&str) -> String + Copy> Default for GenericMetricLayer<'a, T, M, F> {
    fn default() -> (layer: Self)
        ensures
            layer.traffic().ignore_routes() == Seq::<Seq<char>>::empty(),
            layer.traffic().groups() == Seq::<Group>::empty(),
            layer.traffic().endpoint_label() is MatchedPath,
            forall|path: Seq<char>| !#[trigger] layer.traffic().spec_ignores(path),
            !layer.tracks_body_size(),
            !layer.learns_exact_size(),
    {
        Self::new()
    }
}

} // verus!
