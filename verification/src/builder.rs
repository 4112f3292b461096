//! The builder of the metrics layer.

use crate::layer::{default_handle, made_by_default, GenericMetricLayer, MakeDefaultHandle};
use crate::metric::{MetricDescription, MetricDescriptionView, MetricFamily};
use crate::names::{set_prefix, MetricNames};
use crate::routes::{
    all_admissible, pattern_views, route_accepted, routes_accepted,
    admissible,
};
use crate::sealed::Sealed;
use crate::traffic::{group_routes, with_group, Group, Traffic};
use core::marker::PhantomData;
use vstd::prelude::*;
use vstd::string::StringExecFns;

verus! {

/// The states of a builder.
pub trait MetricBuilderState: Sealed {
}

/// The state of a builder that holds the handle of an exporter. It is only
/// ever a type argument.
pub enum Paired {
    State,
}

/// The state of a builder that describes a layer and nothing else. It is
/// only ever a type argument.
pub enum LayerOnly {
    State,
}

impl MetricBuilderState for Paired {
}

impl MetricBuilderState for LayerOnly {
}

/// Determines how endpoints are reported.
pub enum EndpointLabel<F> {
    /// The reported endpoint label is always the path that was requested.
    Exact,
    /// The reported endpoint label is the route template that the host's
    /// router matched, and the path that was requested where the host names
    /// no template. This is the default.
    MatchedPath,
    /// Same as `MatchedPath`, but where the host names no template, the path
    /// is given to a fallback function, and what it returns is reported.
    MatchedPathWithFallbackFn(F),
}

impl<F> Default for EndpointLabel<F> {
    fn default() -> (label: Self)
        ensures
            label is MatchedPath,
    {
        EndpointLabel::MatchedPath
    }
}

impl<F: Copy> Clone for EndpointLabel<F> {
    fn clone(&self) -> (label: Self)
        ensures
            label == *self,
    {
        match self {
            EndpointLabel::Exact => EndpointLabel::Exact,
            EndpointLabel::MatchedPath => EndpointLabel::MatchedPath,
            EndpointLabel::MatchedPathWithFallbackFn(f) => EndpointLabel::MatchedPathWithFallbackFn(*f),
        }
    }
}

impl<F> EndpointLabel<F> {
    /// Whether the fallback function, where there is one, can be called on
    /// every path.
    pub open spec fn is_total(self) -> bool where F: Fn(&str) -> String {
        self matches EndpointLabel::MatchedPathWithFallbackFn(f) ==> forall|path: &str|
            call_requires(f, (path,))
    }
}

/// The description of one family under the names `names`.
pub open spec fn description_of(names: MetricNames, family: MetricFamily) -> MetricDescriptionView {
    MetricDescriptionView {
        family,
        name: names.name(family),
        kind: family.spec_kind(),
        unit: family.spec_unit(),
        description: family.spec_description(),
    }
}

/// The descriptions of the families that a layer reports: the counter of
/// requests, the gauge of requests in flight, the histogram of response
/// times and, where body sizes are tracked, the histogram of body sizes.
pub open spec fn spec_describe_metrics(names: MetricNames, enable_body_size: bool) -> Seq<
    MetricDescriptionView,
> {
    let always = seq![
        description_of(names, MetricFamily::RequestsTotal),
        description_of(names, MetricFamily::RequestsPending),
        description_of(names, MetricFamily::RequestsDuration),
    ];
    if enable_body_size {
        always.push(description_of(names, MetricFamily::ResponseBodySize))
    } else {
        always
    }
}

/// Describes one family.
fn describe(names: &MetricNames, family: MetricFamily) -> (description: MetricDescription)
    ensures
        description@ == description_of(*names, family),
{
    MetricDescription {
        family,
        name: String::from_str(names.name_of(family)),
        kind: family.kind(),
        unit: family.unit(),
        description: family.description(),
    }
}

/// The descriptions of the families that a layer reports, for the host to
/// hand to its metrics sink.
pub fn describe_metrics(names: &MetricNames, enable_body_size: bool) -> (descriptions: Vec<
    MetricDescription,
>)
    ensures
        descriptions.deep_view() == spec_describe_metrics(*names, enable_body_size),
{
    let mut descriptions = Vec::new();
    descriptions.push(describe(names, MetricFamily::RequestsTotal));
    descriptions.push(describe(names, MetricFamily::RequestsPending));
    descriptions.push(describe(names, MetricFamily::RequestsDuration));
    if enable_body_size {
        descriptions.push(describe(names, MetricFamily::ResponseBodySize));
    }
    proof {
        assert(descriptions.deep_view() =~= spec_describe_metrics(*names, enable_body_size));
    }
    descriptions
}

/// A builder for `GenericMetricLayer`.
///
/// It starts in the state `LayerOnly`, in which it describes a layer. Once
/// it is given the handle of an exporter it is in the state `Paired`.
pub struct MetricLayerBuilder<'a, T, M, S: MetricBuilderState, F: Fn(&str) -> String + Copy> {
    traffic: Traffic<'a, F>,
    metric_handle: Option<T>,
    metric_prefix: Option<String>,
    enable_body_size: bool,
    no_initialize_metrics: bool,
    descriptions: Vec<MetricDescription>,
    _marker: PhantomData<(S, M)>,
}

impl<'a, T, M, S: MetricBuilderState, F: Fn(&str) -> String + Copy> MetricLayerBuilder<'a, T, M, S, F> {
    /// The callbacks of the layer that is built.
    pub closed spec fn traffic(self) -> Traffic<'a, F> {
        self.traffic
    }

    /// The handle of the exporter, where the builder holds one.
    pub closed spec fn metric_handle(self) -> Option<T> {
        self.metric_handle
    }

    /// The prefix that the builder was given, where it was given one.
    pub closed spec fn metric_prefix(self) -> Option<Seq<char>> {
        match self.metric_prefix {
            Some(prefix) => Some(prefix@),
            None => None,
        }
    }

    /// Whether the layer that is built tracks the sizes of response bodies.
    pub closed spec fn tracks_body_size(self) -> bool {
        self.enable_body_size
    }

    /// Whether the metrics are described to the metrics sink.
    pub closed spec fn initializes_metrics(self) -> bool {
        !self.no_initialize_metrics
    }

    /// The descriptions that the builder asks the host to hand to its
    /// metrics sink.
    pub closed spec fn described(self) -> Seq<MetricDescriptionView> {
        self.descriptions.deep_view()
    }

    /// Whether `other` is this builder in all but the routes that it
    /// ignores and groups.
    pub open spec fn same_but_routes<S2: MetricBuilderState>(self, other: MetricLayerBuilder<'a, T, M, S2, F>) -> bool {
        &&& other.traffic().endpoint_label() == self.traffic().endpoint_label()
        &&& other.metric_handle() == self.metric_handle()
        &&& other.metric_prefix() == self.metric_prefix()
        &&& other.tracks_body_size() == self.tracks_body_size()
        &&& other.initializes_metrics() == self.initializes_metrics()
        &&& other.described() == self.described()
    }

    /// Skips reporting the requests that `ignore_pattern` matches.
    ///
    /// Ignore patterns are checked before any group pattern, and a request
    /// that is ignored is not reported at all.
    ///
    /// The pattern must be admissible, which leaves out text outside ASCII,
    /// and the ignored route patterns must take it as one more route.
    pub fn with_ignore_pattern(self, ignore_pattern: &'a str) -> (builder: Self)
        requires
            admissible(ignore_pattern),
            route_accepted(self.traffic().ignore_routes(), ignore_pattern@),
        ensures
            builder.traffic().ignore_routes() == self.traffic().ignore_routes().push(
                ignore_pattern@,
            ),
            builder.traffic().groups() == self.traffic().groups(),
            self.same_but_routes(builder),
    {
        let mut builder = self;
        builder.traffic.with_ignore_pattern(ignore_pattern);
        builder
    }

    /// Skips reporting the requests that `ignore_pattern` matches, where
    /// the pattern is admissible and the ignored route patterns take it.
    /// Where not, as for every pattern outside ASCII, the builder comes back
    /// as it was, as an error.
    pub fn try_with_ignore_pattern(self, ignore_pattern: &'a str) -> (out: Result<Self, Self>)
        ensures
            out is Ok <==> admissible(ignore_pattern) && route_accepted(
                self.traffic().ignore_routes(),
                ignore_pattern@,
            ),
            out matches Ok(builder) ==> builder.traffic().ignore_routes()
                == self.traffic().ignore_routes().push(ignore_pattern@) && builder.traffic().groups()
                == self.traffic().groups() && self.same_but_routes(builder),
            out matches Err(builder) ==> builder == self,
    {
        let patterns = [ignore_pattern];
        proof {
            assert(pattern_views(patterns@) =~= seq![ignore_pattern@]);
            assert(pattern_views(patterns@).skip(1) =~= Seq::<Seq<char>>::empty());
            reveal_with_fuel(routes_accepted, 2);
            assert(all_admissible(patterns@) <==> admissible(ignore_pattern)) by {
                assert(patterns@[0] == ignore_pattern);
            }
        }
        if self.traffic.accepts_ignore_patterns(patterns.as_slice()) {
            Ok(self.with_ignore_pattern(ignore_pattern))
        } else {
            Err(self)
        }
    }

    /// Skips reporting the requests that any of `ignore_patterns` matches.
    ///
    /// The patterns must be admissible, which leaves out text outside
    /// ASCII, and the ignored route patterns must take them, one after the
    /// other.
    pub fn with_ignore_patterns(self, ignore_patterns: &'a [&'a str]) -> (builder: Self)
        requires
            all_admissible(ignore_patterns@),
            routes_accepted(self.traffic().ignore_routes(), pattern_views(ignore_patterns@)),
        ensures
            builder.traffic().ignore_routes() == self.traffic().ignore_routes() + pattern_views(
                ignore_patterns@,
            ),
            builder.traffic().groups() == self.traffic().groups(),
            self.same_but_routes(builder),
    {
        let mut builder = self;
        builder.traffic.with_ignore_patterns(ignore_patterns);
        builder
    }

    /// Skips reporting the requests that any of `ignore_patterns` matches,
    /// where the patterns are admissible and the ignored route patterns take
    /// them all. Where not, as for every pattern outside ASCII, the builder
    /// comes back as it was, as an error.
    pub fn try_with_ignore_patterns(self, ignore_patterns: &'a [&'a str]) -> (out: Result<Self, Self>)
        ensures
            out is Ok <==> all_admissible(ignore_patterns@) && routes_accepted(
                self.traffic().ignore_routes(),
                pattern_views(ignore_patterns@),
            ),
            out matches Ok(builder) ==> builder.traffic().ignore_routes()
                == self.traffic().ignore_routes() + pattern_views(ignore_patterns@)
                && builder.traffic().groups() == self.traffic().groups() && self.same_but_routes(
                builder,
            ),
            out matches Err(builder) ==> builder == self,
    {
        if self.traffic.accepts_ignore_patterns(ignore_patterns) {
            Ok(self.with_ignore_patterns(ignore_patterns))
        } else {
            Err(self)
        }
    }

    /// Reports the requests that any of `patterns` matches under the
    /// endpoint label `group_pattern`, which can be any text.
    ///
    /// The patterns must be admissible, which leaves out text outside
    /// ASCII, and the route patterns that are reported under the label
    /// already must take them, one after the other.
    pub fn with_group_patterns_as(self, group_pattern: &'a str, patterns: &'a [&'a str]) -> (builder:
        Self)
        requires
            all_admissible(patterns@),
            routes_accepted(
                group_routes(self.traffic().groups(), group_pattern@),
                pattern_views(patterns@),
            ),
        ensures
            builder.traffic().groups() == with_group(
                self.traffic().groups(),
                group_pattern@,
                pattern_views(patterns@),
            ),
            builder.traffic().ignore_routes() == self.traffic().ignore_routes(),
            self.same_but_routes(builder),
    {
        let mut builder = self;
        builder.traffic.with_group_patterns_as(group_pattern, patterns);
        builder
    }

    /// Reports the requests that any of `patterns` matches under the
    /// endpoint label `group_pattern`, where the patterns are admissible and
    /// the route patterns of that label take them all. Where not, as for
    /// every pattern outside ASCII, the builder comes back as it was, as an
    /// error.
    pub fn try_with_group_patterns_as(self, group_pattern: &'a str, patterns: &'a [&'a str]) -> (out:
        Result<Self, Self>)
        ensures
            out is Ok <==> all_admissible(patterns@) && routes_accepted(
                group_routes(self.traffic().groups(), group_pattern@),
                pattern_views(patterns@),
            ),
            out matches Ok(builder) ==> builder.traffic().groups() == with_group(
                self.traffic().groups(),
                group_pattern@,
                pattern_views(patterns@),
            ) && builder.traffic().ignore_routes() == self.traffic().ignore_routes()
                && self.same_but_routes(builder),
            out matches Err(builder) ==> builder == self,
    {
        if self.traffic.accepts_group_patterns(group_pattern, patterns) {
            Ok(self.with_group_patterns_as(group_pattern, patterns))
        } else {
            Err(self)
        }
    }

    /// Determines how endpoints are reported.
    ///
    /// A fallback function must be one that can be called on every path.
    pub fn with_endpoint_label_type(self, endpoint_label: EndpointLabel<F>) -> (builder: Self)
        requires
            endpoint_label.is_total(),
        ensures
            builder.traffic().endpoint_label() == endpoint_label,
            builder.traffic().ignore_routes() == self.traffic().ignore_routes(),
            builder.traffic().groups() == self.traffic().groups(),
            builder.metric_handle() == self.metric_handle(),
            builder.metric_prefix() == self.metric_prefix(),
            builder.tracks_body_size() == self.tracks_body_size(),
            builder.initializes_metrics() == self.initializes_metrics(),
            builder.described() == self.described(),
    {
        let mut builder = self;
        builder.traffic.with_endpoint_label_type(endpoint_label);
        builder
    }

    /// Enables or disables the tracking of response body sizes.
    pub fn enable_response_body_size(self, enable: bool) -> (builder: Self)
        ensures
            builder.tracks_body_size() == enable,
            builder.traffic() == self.traffic(),
            builder.metric_handle() == self.metric_handle(),
            builder.metric_prefix() == self.metric_prefix(),
            builder.initializes_metrics() == self.initializes_metrics(),
            builder.described() == self.described(),
    {
        let mut builder = self;
        builder.enable_body_size = enable;
        builder
    }

    /// Keeps the metrics from being described to the metrics sink.
    pub fn no_initialize_metrics(self) -> (builder: Self)
        ensures
            !builder.initializes_metrics(),
            builder.traffic() == self.traffic(),
            builder.metric_handle() == self.metric_handle(),
            builder.metric_prefix() == self.metric_prefix(),
            builder.tracks_body_size() == self.tracks_body_size(),
            builder.described() == self.described(),
    {
        let mut builder = self;
        builder.no_initialize_metrics = true;
        builder
    }

    /// Whether the builder was given a prefix.
    pub fn has_prefix(&self) -> (given: bool)
        ensures
            given == self.metric_prefix().is_some(),
    {
        self.metric_prefix.is_some()
    }

    /// The descriptions that the builder asks the host to hand to its
    /// metrics sink.
    pub fn descriptions(&self) -> (descriptions: &Vec<MetricDescription>)
        ensures
            descriptions.deep_view() == self.described(),
    {
        &self.descriptions
    }

    /// Takes the builder apart: the callbacks, whether body sizes are
    /// tracked, and the handle.
    pub(crate) fn into_parts(self) -> (parts: (Traffic<'a, F>, bool, Option<T>))
        ensures
            parts.0 == self.traffic(),
            parts.1 == self.tracks_body_size(),
            parts.2 == self.metric_handle(),
    {
        (self.traffic, self.enable_body_size, self.metric_handle)
    }
}

impl<'a, T, M, F: Fn(&str) -> String + Copy> MetricLayerBuilder<'a, T, M, LayerOnly, F> {
    /// A builder of a layer that ignores nothing, groups nothing, names an
    /// endpoint by its matched path, does not track body sizes, reports
    /// under the default names and describes its metrics.
    pub fn new() -> (builder: Self)
        ensures
            builder.traffic().ignore_routes() == Seq::<Seq<char>>::empty(),
            builder.traffic().groups() == Seq::<Group>::empty(),
            builder.traffic().endpoint_label() is MatchedPath,
            forall|path: Seq<char>| !#[trigger] builder.traffic().spec_ignores(path),
            builder.metric_handle() is None,
            builder.metric_prefix() is None,
            !builder.tracks_body_size(),
            builder.initializes_metrics(),
            builder.described() == Seq::<MetricDescriptionView>::empty(),
    {
        let builder = MetricLayerBuilder {
            _marker: PhantomData,
            traffic: Traffic::new(),
            metric_handle: None,
            no_initialize_metrics: false,
            metric_prefix: None,
            enable_body_size: false,
            descriptions: Vec::new(),
        };
        proof {
            assert(builder.described() =~= Seq::<MetricDescriptionView>::empty());
        }
        builder
    }

    /// Reports the metrics as `{prefix}_http_requests_total`,
    /// `{prefix}_http_requests_pending`,
    /// `{prefix}_http_requests_duration_seconds` and
    /// `{prefix}_http_response_body_size`. The names change when the
    /// builder is given the handle of an exporter.
    pub fn with_prefix(self, prefix: &str) -> (builder: Self)
        ensures
            builder.metric_prefix() == Some(prefix@),
            builder.traffic() == self.traffic(),
            builder.metric_handle() == self.metric_handle(),
            builder.tracks_body_size() == self.tracks_body_size(),
            builder.initializes_metrics() == self.initializes_metrics(),
            builder.described() == self.described(),
    {
        let mut builder = self;
        builder.metric_prefix = Some(String::from_str(prefix));
        builder
    }

    /// The layer that the builder describes.
    pub fn build(self) -> (layer: GenericMetricLayer<'a, T, M, F>)
        ensures
            layer.traffic() == self.traffic(),
            layer.tracks_body_size() == self.tracks_body_size(),
            layer.learns_exact_size() == self.tracks_body_size(),
    {
        GenericMetricLayer::from_builder(self)
    }

    /// Gives the builder the default handle of `M`, after the names were
    /// set and the metrics described as `from_layer_only` says.
    pub fn with_default_metrics(self, names: &mut MetricNames) -> (builder: MetricLayerBuilder<
        'a,
        T,
        M,
        Paired,
        F,
    >) where M: MakeDefaultHandle<Out = T> + Default
        requires
            self.metric_prefix() is Some ==> old(names).prefix() is None,
        ensures
            self.paired_as(*old(names), *final(names), builder),
            builder.metric_handle() is Some,
            made_by_default::<T, M>(builder.metric_handle()->0),
    {
        let mut builder = MetricLayerBuilder::<'a, T, M, Paired, F>::from_layer_only(self, names);
        builder.metric_handle = Some(default_handle::<T, M>());
        builder
    }

    /// Gives the builder the handle that `f` makes, after the names were
    /// set and the metrics described as `from_layer_only` says.
    pub fn with_metrics_from_fn<H: FnOnce() -> T>(self, names: &mut MetricNames, f: H) -> (builder:
        MetricLayerBuilder<'a, T, M, Paired, F>)
        requires
            self.metric_prefix() is Some ==> old(names).prefix() is None,
            call_requires(f, ()),
        ensures
            self.paired_as(*old(names), *final(names), builder),
            builder.metric_handle() is Some,
            call_ensures(f, (), builder.metric_handle()->0),
    {
        let mut builder = MetricLayerBuilder::<'a, T, M, Paired, F>::from_layer_only(self, names);
        builder.metric_handle = Some(f());
        builder
    }

    /// What the step to the state `Paired` does, but for the handle: the
    /// builder's prefix, where it has one, becomes the prefix of the names;
    /// the metrics are described under the names as they then are, unless
    /// the builder keeps them from being described; everything else stays.
    pub open spec fn paired_as(
        self,
        names: MetricNames,
        names_after: MetricNames,
        paired: MetricLayerBuilder<'a, T, M, Paired, F>,
    ) -> bool {
        &&& names_after.prefix() == match self.metric_prefix() {
            Some(prefix) => Some(prefix),
            None => names.prefix(),
        }
        &&& paired.described() == if self.initializes_metrics() {
            spec_describe_metrics(names_after, self.tracks_body_size())
        } else {
            Seq::empty()
        }
        &&& paired.traffic() == self.traffic()
        &&& paired.metric_prefix() == self.metric_prefix()
        &&& paired.tracks_body_size() == self.tracks_body_size()
        &&& paired.initializes_metrics() == self.initializes_metrics()
    }
}

impl<'a, T, M, F: Fn(&str) -> String + Copy> MetricLayerBuilder<'a, T, M, Paired, F> {
    /// Takes a builder to the state `Paired`. The builder's prefix, where it
    /// has one, becomes the prefix of `names`, which must not have one yet.
    /// Unless the builder keeps the metrics from being described, they are
    /// described under the names as they then are.
    pub fn from_layer_only(layer_only: MetricLayerBuilder<'a, T, M, LayerOnly, F>, names: &mut MetricNames) -> (builder:
        Self)
        requires
            layer_only.metric_prefix() is Some ==> old(names).prefix() is None,
        ensures
            layer_only.paired_as(*old(names), *final(names), builder),
            builder.metric_handle() == layer_only.metric_handle(),
    {
        match &layer_only.metric_prefix {
            Some(prefix) => {
                set_prefix(names, prefix.as_str());
            },
            None => {},
        }
        let descriptions = if !layer_only.no_initialize_metrics {
            describe_metrics(names, layer_only.enable_body_size)
        } else {
            Vec::new()
        };
        proof {
            if layer_only.no_initialize_metrics {
                assert(descriptions.deep_view() =~= Seq::<MetricDescriptionView>::empty());
            }
        }
        MetricLayerBuilder {
            _marker: PhantomData,
            traffic: layer_only.traffic,
            metric_handle: layer_only.metric_handle,
            no_initialize_metrics: layer_only.no_initialize_metrics,
            metric_prefix: layer_only.metric_prefix,
            enable_body_size: layer_only.enable_body_size,
            descriptions,
        }
    }

    /// Gives the builder `handle` in place of the handle that it holds.
    pub fn with_handle(self, handle: T) -> (builder: Self)
        ensures
            builder.metric_handle() == Some(handle),
            builder.traffic() == self.traffic(),
            builder.metric_prefix() == self.metric_prefix(),
            builder.tracks_body_size() == self.tracks_body_size(),
            builder.initializes_metrics() == self.initializes_metrics(),
            builder.described() == self.described(),
    {
        let mut builder = self;
        builder.metric_handle = Some(handle);
        builder
    }

    /// The layer that the builder describes, and the handle of the
    /// exporter.
    pub fn build_pair(self) -> (pair: (GenericMetricLayer<'a, T, M, F>, T)) where
        M: MakeDefaultHandle<Out = T> + Default,

        ensures
            pair.0.traffic() == self.traffic(),
            pair.0.tracks_body_size() == self.tracks_body_size(),
            pair.0.learns_exact_size() == self.tracks_body_size(),
            self.metric_handle() matches Some(handle) ==> pair.1 == handle,
            self.metric_handle() is None ==> made_by_default::<T, M>(pair.1),
    {
        GenericMetricLayer::pair_from_builder(self)
    }
}

} // verus!
