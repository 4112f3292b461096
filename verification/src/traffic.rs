//! The callbacks that turn the lifecycle of a request into metrics.
//!
//! A request that is not ignored moves the gauge of requests in flight up
//! when it is received, and down again when its response is there, or when
//! its handler has failed; the response also counts the request and observes
//! how long it took. An ignored request is given no state, and every hook
//! that finds no state does nothing.

use crate::builder::EndpointLabel;
use crate::lifecycle::{Callbacks, ClassifiedResponse, FailedAt, OnBodyChunk, OnExactBodySize};
use crate::message::{RequestHead, ResponseHead, Trailers};
use crate::metric::{Labels, LabelsView, MetricEvent, MetricEventView, MetricFamily};
use crate::routes::{
    all_admissible, check_all_admissible, clone_router, find_route, insert_route,
    insert_routes, new_router, pattern_views, route_accepted, route_matches, router_routes,
    routes_accepted, same_text, admissible,
};
use crate::utils::{as_label, spec_as_label};
use vstd::prelude::*;

verus! {

/// A group of route patterns that are reported under one label.
pub struct Group {
    /// The label under which the group is reported.
    pub label: Seq<char>,
    /// The route patterns of the group.
    pub routes: Seq<Seq<char>>,
}

/// The label of the first group of `groups` that has a route for `path`.
pub open spec fn first_group(groups: Seq<Group>, path: Seq<char>) -> Option<Seq<char>>
    decreases groups.len(),
{
    if groups.len() == 0 {
        None
    } else if route_matches(groups[0].routes, path) {
        Some(groups[0].label)
    } else {
        first_group(groups.skip(1), path)
    }
}

/// The place of the group of `groups` that is reported as `label`, or the
/// number of groups where none is.
pub open spec fn group_index(groups: Seq<Group>, label: Seq<char>) -> int
    decreases groups.len(),
{
    if groups.len() == 0 {
        0
    } else if groups[0].label == label {
        0
    } else {
        1 + group_index(groups.skip(1), label)
    }
}

/// Whether no two groups of `groups` are reported under the same label.
pub open spec fn distinct_labels(groups: Seq<Group>) -> bool {
    forall|i: int, j: int| 0 <= i < j < groups.len() ==> groups[i].label != groups[j].label
}

/// The routes of the group of `groups` that is reported as `label`, and no
/// routes where no group is.
pub open spec fn group_routes(groups: Seq<Group>, label: Seq<char>) -> Seq<Seq<char>> {
    let i = group_index(groups, label);
    if i < groups.len() {
        groups[i].routes
    } else {
        Seq::empty()
    }
}

/// `groups` after `patterns` were added to the group that is reported as
/// `label`: to the group of that label where there is one, and to a new
/// group, which comes last, where there is none.
pub open spec fn with_group(groups: Seq<Group>, label: Seq<char>, patterns: Seq<Seq<char>>) -> Seq<Group> {
    let i = group_index(groups, label);
    if i < groups.len() {
        groups.update(i, Group { label, routes: groups[i].routes + patterns })
    } else {
        groups.push(Group { label, routes: patterns })
    }
}

/// The time from `start` to `now`, and none where the clock went back.
pub open spec fn elapsed(start: u128, now: u128) -> u128 {
    if now >= start {
        (now - start) as u128
    } else {
        0
    }
}

/// The labels of a sample.
pub open spec fn labels(method: Seq<char>, status: Option<u16>, endpoint: Seq<char>) -> LabelsView {
    LabelsView { method, status, endpoint }
}

/// What a request that is received asks to record: one more request in
/// flight.
pub open spec fn started(method: Seq<char>, endpoint: Seq<char>) -> Seq<MetricEventView> {
    seq![
        MetricEventView::GaugeDelta {
            family: MetricFamily::RequestsPending,
            delta: 1i64,
            labels: labels(method, None, endpoint),
        },
    ]
}

/// What the end of a request's time in flight asks to record: one request
/// less in flight.
pub open spec fn landed(method: Seq<char>, endpoint: Seq<char>) -> Seq<MetricEventView> {
    seq![
        MetricEventView::GaugeDelta {
            family: MetricFamily::RequestsPending,
            delta: -1i64,
            labels: labels(method, None, endpoint),
        },
    ]
}

/// What a response asks to record: one request less in flight and one more
/// request handled, both under the method and the endpoint, and the time
/// that it took, under the method, the status and the endpoint.
pub open spec fn finished(method: Seq<char>, endpoint: Seq<char>, status: u16, nanos: u128) -> Seq<
    MetricEventView,
> {
    seq![
        MetricEventView::GaugeDelta {
            family: MetricFamily::RequestsPending,
            delta: -1i64,
            labels: labels(method, None, endpoint),
        },
        MetricEventView::IncrementCounter {
            family: MetricFamily::RequestsTotal,
            labels: labels(method, None, endpoint),
        },
        MetricEventView::RecordDuration {
            family: MetricFamily::RequestsDuration,
            nanos,
            labels: labels(method, Some(status), endpoint),
        },
    ]
}

/// What a body size asks to record: the size, under the method, the status
/// of the response and the endpoint.
pub open spec fn measured(method: Seq<char>, status: Option<u16>, endpoint: Seq<char>, bytes: u64) -> Seq<
    MetricEventView,
> {
    seq![
        MetricEventView::RecordSize {
            family: MetricFamily::ResponseBodySize,
            bytes,
            labels: labels(method, status, endpoint),
        },
    ]
}

/// The state of one request that is reported.
#[derive(Debug, Clone)]
pub struct MetricsData {
    /// The endpoint label of the request.
    pub endpoint: String,
    /// The reading of the host's clock, in nanoseconds, when the request was
    /// received.
    pub start: u128,
    /// The method label of the request.
    pub method: &'static str,
    /// The status of the response, once there is a response.
    pub status: Option<u16>,
    /// The size of the response body, in bytes, as far as it is known.
    pub body_size: u64,
    /// Whether the exact size of the response body was recorded.
    pub exact_body_size_called: bool,
}

/// The callbacks of the metrics layer: which requests are ignored, which are
/// reported together, and how an endpoint is named.
pub struct Traffic<'a, F: Fn(&str) -> String + Copy> {
    ignore_patterns: matchit::Router<()>,
    group_patterns: Vec<(&'a str, matchit::Router<()>)>,
    endpoint_label: EndpointLabel<F>,
}

impl<'a, F: Fn(&str) -> String + Copy> Traffic<'a, F> {
    /// The fallback function can be called on every path, and no two groups
    /// share a label.
    #[verifier::type_invariant]
    spec fn well_formed(self) -> bool {
        &&& self.endpoint_label.is_total()
        &&& distinct_labels(self.groups())
    }

    /// The route patterns that are ignored.
    pub closed spec fn ignore_routes(self) -> Seq<Seq<char>> {
        router_routes(self.ignore_patterns)
    }

    /// The groups, in the order in which they were first named.
    pub closed spec fn groups(self) -> Seq<Group> {
        Seq::new(
            self.group_patterns.len() as nat,
            |i: int|
                Group {
                    label: self.group_patterns[i].0@,
                    routes: router_routes(self.group_patterns[i].1),
                },
        )
    }

    /// How endpoints are named.
    pub closed spec fn endpoint_label(self) -> EndpointLabel<F> {
        self.endpoint_label
    }

    /// Whether a request for `path` is ignored: whether the ignored route
    /// patterns hold a route for it.
    pub open spec fn spec_ignores(self, path: Seq<char>) -> bool {
        route_matches(self.ignore_routes(), path)
    }

    /// The label under which `path` is reported: that of the first group
    /// that has a route for it, and `path` itself where no group has.
    pub open spec fn spec_apply_group_pattern(self, path: Seq<char>) -> Seq<char> {
        match first_group(self.groups(), path) {
            Some(label) => label,
            None => path,
        }
    }

    /// Whether `label` names the endpoint of `request` before groups are
    /// applied: the requested path, the route template that the host
    /// matched, or what the fallback function gives for the path.
    pub open spec fn endpoint_resolved(self, request: RequestHead, label: Seq<char>) -> bool {
        match (self.endpoint_label(), request.matched_path) {
            (EndpointLabel::Exact, _) => label == request.path@,
            (_, Some(matched)) => label == matched@,
            (EndpointLabel::MatchedPath, None) => label == request.path@,
            (EndpointLabel::MatchedPathWithFallbackFn(f), None) => exists|path: &str, given: String|
                path@ == request.path@ && #[trigger] call_ensures(f, (path,), given) && label
                    == given@,
        }
    }

    /// Whether `request` is reported under `endpoint`: whether `endpoint` is
    /// what the groups make of a label that names the request's endpoint.
    pub open spec fn reports_as(self, request: RequestHead, endpoint: Seq<char>) -> bool {
        exists|label: Seq<char>| #[trigger]
            self.endpoint_resolved(request, label) && endpoint == self.spec_apply_group_pattern(
                label,
            )
    }

    /// Callbacks that ignore nothing, group nothing, and name an endpoint by
    /// its matched path.
    pub fn new() -> (traffic: Self)
        ensures
            traffic.ignore_routes() == Seq::<Seq<char>>::empty(),
            traffic.groups() == Seq::<Group>::empty(),
            traffic.endpoint_label() is MatchedPath,
            forall|path: Seq<char>| !#[trigger] traffic.spec_ignores(path),
    {
        let traffic = Traffic {
            ignore_patterns: new_router(),
            group_patterns: Vec::new(),
            endpoint_label: EndpointLabel::MatchedPath,
        };
        proof {
            assert(traffic.groups() =~= Seq::<Group>::empty());
        }
        traffic
    }

    /// Ignores the requests that `ignore_pattern` matches.
    ///
    /// The pattern must be admissible, which leaves out text outside ASCII,
    /// and the ignored route patterns must take it as one more route.
    pub fn with_ignore_pattern(&mut self, ignore_pattern: &'a str)
        requires
            admissible(ignore_pattern),
            route_accepted(old(self).ignore_routes(), ignore_pattern@),
        ensures
            final(self).ignore_routes() == old(self).ignore_routes().push(ignore_pattern@),
            final(self).groups() == old(self).groups(),
            final(self).endpoint_label() == old(self).endpoint_label(),
    {
        proof {
            use_type_invariant(&*self);
        }
        let router = clone_router(&self.ignore_patterns);
        match insert_route(router, ignore_pattern) {
            Some(grown) => {
                self.ignore_patterns = grown;
            },
            None => {},
        }
    }

    /// Ignores the requests that any of `ignore_patterns` matches.
    ///
    /// The patterns must be admissible, which leaves out text outside
    /// ASCII, and the ignored route patterns must take them, one after the
    /// other.
    pub fn with_ignore_patterns(&mut self, ignore_patterns: &'a [&'a str])
        requires
            all_admissible(ignore_patterns@),
            routes_accepted(old(self).ignore_routes(), pattern_views(ignore_patterns@)),
        ensures
            final(self).ignore_routes() == old(self).ignore_routes() + pattern_views(
                ignore_patterns@,
            ),
            final(self).groups() == old(self).groups(),
            final(self).endpoint_label() == old(self).endpoint_label(),
    {
        proof {
            use_type_invariant(&*self);
        }
        let router = clone_router(&self.ignore_patterns);
        match insert_routes(router, ignore_patterns) {
            Some(grown) => {
                self.ignore_patterns = grown;
            },
            None => {},
        }
    }

    /// Whether `with_ignore_patterns` can be called with `ignore_patterns`:
    /// whether they are admissible and the ignored route
    /// patterns take them, one after the other. The routes stay as they are.
    pub fn accepts_ignore_patterns(&self, ignore_patterns: &[&str]) -> (accepted: bool)
        ensures
            accepted == (all_admissible(ignore_patterns@) && routes_accepted(
                self.ignore_routes(),
                pattern_views(ignore_patterns@),
            )),
    {
        check_all_admissible(ignore_patterns) && insert_routes(
            clone_router(&self.ignore_patterns),
            ignore_patterns,
        ).is_some()
    }

    /// A copy of the groups.
    fn copy_groups(&self) -> (copy: Vec<(&'a str, matchit::Router<()>)>)
        ensures
            copy.len() == self.group_patterns.len(),
            forall|k: int|
                0 <= k < copy.len() ==> (#[trigger] copy[k]).0@ == self.group_patterns[k].0@
                    && router_routes(copy[k].1) == router_routes(self.group_patterns[k].1),
    {
        let mut copy: Vec<(&'a str, matchit::Router<()>)> = Vec::new();
        let mut i: usize = 0;
        while i < self.group_patterns.len()
            invariant
                i <= self.group_patterns.len(),
                copy.len() == i,
                forall|k: int|
                    0 <= k < i ==> (#[trigger] copy[k]).0@ == self.group_patterns[k].0@
                        && router_routes(copy[k].1) == router_routes(self.group_patterns[k].1),
            decreases self.group_patterns.len() - i,
        {
            copy.push((self.group_patterns[i].0, clone_router(&self.group_patterns[i].1)));
            i += 1;
        }
        copy
    }

    /// The place of the group that is reported as `label`.
    fn find_group(&self, label: &str) -> (i: usize)
        ensures
            i == group_index(self.groups(), label@),
            i <= self.groups().len(),
            i < self.groups().len() ==> self.groups()[i as int].label == label@,
    {
        let mut i: usize = 0;
        proof {
            assert(self.groups().skip(0) =~= self.groups());
        }
        while i < self.group_patterns.len()
            invariant
                i <= self.group_patterns.len(),
                self.groups().len() == self.group_patterns.len(),
                group_index(self.groups(), label@) == i + group_index(
                    self.groups().skip(i as int),
                    label@,
                ),
            decreases self.group_patterns.len() - i,
        {
            proof {
                assert(self.groups().skip(i as int)[0] == self.groups()[i as int]);
                assert(self.groups().skip(i as int).skip(1) =~= self.groups().skip(i + 1));
            }
            if same_text(self.group_patterns[i].0, label) {
                return i;
            }
            i += 1;
        }
        i
    }

    /// Reports the requests that any of `patterns` matches under
    /// `group_pattern`. Where requests are reported under that label
    /// already, the patterns join those of the label.
    ///
    /// The patterns must be admissible, which leaves out text outside
    /// ASCII, and the route patterns of the label must take them, one after
    /// the other. The label itself can be any text.
    pub fn with_group_patterns_as(&mut self, group_pattern: &'a str, patterns: &'a [&'a str])
        requires
            all_admissible(patterns@),
            routes_accepted(
                group_routes(old(self).groups(), group_pattern@),
                pattern_views(patterns@),
            ),
        ensures
            final(self).groups() == with_group(
                old(self).groups(),
                group_pattern@,
                pattern_views(patterns@),
            ),
            distinct_labels(final(self).groups()),
            final(self).ignore_routes() == old(self).ignore_routes(),
            final(self).endpoint_label() == old(self).endpoint_label(),
    {
        proof {
            use_type_invariant(&*self);
        }
        let i = self.find_group(group_pattern);
        if i < self.group_patterns.len() {
            let router = clone_router(&self.group_patterns[i].1);
            match insert_routes(router, patterns) {
                Some(grown) => {
                    let ghost before = self.groups();
                    let mut groups = self.copy_groups();
                    groups.set(i, (group_pattern, grown));
                    proof {
                        assert forall|j: int, k: int| 0 <= j < k < groups.len() implies groups[j].0@
                            != groups[k].0@ by {
                            assert(before[j].label != before[k].label);
                        }
                    }
                    self.group_patterns = groups;
                    proof {
                        assert(self.groups() =~= with_group(
                            before,
                            group_pattern@,
                            pattern_views(patterns@),
                        ));
                    }
                },
                None => {},
            }
        } else {
            match insert_routes(new_router(), patterns) {
                Some(grown) => {
                    let ghost before = self.groups();
                    proof {
                        lemma_group_index_absent(before, group_pattern@);
                    }
                    let mut groups = self.copy_groups();
                    groups.push((group_pattern, grown));
                    proof {
                        assert forall|j: int, k: int| 0 <= j < k < groups.len() implies groups[j].0@
                            != groups[k].0@ by {
                            assert(before[j].label != group_pattern@);
                            if k < before.len() {
                                assert(before[j].label != before[k].label);
                            }
                        }
                    }
                    self.group_patterns = groups;
                    proof {
                        assert(Seq::<Seq<char>>::empty() + pattern_views(patterns@) =~= pattern_views(
                            patterns@,
                        ));
                        assert(self.groups() =~= with_group(
                            before,
                            group_pattern@,
                            pattern_views(patterns@),
                        ));
                    }
                },
                None => {},
            }
        }
    }

    /// Whether `with_group_patterns_as` can be called with `group_pattern`
    /// and `patterns`: whether the patterns are admissible
    /// and the route patterns that are reported as `group_pattern` take
    /// them, one after the other. The routes stay as they are.
    pub fn accepts_group_patterns(&self, group_pattern: &str, patterns: &[&str]) -> (accepted: bool)
        ensures
            accepted == (all_admissible(patterns@) && routes_accepted(
                group_routes(self.groups(), group_pattern@),
                pattern_views(patterns@),
            )),
    {
        if !check_all_admissible(patterns) {
            return false;
        }
        let i = self.find_group(group_pattern);
        let router = if i < self.group_patterns.len() {
            clone_router(&self.group_patterns[i].1)
        } else {
            new_router()
        };
        insert_routes(router, patterns).is_some()
    }

    /// Whether a request for `path` is ignored.
    pub fn ignores(&self, path: &str) -> (ignored: bool)
        ensures
            ignored == self.spec_ignores(path@),
    {
        find_route(&self.ignore_patterns, path)
    }

    /// The label under which `path` is reported.
    pub fn apply_group_pattern<'p>(&'p self, path: &'p str) -> (label: &'p str)
        ensures
            label@ == self.spec_apply_group_pattern(path@),
    {
        let mut i: usize = 0;
        proof {
            assert(self.groups().skip(0) =~= self.groups());
        }
        while i < self.group_patterns.len()
            invariant
                i <= self.group_patterns.len(),
                self.groups().len() == self.group_patterns.len(),
                first_group(self.groups(), path@) == first_group(
                    self.groups().skip(i as int),
                    path@,
                ),
            decreases self.group_patterns.len() - i,
        {
            proof {
                assert(self.groups().skip(i as int)[0] == self.groups()[i as int]);
                assert(self.groups().skip(i as int).skip(1) =~= self.groups().skip(i + 1));
            }
            if find_route(&self.group_patterns[i].1, path) {
                return self.group_patterns[i].0;
            }
            i += 1;
        }
        path
    }

    /// Names endpoints as `endpoint_label` says.
    ///
    /// A fallback function must be one that can be called on every path.
    pub fn with_endpoint_label_type(&mut self, endpoint_label: EndpointLabel<F>)
        requires
            endpoint_label.is_total(),
        ensures
            final(self).endpoint_label() == endpoint_label,
            final(self).ignore_routes() == old(self).ignore_routes(),
            final(self).groups() == old(self).groups(),
    {
        proof {
            use_type_invariant(&*self);
        }
        self.endpoint_label = endpoint_label;
    }

    /// The label that names the endpoint of `request` before groups are
    /// applied.
    fn resolve_endpoint(&self, request: &RequestHead) -> (label: String)
        ensures
            self.endpoint_resolved(*request, label@),
    {
        proof {
            use_type_invariant(self);
        }
        match &self.endpoint_label {
            EndpointLabel::Exact => request.path.clone(),
            EndpointLabel::MatchedPath => match &request.matched_path {
                Some(matched) => matched.clone(),
                None => request.path.clone(),
            },
            EndpointLabel::MatchedPathWithFallbackFn(f) => match &request.matched_path {
                Some(matched) => matched.clone(),
                None => {
                    let path = request.path.as_str();
                    let given = f(path);
                    proof {
                        assert(call_ensures(*f, (path,), given));
                    }
                    given
                },
            },
        }
    }
}

/// A label that no group carries has no place among the groups.
proof fn lemma_group_index_absent(groups: Seq<Group>, label: Seq<char>)
    requires
        group_index(groups, label) >= groups.len(),
    ensures
        group_index(groups, label) == groups.len(),
        forall|i: int| 0 <= i < groups.len() ==> (#[trigger] groups[i]).label != label,
    decreases groups.len(),
{
    if groups.len() > 0 {
        lemma_group_index_absent(groups.skip(1), label);
        assert forall|i: int| 0 <= i < groups.len() implies (#[trigger] groups[i]).label
            != label by {
            if i > 0 {
                assert(groups[i] == groups.skip(1)[i - 1]);
            }
        }
    }
}

impl<'a, F: Fn(&str) -> String + Copy> Default for Traffic<'a, F> {
    fn default() -> (traffic: Self)
        ensures
            traffic.ignore_routes() == Seq::<Seq<char>>::empty(),
            traffic.groups() == Seq::<Group>::empty(),
            traffic.endpoint_label() is MatchedPath,
            forall|path: Seq<char>| !#[trigger] traffic.spec_ignores(path),
    {
        Traffic::new()
    }
}

impl<'a, F: Fn(&str) -> String + Copy> Clone for Traffic<'a, F> {
    fn clone(&self) -> (copy: Self)
        ensures
            copy.ignore_routes() == self.ignore_routes(),
            copy.groups() == self.groups(),
            copy.endpoint_label() == self.endpoint_label(),
    {
        proof {
            use_type_invariant(self);
        }
        let group_patterns = self.copy_groups();
        let ghost groups = Seq::new(
            group_patterns.len() as nat,
            |i: int|
                Group { label: group_patterns[i].0@, routes: router_routes(group_patterns[i].1) },
        );
        proof {
            assert(groups =~= self.groups());
        }
        let copy = Traffic {
            ignore_patterns: clone_router(&self.ignore_patterns),
            group_patterns,
            endpoint_label: self.endpoint_label.clone(),
        };
        proof {
            assert(copy.groups() =~= self.groups());
        }
        copy
    }
}

/// The labels of a sample, from their parts.
fn make_labels(method: &str, status: Option<u16>, endpoint: &String) -> (made: Labels)
    ensures
        made@ == labels(method@, status, endpoint@),
{
    Labels { method: method.to_owned(), status, endpoint: endpoint.clone() }
}

impl<'a, F: Fn(&str) -> String + Copy> Traffic<'a, F> {
    /// What `prepare` hands back for `request`: nothing for a request that
    /// is ignored, and else the state of a request that was received when
    /// `request` says, under the endpoint label that the groups make of the
    /// request's endpoint, together with one more request in flight.
    pub open spec fn prepares(self, request: RequestHead, data: Option<MetricsData>, metrics: Seq<MetricEventView>) -> bool {
        if self.spec_ignores(request.path@) {
            &&& data is None
            &&& metrics =~= Seq::<MetricEventView>::empty()
        } else {
            &&& data is Some
            &&& self.reports_as(request, data->0.endpoint@)
            &&& data->0.method@ == spec_as_label(request.method)
            &&& data->0.start == request.received_at
            &&& data->0.status is None
            &&& data->0.body_size == 0
            &&& !data->0.exact_body_size_called
            &&& metrics =~= started(data->0.method@, data->0.endpoint@)
        }
    }
}

/// The state of a request once `response` is there: the state with the
/// status of the response.
pub open spec fn with_status(response: ResponseHead, data: Option<MetricsData>) -> Option<MetricsData> {
    match data {
        None => None,
        Some(d) => Some(MetricsData { status: Some(response.status), ..d }),
    }
}

/// What `on_failure` of `Traffic` asks to record: one request less in
/// flight where the handler failed, since then no response has moved the
/// gauge down; nothing for a failure of the body or of the trailers, which
/// comes after the response; and nothing for a request without state.
pub open spec fn failure_metrics(failed_at: FailedAt, data: Option<MetricsData>) -> Seq<MetricEventView> {
    match data {
        Some(d) if failed_at is Response => landed(d.method@, d.endpoint@),
        _ => Seq::empty(),
    }
}

/// What `on_response` of `Traffic` asks to record for `response`: nothing
/// for a request without state, and else one request less in flight, one
/// more request handled, and the time from the request to the response.
pub open spec fn response_metrics(response: ResponseHead, data: Option<MetricsData>) -> Seq<
    MetricEventView,
> {
    match data {
        None => Seq::empty(),
        Some(d) => finished(
            d.method@,
            d.endpoint@,
            response.status,
            elapsed(d.start, response.produced_at),
        ),
    }
}

impl<'a, FailureClass, F: Fn(&str) -> String + Copy> Callbacks<FailureClass> for Traffic<'a, F> {
    type Data = Option<MetricsData>;

    open spec fn prepared(
        before: Self,
        request: RequestHead,
        after: Self,
        data: Self::Data,
        metrics: Seq<MetricEventView>,
    ) -> bool {
        &&& after == before
        &&& before.prepares(request, data, metrics)
    }

    open spec fn responded(
        before: Self,
        response: ResponseHead,
        classification: ClassifiedResponse<FailureClass, ()>,
        data: Self::Data,
        after: Self,
        data_after: Self::Data,
        metrics: Seq<MetricEventView>,
    ) -> bool {
        &&& after == before
        &&& data_after == with_status(response, data)
        &&& metrics =~= response_metrics(response, data)
    }

    open spec fn ended(
        callbacks: Self,
        trailers: Option<Trailers>,
        classification: Result<(), FailureClass>,
        data: Self::Data,
        metrics: Seq<MetricEventView>,
    ) -> bool {
        metrics =~= Seq::<MetricEventView>::empty()
    }

    open spec fn failed(
        callbacks: Self,
        failed_at: FailedAt,
        failure_classification: FailureClass,
        data: Self::Data,
        data_after: Self::Data,
        metrics: Seq<MetricEventView>,
    ) -> bool {
        &&& data_after == data
        &&& metrics =~= failure_metrics(failed_at, data)
    }

    /// Gives a request that is not ignored its state and counts it as in
    /// flight. An ignored request gets no state.
    fn prepare(&mut self, request: &RequestHead) -> (out: (Self::Data, Vec<MetricEvent>)) {
        if self.ignores(request.path.as_str()) {
            return (None, Vec::new());
        }
        let label = self.resolve_endpoint(request);
        let endpoint = self.apply_group_pattern(label.as_str()).to_owned();
        let method = as_label(&request.method);
        proof {
            assert(self.endpoint_resolved(*request, label@));
            assert(self.reports_as(*request, endpoint@));
        }
        let mut metrics = Vec::new();
        metrics.push(
            MetricEvent::GaugeDelta {
                family: MetricFamily::RequestsPending,
                delta: 1,
                labels: make_labels(method, None, &endpoint),
            },
        );
        let data = MetricsData {
            endpoint,
            start: request.received_at,
            method,
            status: None,
            body_size: 0,
            exact_body_size_called: false,
        };
        proof {
            assert(metrics.deep_view() =~= started(data.method@, data.endpoint@));
        }
        (Some(data), metrics)
    }

    /// Counts the request as handled and no longer in flight, observes the
    /// time that it took, and notes the status of the response in the
    /// request's state. Does nothing for a request without state.
    fn on_response(
        &mut self,
        response: &ResponseHead,
        classification: ClassifiedResponse<FailureClass, ()>,
        data: &mut Self::Data,
    ) -> (metrics: Vec<MetricEvent>) {
        match data {
            Some(data) => {
                let nanos = if response.produced_at >= data.start {
                    response.produced_at - data.start
                } else {
                    0
                };
                let mut metrics = Vec::new();
                metrics.push(
                    MetricEvent::GaugeDelta {
                        family: MetricFamily::RequestsPending,
                        delta: -1,
                        labels: make_labels(data.method, None, &data.endpoint),
                    },
                );
                metrics.push(
                    MetricEvent::IncrementCounter {
                        family: MetricFamily::RequestsTotal,
                        labels: make_labels(data.method, None, &data.endpoint),
                    },
                );
                metrics.push(
                    MetricEvent::RecordDuration {
                        family: MetricFamily::RequestsDuration,
                        nanos,
                        labels: make_labels(data.method, Some(response.status), &data.endpoint),
                    },
                );
                proof {
                    assert(metrics.deep_view() =~= finished(
                        data.method@,
                        data.endpoint@,
                        response.status,
                        elapsed(data.start, response.produced_at),
                    ));
                }
                data.status = Some(response.status);
                metrics
            },
            None => Vec::new(),
        }
    }

    /// Does nothing.
    fn on_eos(
        self,
        trailers: Option<&Trailers>,
        classification: Result<(), FailureClass>,
        data: Self::Data,
    ) -> (metrics: Vec<MetricEvent>) {
        Vec::new()
    }

    /// Counts a request whose handler failed as no longer in flight. Does
    /// nothing for a failure of the body or of the trailers, where the
    /// response has done so, and nothing for a request without state.
    fn on_failure(
        self,
        failed_at: FailedAt,
        failure_classification: FailureClass,
        data: &mut Self::Data,
    ) -> (metrics: Vec<MetricEvent>) {
        match (failed_at, data) {
            (FailedAt::Response, Some(data)) => {
                let mut metrics = Vec::new();
                metrics.push(
                    MetricEvent::GaugeDelta {
                        family: MetricFamily::RequestsPending,
                        delta: -1,
                        labels: make_labels(data.method, None, &data.endpoint),
                    },
                );
                proof {
                    assert(metrics.deep_view() =~= landed(data.method@, data.endpoint@));
                }
                metrics
            },
            _ => Vec::new(),
        }
    }
}

/// The hook that tracks the size of response bodies.
#[derive(Clone, Copy, Debug)]
pub struct BodySizeRecorder;

/// What the exact size `size` of a body does to the state of a request:
/// the first time, it becomes the body's size and is recorded; after that,
/// and for a request without state, nothing happens.
pub open spec fn exact_size_recorded(
    size: u64,
    data: Option<MetricsData>,
    data_after: Option<MetricsData>,
    metrics: Seq<MetricEventView>,
) -> bool {
    match data {
        Some(d) if !d.exact_body_size_called => {
            &&& data_after == Some(MetricsData { body_size: size, exact_body_size_called: true, ..d })
            &&& metrics =~= measured(d.method@, d.status, d.endpoint@, size)
        },
        _ => {
            &&& data_after == data
            &&& metrics =~= Seq::<MetricEventView>::empty()
        },
    }
}

/// What a chunk of `chunk_len` bytes does to the state of a request where
/// the exact size of the body is unknown: the chunk's length is added to
/// the body's size, which stops at the largest number of 64 bits, and the
/// sum is recorded. For a request without state nothing happens.
pub open spec fn chunk_recorded(
    chunk_len: usize,
    data: Option<MetricsData>,
    data_after: Option<MetricsData>,
    metrics: Seq<MetricEventView>,
) -> bool {
    match data {
        Some(d) => {
            let total = d.body_size.saturating_add(chunk_len as u64);
            &&& data_after == Some(MetricsData { body_size: total, ..d })
            &&& metrics =~= measured(d.method@, d.status, d.endpoint@, total)
        },
        None => {
            &&& data_after == data
            &&& metrics =~= Seq::<MetricEventView>::empty()
        },
    }
}

impl BodySizeRecorder {
    /// Records the exact size of a body, the first time that it is told.
    fn record_exact(size: u64, data: &mut Option<MetricsData>) -> (metrics: Vec<MetricEvent>)
        ensures
            exact_size_recorded(size, *old(data), *final(data), metrics.deep_view()),
    {
        match data {
            Some(metrics_data) => {
                if !metrics_data.exact_body_size_called {
                    metrics_data.exact_body_size_called = true;
                    metrics_data.body_size = size;
                    let mut metrics = Vec::new();
                    metrics.push(
                        MetricEvent::RecordSize {
                            family: MetricFamily::ResponseBodySize,
                            bytes: size,
                            labels: make_labels(metrics_data.method, metrics_data.status, &metrics_data.endpoint),
                        },
                    );
                    proof {
                        assert(metrics.deep_view() =~= measured(
                            metrics_data.method@,
                            metrics_data.status,
                            metrics_data.endpoint@,
                            size,
                        ));
                    }
                    metrics
                } else {
                    Vec::new()
                }
            },
            None => Vec::new(),
        }
    }
}

impl OnBodyChunk for BodySizeRecorder {
    type Data = Option<MetricsData>;

    open spec fn observed(
        before: Self,
        chunk_len: usize,
        exact_body_size: Option<u64>,
        data: Self::Data,
        after: Self,
        data_after: Self::Data,
        metrics: Seq<MetricEventView>,
    ) -> bool {
        match exact_body_size {
            Some(size) => exact_size_recorded(size, data, data_after, metrics),
            None => chunk_recorded(chunk_len, data, data_after, metrics),
        }
    }

    /// Where the exact size of the body is known, records it, once. Where
    /// it is not, adds up the chunks and records the sum with every chunk.
    fn call(&mut self, chunk_len: usize, exact_body_size: Option<u64>, data: &mut Self::Data) -> (metrics:
        Vec<MetricEvent>) {
        match exact_body_size {
            Some(exact_size) => Self::record_exact(exact_size, data),
            None => match data {
                Some(metrics_data) => {
                    metrics_data.body_size = metrics_data.body_size.saturating_add(chunk_len as u64);
                    let mut metrics = Vec::new();
                    metrics.push(
                        MetricEvent::RecordSize {
                            family: MetricFamily::ResponseBodySize,
                            bytes: metrics_data.body_size,
                            labels: make_labels(metrics_data.method, metrics_data.status, &metrics_data.endpoint),
                        },
                    );
                    proof {
                        assert(metrics.deep_view() =~= measured(
                            metrics_data.method@,
                            metrics_data.status,
                            metrics_data.endpoint@,
                            metrics_data.body_size,
                        ));
                    }
                    metrics
                },
                None => Vec::new(),
            },
        }
    }
}

impl OnExactBodySize for BodySizeRecorder {
    type Data = Option<MetricsData>;

    open spec fn sized(
        before: Self,
        size: u64,
        data: Self::Data,
        after: Self,
        data_after: Self::Data,
        metrics: Seq<MetricEventView>,
    ) -> bool {
        exact_size_recorded(size, data, data_after, metrics)
    }

    /// Records the exact size of the body, once.
    fn call(&mut self, size: u64, data: &mut Self::Data) -> (metrics: Vec<MetricEvent>) {
        Self::record_exact(size, data)
    }
}

} // verus!
