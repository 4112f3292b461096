use axum_prometheus::lifecycle::{Callbacks, ClassifiedResponse, FailedAt, OnBodyChunk, OnExactBodySize};
use axum_prometheus::message::{Method, RequestHead, ResponseHead};
use axum_prometheus::metric::{Labels, MetricEvent, MetricFamily};
use axum_prometheus::routes::{
    check_admissible, check_all_admissible, check_parameter_limit, same_text,
};
use axum_prometheus::{BodySizeRecorder, EndpointLabel, MetricsData, Traffic};

type Fallback = fn(&str) -> String;

type Hooks<'a> = Traffic<'a, Fallback>;

fn request(method: Method, path: &str, matched_path: Option<&str>, received_at: u128) -> RequestHead {
    RequestHead {
        method,
        path: path.to_string(),
        matched_path: matched_path.map(|m| m.to_string()),
        received_at,
    }
}

fn response(status: u16, produced_at: u128) -> ResponseHead {
    ResponseHead { status, content_length: None, produced_at }
}

fn labels(method: &str, status: Option<u16>, endpoint: &str) -> Labels {
    Labels { method: method.to_string(), status, endpoint: endpoint.to_string() }
}

fn prepare(traffic: &mut Hooks<'_>, request: &RequestHead) -> (Option<MetricsData>, Vec<MetricEvent>) {
    <Hooks<'_> as Callbacks<()>>::prepare(traffic, request)
}

fn on_response(
    traffic: &mut Hooks<'_>,
    response: &ResponseHead,
    data: &mut Option<MetricsData>,
) -> Vec<MetricEvent> {
    <Hooks<'_> as Callbacks<()>>::on_response(traffic, response, ClassifiedResponse::Ready(Ok(())), data)
}

#[test]
fn new_traffic_ignores_nothing_and_groups_nothing() {
    let traffic = Hooks::new();
    assert!(!traffic.ignores("/"));
    assert!(!traffic.ignores("/metrics"));
    assert_eq!(traffic.apply_group_pattern("/foo/1"), "/foo/1");
    let default = Hooks::default();
    assert!(!default.ignores("/metrics"));
}

#[test]
fn ignore_pattern_matches_its_route_only() {
    let mut traffic = Hooks::new();
    traffic.with_ignore_pattern("/metrics");
    assert!(traffic.ignores("/metrics"));
    assert!(!traffic.ignores("/metrics/"));
    assert!(!traffic.ignores("/metric"));
    assert!(!traffic.ignores("/"));
    assert!(!traffic.ignores(""));
}

#[test]
fn ignore_patterns_take_parameters_and_catch_alls() {
    let mut traffic = Hooks::new();
    traffic.with_ignore_patterns(&["/foo", "/bar/:baz", "/static/*path"]);
    assert!(traffic.ignores("/foo"));
    assert!(traffic.ignores("/bar/1"));
    assert!(traffic.ignores("/bar/anything"));
    assert!(!traffic.ignores("/bar"));
    assert!(!traffic.ignores("/bar/1/2"));
    assert!(traffic.ignores("/static/css/site.css"));
    assert!(!traffic.ignores("/other"));
}

#[test]
fn group_patterns_report_their_routes_under_the_group() {
    let mut traffic = Hooks::new();
    traffic.with_group_patterns_as("/foo", &["/foo/:bar", "/foo/:bar/:baz"]);
    assert_eq!(traffic.apply_group_pattern("/foo/1"), "/foo");
    assert_eq!(traffic.apply_group_pattern("/foo/1/2"), "/foo");
    assert_eq!(traffic.apply_group_pattern("/foo"), "/foo");
    assert_eq!(traffic.apply_group_pattern("/foo/1/2/3"), "/foo/1/2/3");
    assert_eq!(traffic.apply_group_pattern("/bar/1"), "/bar/1");
}

#[test]
fn group_applies_to_route_templates_too() {
    let mut traffic = Hooks::new();
    traffic.with_group_patterns_as("/foo", &["/foo/:bar", "/foo/:bar/:baz"]);
    assert_eq!(traffic.apply_group_pattern("/foo/:bar"), "/foo");
    assert_eq!(traffic.apply_group_pattern("/foo/:bar/:baz"), "/foo");
}

#[test]
fn the_group_that_was_named_first_wins() {
    let mut traffic = Hooks::new();
    traffic.with_group_patterns_as("first", &["/a/:x"]);
    traffic.with_group_patterns_as("second", &["/a/:y", "/b/:y"]);
    assert_eq!(traffic.apply_group_pattern("/a/1"), "first");
    assert_eq!(traffic.apply_group_pattern("/b/1"), "second");
}

#[test]
fn patterns_given_later_join_the_group_of_the_same_label() {
    let mut traffic = Hooks::new();
    traffic.with_group_patterns_as("/bar", &["/auth/*path"]);
    traffic.with_group_patterns_as("/foo", &["/foo/:bar"]);
    traffic.with_group_patterns_as("/bar", &["/login"]);
    assert_eq!(traffic.apply_group_pattern("/auth/a/b"), "/bar");
    assert_eq!(traffic.apply_group_pattern("/login"), "/bar");
    assert_eq!(traffic.apply_group_pattern("/foo/1"), "/foo");
    assert!(!traffic.accepts_group_patterns("/bar", &["/login"]));
    assert!(traffic.accepts_group_patterns("/foo", &["/login"]));
    assert!(traffic.accepts_group_patterns("/new", &["/login"]));
}

#[test]
fn routers_refuse_what_conflicts_or_is_malformed() {
    let mut traffic = Hooks::new();
    traffic.with_ignore_pattern("/users/:id");
    assert!(!traffic.accepts_ignore_patterns(&["/users/:id"]));
    assert!(!traffic.accepts_ignore_patterns(&["/users/:name"]));
    assert!(!traffic.accepts_ignore_patterns(&["/files/*rest/more"]));
    assert!(!traffic.accepts_ignore_patterns(&["/x/:"]));
    assert!(!traffic.accepts_ignore_patterns(&["/x/:a:b"]));
    assert!(!traffic.accepts_ignore_patterns(&["/ok", "/ok"]));
    assert!(traffic.accepts_ignore_patterns(&["/ok", "/users/:id/posts"]));
    assert!(traffic.accepts_ignore_patterns(&[]));
    // Asking does not change the routes.
    assert!(!traffic.ignores("/ok"));
    assert!(traffic.ignores("/users/7"));
}

#[test]
fn texts_are_compared_by_what_they_write() {
    assert!(same_text("", ""));
    assert!(same_text("/foo", "/foo"));
    assert!(!same_text("/foo", "/fo"));
    assert!(!same_text("/foo", "/fop"));
    assert!(!same_text("/foo", "/Foo"));
    assert!(same_text("/caf\u{e9}", "/caf\u{e9}"));
    assert!(!same_text("/caf\u{e9}", "/caf\u{e8}"));
}

#[test]
fn admissible_patterns_are_ascii_and_within_the_parameter_limit() {
    let many = ":".repeat(26);
    assert!(check_admissible(""));
    assert!(check_admissible("/a/:b/*rest"));
    assert!(check_admissible("/~tilde/\u{7f}"));
    assert!(!check_admissible(&many));
    assert!(!check_admissible("/caf\u{e9}"));
    assert!(!check_admissible("/\u{2082}"));
    assert!(!check_admissible("/\u{80}"));
    assert!(check_all_admissible(&[]));
    assert!(check_all_admissible(&["/a/:b", "/c"]));
    assert!(!check_all_admissible(&["/a/:b", &many, "/c"]));
    assert!(!check_all_admissible(&["/a/:b", "/\u{20ac}"]));
}

#[test]
fn patterns_outside_ascii_are_refused_before_a_router_sees_them() {
    // Three patterns of which the second makes a router cut the first
    // inside a character, and the third then conflicts with the first.
    let first = "/\u{2082}";
    let second = "/\u{20ac}";
    let mut traffic = Hooks::new();
    assert!(!traffic.accepts_ignore_patterns(&[first]));
    assert!(!traffic.accepts_ignore_patterns(&[second]));
    assert!(!traffic.accepts_ignore_patterns(&[first, second, first]));
    assert!(!traffic.accepts_ignore_patterns(&["/plain", first]));
    assert!(!traffic.accepts_group_patterns("/group", &[first, second, first]));
    assert!(!traffic.accepts_group_patterns("\u{20ac}", &[first]));
    // A group's label is no pattern and can be any text.
    assert!(traffic.accepts_group_patterns("\u{20ac}", &["/plain"]));
    traffic.with_group_patterns_as("\u{20ac}", &["/plain"]);
    assert_eq!(traffic.apply_group_pattern("/plain"), "\u{20ac}");
    // Paths outside ASCII are matched as any other.
    traffic.with_ignore_pattern("/users/:name");
    assert!(traffic.ignores("/users/\u{2082}"));
    assert!(!traffic.ignores("/\u{2082}"));
    assert_eq!(traffic.apply_group_pattern("/\u{20ac}"), "/\u{20ac}");
}

#[test]
fn a_conflict_with_an_ascii_route_is_an_answer() {
    // The same shape in ASCII: the second pattern cuts the first, and the
    // third conflicts with the first.
    let mut traffic = Hooks::new();
    assert!(traffic.accepts_ignore_patterns(&["/abc", "/abd"]));
    assert!(!traffic.accepts_ignore_patterns(&["/abc", "/abd", "/abc"]));
    traffic.with_ignore_patterns(&["/abc", "/abd"]);
    assert!(!traffic.accepts_ignore_patterns(&["/abc"]));
    assert!(!traffic.accepts_ignore_patterns(&["/abd"]));
    assert!(traffic.accepts_ignore_patterns(&["/ab"]));
    assert!(traffic.ignores("/abc"));
    assert!(!traffic.ignores("/ab"));
}

#[test]
fn parameter_limit_counts_colons() {
    assert!(check_parameter_limit(""));
    assert!(check_parameter_limit("/plain"));
    let twenty_five: String = (0..25).map(|i| format!("/:p{}", i)).collect();
    let twenty_six: String = (0..26).map(|i| format!("/:p{}", i)).collect();
    assert!(check_parameter_limit(&twenty_five));
    assert!(!check_parameter_limit(&twenty_six));
    assert!(!check_parameter_limit(&":".repeat(40)));
}

#[test]
fn routers_take_twenty_five_parameters_and_no_more() {
    let twenty_five: String = (0..25).map(|i| format!("/:p{}", i)).collect();
    let twenty_six: String = (0..26).map(|i| format!("/:p{}", i)).collect();
    let path: String = (0..25).map(|i| format!("/v{}", i)).collect();
    let mut traffic = Hooks::new();
    assert!(traffic.accepts_ignore_patterns(&[&twenty_five]));
    assert!(!traffic.accepts_ignore_patterns(&[&twenty_six]));
    assert!(!traffic.accepts_ignore_patterns(&["/fine", &twenty_six]));
    assert!(!traffic.accepts_group_patterns("/many", &[&twenty_six]));
    traffic.with_ignore_pattern(&twenty_five);
    assert!(traffic.ignores(&path));
    assert!(!traffic.ignores("/v0"));
}

#[test]
fn a_copy_holds_the_routes_of_its_source() {
    let mut traffic = Hooks::new();
    traffic.with_ignore_pattern("/metrics");
    traffic.with_group_patterns_as("/foo", &["/foo/:bar"]);
    traffic.with_endpoint_label_type(EndpointLabel::Exact);
    let mut copy = traffic.clone();
    assert!(copy.ignores("/metrics"));
    assert!(!copy.ignores("/other"));
    assert_eq!(copy.apply_group_pattern("/foo/1"), "/foo");
    let (data, _) = prepare(&mut copy, &request(Method::Get, "/x/1", Some("/x/:id"), 0));
    assert_eq!(data.unwrap().endpoint, "/x/1");
    // The copy is its own: what it learns the first does not.
    copy.with_ignore_pattern("/other");
    assert!(copy.ignores("/other"));
    assert!(!traffic.ignores("/other"));
}

#[test]
fn prepare_counts_a_request_as_in_flight() {
    let mut traffic = Hooks::new();
    let (data, metrics) = prepare(&mut traffic, &request(Method::Get, "/fast", None, 17));
    let data = data.expect("the request is not ignored");
    assert_eq!(data.endpoint, "/fast");
    assert_eq!(data.method, "GET");
    assert_eq!(data.start, 17);
    assert_eq!(data.status, None);
    assert_eq!(data.body_size, 0);
    assert!(!data.exact_body_size_called);
    assert_eq!(
        metrics,
        vec![MetricEvent::GaugeDelta {
            family: MetricFamily::RequestsPending,
            delta: 1,
            labels: labels("GET", None, "/fast"),
        }]
    );
}

#[test]
fn prepare_gives_an_ignored_request_no_state() {
    let mut traffic = Hooks::new();
    traffic.with_ignore_pattern("/metrics");
    let (data, metrics) = prepare(&mut traffic, &request(Method::Get, "/metrics", Some("/metrics"), 0));
    assert!(data.is_none());
    assert!(metrics.is_empty());
}

#[test]
fn ignoring_goes_by_the_requested_path_not_the_template() {
    let mut traffic = Hooks::new();
    traffic.with_ignore_pattern("/users/:id");
    let (ignored, _) = prepare(&mut traffic, &request(Method::Get, "/users/7", Some("/users/:id"), 0));
    assert!(ignored.is_none());
    let (kept, _) = prepare(&mut traffic, &request(Method::Get, "/teams/7", Some("/users/7"), 0));
    assert_eq!(kept.unwrap().endpoint, "/users/7");
}

#[test]
fn endpoint_is_the_matched_path_by_default() {
    let mut traffic = Hooks::new();
    let (data, _) = prepare(&mut traffic, &request(Method::Post, "/users/7", Some("/users/:id"), 0));
    assert_eq!(data.unwrap().endpoint, "/users/:id");
    let (data, _) = prepare(&mut traffic, &request(Method::Post, "/users/7", None, 0));
    assert_eq!(data.unwrap().endpoint, "/users/7");
}

#[test]
fn endpoint_is_the_requested_path_when_exact() {
    let mut traffic = Hooks::new();
    traffic.with_endpoint_label_type(EndpointLabel::Exact);
    let (data, _) = prepare(&mut traffic, &request(Method::Post, "/users/7", Some("/users/:id"), 0));
    assert_eq!(data.unwrap().endpoint, "/users/7");
}

fn shout(path: &str) -> String {
    format!("fallback:{}", path.to_uppercase())
}

#[test]
fn endpoint_falls_back_to_the_function_without_a_matched_path() {
    let mut traffic = Hooks::new();
    traffic.with_endpoint_label_type(EndpointLabel::MatchedPathWithFallbackFn(shout as Fallback));
    let (data, _) = prepare(&mut traffic, &request(Method::Get, "/users/7", Some("/users/:id"), 0));
    assert_eq!(data.unwrap().endpoint, "/users/:id");
    let (data, metrics) = prepare(&mut traffic, &request(Method::Get, "/nested/7", None, 0));
    assert_eq!(data.unwrap().endpoint, "fallback:/NESTED/7");
    assert_eq!(metrics[0].labels().endpoint, "fallback:/NESTED/7");
}

#[test]
fn groups_apply_to_the_resolved_label() {
    let mut traffic = Hooks::new();
    traffic.with_group_patterns_as("/foo", &["/foo/:bar", "/foo/:bar/:baz"]);
    let (one, first) = prepare(&mut traffic, &request(Method::Get, "/foo/1", Some("/foo/:bar"), 0));
    let (other, second) =
        prepare(&mut traffic, &request(Method::Get, "/foo/1/2", Some("/foo/:bar/:baz"), 0));
    assert_eq!(one.unwrap().endpoint, "/foo");
    assert_eq!(other.unwrap().endpoint, "/foo");
    assert_eq!(first, second);
    assert_eq!(first[0].labels(), &labels("GET", None, "/foo"));
}

#[test]
fn method_label_is_empty_for_other_methods() {
    let mut traffic = Hooks::new();
    let (data, metrics) = prepare(&mut traffic, &request(Method::Extension, "/x", None, 0));
    assert_eq!(data.unwrap().method, "");
    assert_eq!(metrics[0].labels(), &labels("", None, "/x"));
}

#[test]
fn on_response_settles_the_request() {
    let mut traffic = Hooks::new();
    let (mut data, _) = prepare(&mut traffic, &request(Method::Put, "/items/3", Some("/items/:id"), 1_000));
    let before = data.clone().unwrap();
    let metrics = on_response(&mut traffic, &response(201, 4_500), &mut data);
    assert_eq!(
        metrics,
        vec![
            MetricEvent::GaugeDelta {
                family: MetricFamily::RequestsPending,
                delta: -1,
                labels: labels("PUT", None, "/items/:id"),
            },
            MetricEvent::IncrementCounter {
                family: MetricFamily::RequestsTotal,
                labels: labels("PUT", None, "/items/:id"),
            },
            MetricEvent::RecordDuration {
                family: MetricFamily::RequestsDuration,
                nanos: 3_500,
                labels: labels("PUT", Some(201), "/items/:id"),
            },
        ]
    );
    let after = data.unwrap();
    assert_eq!(before.status, None);
    assert_eq!(after.status, Some(201));
    assert_eq!(after.endpoint, before.endpoint);
    assert_eq!(after.method, before.method);
    assert_eq!(after.start, before.start);
    assert_eq!(after.body_size, before.body_size);
    assert_eq!(after.exact_body_size_called, before.exact_body_size_called);
}

#[test]
fn a_clock_that_went_back_gives_no_time() {
    let mut traffic = Hooks::new();
    let (mut data, _) = prepare(&mut traffic, &request(Method::Get, "/x", None, 9_000));
    let metrics = on_response(&mut traffic, &response(200, 8_000), &mut data);
    assert_eq!(
        metrics[2],
        MetricEvent::RecordDuration {
            family: MetricFamily::RequestsDuration,
            nanos: 0,
            labels: labels("GET", Some(200), "/x"),
        }
    );
}

#[test]
fn hooks_do_nothing_without_state() {
    let mut traffic = Hooks::new();
    let mut data: Option<MetricsData> = None;
    assert!(on_response(&mut traffic, &response(200, 1), &mut data).is_empty());
    assert!(data.is_none());
    let mut recorder = BodySizeRecorder;
    assert!(OnBodyChunk::call(&mut recorder, 10, None, &mut data).is_empty());
    assert!(OnBodyChunk::call(&mut recorder, 10, Some(10), &mut data).is_empty());
    assert!(OnExactBodySize::call(&mut recorder, 10, &mut data).is_empty());
    assert!(data.is_none());
}

#[test]
fn on_eos_records_nothing() {
    let mut traffic = Hooks::new();
    let (data, _) = prepare(&mut traffic, &request(Method::Get, "/x", None, 0));
    let at_eos = <Hooks<'_> as Callbacks<&str>>::on_eos(traffic.clone(), None, Err("late"), data.clone());
    assert!(at_eos.is_empty());
    let at_eos = <Hooks<'_> as Callbacks<&str>>::on_eos(traffic.clone(), None, Ok(()), None);
    assert!(at_eos.is_empty());
}

#[test]
fn on_failure_of_the_handler_takes_the_request_out_of_flight() {
    let mut traffic = Hooks::new();
    let (mut data, begun) = prepare(&mut traffic, &request(Method::Post, "/x", None, 0));
    let before = data.clone().unwrap();
    let metrics =
        <Hooks<'_> as Callbacks<&str>>::on_failure(traffic.clone(), FailedAt::Response, "refused", &mut data);
    assert_eq!(
        metrics,
        vec![MetricEvent::GaugeDelta {
            family: MetricFamily::RequestsPending,
            delta: -1,
            labels: labels("POST", None, "/x"),
        }]
    );
    assert_eq!(begun[0].labels(), metrics[0].labels());
    let after = data.unwrap();
    assert_eq!(after.endpoint, before.endpoint);
    assert_eq!(after.status, None);
    assert_eq!(after.body_size, before.body_size);
}

#[test]
fn on_failure_after_the_response_records_nothing() {
    let mut traffic = Hooks::new();
    let (mut data, _) = prepare(&mut traffic, &request(Method::Get, "/x", None, 0));
    let _ = on_response(&mut traffic, &response(200, 5), &mut data);
    for failed_at in [FailedAt::Body, FailedAt::Trailers] {
        let metrics =
            <Hooks<'_> as Callbacks<&str>>::on_failure(traffic.clone(), failed_at, "reset", &mut data);
        assert!(metrics.is_empty());
    }
    assert_eq!(data.unwrap().status, Some(200));
}

#[test]
fn on_failure_records_nothing_without_state() {
    let traffic = Hooks::new();
    let mut data: Option<MetricsData> = None;
    for failed_at in [FailedAt::Response, FailedAt::Body, FailedAt::Trailers] {
        let metrics =
            <Hooks<'_> as Callbacks<&str>>::on_failure(traffic.clone(), failed_at, "reset", &mut data);
        assert!(metrics.is_empty());
        assert!(data.is_none());
    }
}

/// The state of a request to `endpoint` whose response has the status 200.
fn state(endpoint: &str) -> Option<MetricsData> {
    Some(MetricsData {
        endpoint: endpoint.to_string(),
        start: 0,
        method: "GET",
        status: Some(200),
        body_size: 0,
        exact_body_size_called: false,
    })
}

fn size(bytes: u64, endpoint: &str) -> MetricEvent {
    MetricEvent::RecordSize {
        family: MetricFamily::ResponseBodySize,
        bytes,
        labels: labels("GET", Some(200), endpoint),
    }
}

#[test]
fn body_sizes_carry_the_status_that_the_response_left() {
    let mut traffic = Hooks::new();
    let mut recorder = BodySizeRecorder;
    let (mut data, _) = prepare(&mut traffic, &request(Method::Get, "/file", None, 0));
    let _ = on_response(&mut traffic, &response(206, 5), &mut data);
    let metrics = OnBodyChunk::call(&mut recorder, 8, None, &mut data);
    assert_eq!(
        metrics,
        vec![MetricEvent::RecordSize {
            family: MetricFamily::ResponseBodySize,
            bytes: 8,
            labels: labels("GET", Some(206), "/file"),
        }]
    );
    let metrics = OnExactBodySize::call(&mut recorder, 64, &mut data);
    assert_eq!(metrics[0].labels(), &labels("GET", Some(206), "/file"));
    assert_eq!(data.unwrap().status, Some(206));
}

#[test]
fn chunks_are_added_up_where_the_size_is_unknown() {
    let mut recorder = BodySizeRecorder;
    let mut data = state("/download");
    assert_eq!(OnBodyChunk::call(&mut recorder, 10, None, &mut data), vec![size(10, "/download")]);
    assert_eq!(OnBodyChunk::call(&mut recorder, 0, None, &mut data), vec![size(10, "/download")]);
    assert_eq!(OnBodyChunk::call(&mut recorder, 32, None, &mut data), vec![size(42, "/download")]);
    let data = data.unwrap();
    assert_eq!(data.body_size, 42);
    assert!(!data.exact_body_size_called);
}

#[test]
fn the_sum_of_chunks_stops_at_the_largest_number() {
    let mut recorder = BodySizeRecorder;
    let mut data = state("/huge");
    data.as_mut().unwrap().body_size = u64::MAX - 5;
    assert_eq!(OnBodyChunk::call(&mut recorder, 5, None, &mut data), vec![size(u64::MAX, "/huge")]);
    assert_eq!(OnBodyChunk::call(&mut recorder, 9, None, &mut data), vec![size(u64::MAX, "/huge")]);
    assert_eq!(data.unwrap().body_size, u64::MAX);
}

#[test]
fn the_exact_size_is_recorded_once() {
    let mut recorder = BodySizeRecorder;
    let mut data = state("/file");
    assert_eq!(OnBodyChunk::call(&mut recorder, 10, Some(100), &mut data), vec![size(100, "/file")]);
    assert!(OnBodyChunk::call(&mut recorder, 90, Some(100), &mut data).is_empty());
    assert!(OnExactBodySize::call(&mut recorder, 100, &mut data).is_empty());
    let data = data.unwrap();
    assert_eq!(data.body_size, 100);
    assert!(data.exact_body_size_called);
}

#[test]
fn the_exact_size_hook_records_before_the_chunk_hook() {
    let mut recorder = BodySizeRecorder;
    let mut data = state("/file");
    assert_eq!(OnExactBodySize::call(&mut recorder, 7, &mut data), vec![size(7, "/file")]);
    assert!(OnBodyChunk::call(&mut recorder, 7, Some(7), &mut data).is_empty());
    assert_eq!(data.unwrap().body_size, 7);
}

#[test]
fn a_missing_recorder_does_nothing() {
    let mut none: Option<BodySizeRecorder> = None;
    let mut data = state("/file");
    assert!(OnBodyChunk::call(&mut none, 7, None, &mut data).is_empty());
    assert!(OnExactBodySize::call(&mut none, 7, &mut data).is_empty());
    assert_eq!(data.as_ref().unwrap().body_size, 0);
    let mut some = Some(BodySizeRecorder);
    assert_eq!(OnBodyChunk::call(&mut some, 7, None, &mut data), vec![size(7, "/file")]);
}

#[test]
fn events_tell_their_family_and_labels() {
    let event = size(3, "/x");
    assert_eq!(event.family(), MetricFamily::ResponseBodySize);
    assert_eq!(event.labels(), &labels("GET", Some(200), "/x"));
    let event = MetricEvent::IncrementCounter {
        family: MetricFamily::RequestsTotal,
        labels: labels("GET", Some(200), "/x"),
    };
    assert_eq!(event.family(), MetricFamily::RequestsTotal);
    assert_eq!(event.labels().status, Some(200));
}
