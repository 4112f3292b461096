use axum_prometheus::lifecycle::body::Frame;
use axum_prometheus::lifecycle::future::Polled;
use axum_prometheus::lifecycle::ClassifiedResponse;
use axum_prometheus::message::{Method, RequestHead, ResponseHead};
use axum_prometheus::metric::{Labels, MetricEvent, MetricFamily};
use axum_prometheus::{GenericMetricLayer, LayerOnly, MetricLayerBuilder};

type Fallback = fn(&str) -> String;

type Layer<'a> = GenericMetricLayer<'a, (), (), Fallback>;

type Builder<'a> = MetricLayerBuilder<'a, (), (), LayerOnly, Fallback>;

/// The classifier of the end of a stream, of which there is none: the
/// classification of a status is known from the head.
enum Never {}

type AtEnd = fn(Never) -> Result<(), u16>;

type AtError = fn(Never) -> u16;

/// What happens to one request, as the host tells it.
struct Exchange {
    method: Method,
    path: &'static str,
    matched_path: Option<&'static str>,
    received_at: u128,
    /// The response's status and when it was produced, or none where the
    /// handler failed.
    response: Option<(u16, u128)>,
    content_length: Option<&'static str>,
    /// The lengths of the chunks of the body.
    chunks: Vec<usize>,
    /// The exact size that the body gives of itself.
    size_hint: Option<u64>,
    /// Whether the body fails after its chunks.
    body_fails: bool,
}

impl Exchange {
    fn get(path: &'static str) -> Exchange {
        Exchange {
            method: Method::Get,
            path,
            matched_path: None,
            received_at: 0,
            response: Some((200, 1_000_000)),
            content_length: None,
            chunks: Vec::new(),
            size_hint: None,
            body_fails: false,
        }
    }
}

/// Runs a request through a service of `layer`, as a host does, and returns
/// every metric event that it is asked to record.
fn serve(layer: &Layer<'_>, exchange: Exchange) -> Vec<MetricEvent> {
    let mut service = layer.layer(());
    let request = RequestHead {
        method: exchange.method,
        path: exchange.path.to_string(),
        matched_path: exchange.matched_path.map(|m| m.to_string()),
        received_at: exchange.received_at,
    };
    let (mut future, mut recorded) = service.call::<u16>(&request);
    let polled: Polled<u16, Never> = match exchange.response {
        Some((status, produced_at)) => Polled::Response {
            head: ResponseHead {
                status,
                content_length: exchange.content_length.map(|c| c.as_bytes().to_vec()),
                produced_at,
            },
            // Client and server errors are failures; the classification is
            // known from the head.
            classification: ClassifiedResponse::Ready(if (400..=599).contains(&status) {
                Err(status)
            } else {
                Ok(())
            }),
        },
        None => Polled::Error { failure_classification: 0 },
    };
    let (body, metrics) = future.poll(polled);
    recorded.extend(metrics);
    if let Some(mut body) = body {
        for len in exchange.chunks {
            let chunk: Frame<AtEnd, AtError> = Frame::Data { len };
            recorded.extend(body.poll_frame(chunk, exchange.size_hint));
        }
        let last: Frame<AtEnd, AtError> = if exchange.body_fails {
            Frame::BodyError { classify: |never: Never| match never {} }
        } else {
            Frame::End { classify: |never: Never| match never {} }
        };
        recorded.extend(body.poll_frame(last, exchange.size_hint));
    }
    recorded
}

fn labels(method: &str, status: Option<u16>, endpoint: &str) -> Labels {
    Labels { method: method.to_string(), status, endpoint: endpoint.to_string() }
}

fn gauge_net(events: &[MetricEvent]) -> i64 {
    events
        .iter()
        .map(|event| match event {
            MetricEvent::GaugeDelta { family: MetricFamily::RequestsPending, delta, .. } => *delta,
            _ => 0,
        })
        .sum()
}

fn gauge_moves(events: &[MetricEvent], by: i64) -> usize {
    events
        .iter()
        .filter(|event| matches!(event, MetricEvent::GaugeDelta { delta, .. } if *delta == by))
        .count()
}

fn durations(events: &[MetricEvent]) -> Vec<(u128, Labels)> {
    events
        .iter()
        .filter_map(|event| match event {
            MetricEvent::RecordDuration { nanos, labels, .. } => Some((*nanos, labels.clone())),
            _ => None,
        })
        .collect()
}

fn endpoints(events: &[MetricEvent]) -> Vec<String> {
    let mut all: Vec<String> = events.iter().map(|e| e.labels().endpoint.clone()).collect();
    all.sort();
    all.dedup();
    all
}

#[test]
fn fast_request_is_counted_once_and_nets_the_gauge_to_zero() {
    let layer = Layer::new();
    let events = serve(&layer, Exchange::get("/fast"));
    assert_eq!(
        events,
        vec![
            MetricEvent::GaugeDelta {
                family: MetricFamily::RequestsPending,
                delta: 1,
                labels: labels("GET", None, "/fast"),
            },
            MetricEvent::GaugeDelta {
                family: MetricFamily::RequestsPending,
                delta: -1,
                labels: labels("GET", None, "/fast"),
            },
            MetricEvent::IncrementCounter {
                family: MetricFamily::RequestsTotal,
                labels: labels("GET", None, "/fast"),
            },
            MetricEvent::RecordDuration {
                family: MetricFamily::RequestsDuration,
                nanos: 1_000_000,
                labels: labels("GET", Some(200), "/fast"),
            },
        ]
    );
    assert_eq!(gauge_net(&events), 0);
    assert_eq!(durations(&events), vec![(1_000_000, labels("GET", Some(200), "/fast"))]);
}

#[test]
fn slow_request_is_observed_at_a_second_or_more() {
    let layer = Layer::new();
    let exchange = Exchange {
        received_at: 5_000_000_000,
        response: Some((200, 6_000_000_123)),
        ..Exchange::get("/slow")
    };
    let events = serve(&layer, exchange);
    let observed = durations(&events);
    assert_eq!(observed.len(), 1);
    assert_eq!(observed[0].1, labels("GET", Some(200), "/slow"));
    assert_eq!(observed[0].0, 1_000_000_123);
    assert!(observed[0].0 >= 1_000_000_000);
}

#[test]
fn ignored_route_leaves_no_sample() {
    let layer: Layer = Builder::new().with_ignore_pattern("/metrics").enable_response_body_size(true).build();
    let exchange = Exchange {
        matched_path: Some("/metrics"),
        chunks: vec![10, 20],
        content_length: Some("30"),
        ..Exchange::get("/metrics")
    };
    assert!(serve(&layer, exchange).is_empty());
    let failing = Exchange { response: None, ..Exchange::get("/metrics") };
    assert!(serve(&layer, failing).is_empty());
    let others = serve(&layer, Exchange::get("/fast"));
    assert!(others.iter().all(|e| e.labels().endpoint != "/metrics"));
    assert_eq!(others.len(), 4);
}

#[test]
fn grouped_route_templates_are_reported_under_the_group() {
    let layer: Layer = Builder::new()
        .with_group_patterns_as("/foo", &["/foo/:bar", "/foo/:bar/:baz"])
        .enable_response_body_size(true)
        .build();
    let one = Exchange { matched_path: Some("/foo/:bar"), chunks: vec![3], ..Exchange::get("/foo/1") };
    let other =
        Exchange { matched_path: Some("/foo/:bar/:baz"), chunks: vec![4], ..Exchange::get("/foo/1/2") };
    let first = serve(&layer, one);
    let second = serve(&layer, other);
    assert_eq!(endpoints(&first), vec!["/foo".to_string()]);
    assert_eq!(endpoints(&second), vec!["/foo".to_string()]);
    assert_eq!(first.len(), 5);
    assert_eq!(second.len(), 5);
}

#[test]
fn two_paths_of_one_group_share_a_label() {
    let layer: Layer = Builder::new().with_group_patterns_as("/bar", &["/auth/*path"]).build();
    let mut all = serve(&layer, Exchange::get("/auth/login"));
    all.extend(serve(&layer, Exchange::get("/auth/logout/now")));
    assert_eq!(endpoints(&all), vec!["/bar".to_string()]);
}

#[test]
fn gauge_goes_up_as_often_as_down_whatever_becomes_of_the_requests() {
    let layer: Layer = Builder::new().with_ignore_pattern("/metrics").enable_response_body_size(true).build();
    let mut all = Vec::new();
    for (i, path) in ["/a", "/b", "/metrics", "/c", "/a", "/metrics", "/d"].into_iter().enumerate() {
        let exchange = Exchange {
            method: if i % 2 == 0 { Method::Get } else { Method::Post },
            response: match i % 4 {
                0 => Some((500, 7)),
                3 => None,
                _ => Some((200, 7)),
            },
            chunks: vec![i, 2 * i],
            size_hint: if i % 2 == 0 { Some(3 * i as u64) } else { None },
            body_fails: i % 4 == 1,
            ..Exchange::get(path)
        };
        all.extend(serve(&layer, exchange));
    }
    assert_eq!(gauge_moves(&all, 1), 5);
    assert_eq!(gauge_moves(&all, -1), 5);
    assert_eq!(gauge_net(&all), 0);
}

#[test]
fn a_failed_handler_takes_its_request_out_of_flight() {
    let layer = Layer::new();
    let events = serve(&layer, Exchange { response: None, ..Exchange::get("/down") });
    assert_eq!(
        events,
        vec![
            MetricEvent::GaugeDelta {
                family: MetricFamily::RequestsPending,
                delta: 1,
                labels: labels("GET", None, "/down"),
            },
            MetricEvent::GaugeDelta {
                family: MetricFamily::RequestsPending,
                delta: -1,
                labels: labels("GET", None, "/down"),
            },
        ]
    );
    assert_eq!(gauge_net(&events), 0);
}

#[test]
fn a_failed_body_does_not_move_the_gauge_again() {
    let layer = Layer::new();
    let events =
        serve(&layer, Exchange { chunks: vec![1], body_fails: true, ..Exchange::get("/cut") });
    assert_eq!(events.len(), 4);
    assert_eq!(gauge_moves(&events, 1), 1);
    assert_eq!(gauge_moves(&events, -1), 1);
}

#[test]
fn response_with_an_error_status_is_a_response() {
    let layer = Layer::new();
    let events = serve(&layer, Exchange { response: Some((503, 40)), ..Exchange::get("/busy") });
    assert_eq!(events.len(), 4);
    assert_eq!(gauge_net(&events), 0);
    assert_eq!(durations(&events), vec![(40, labels("GET", Some(503), "/busy"))]);
}

#[test]
fn body_sizes_are_recorded_when_enabled() {
    let mut layer = Layer::new();
    let plain = serve(&layer, Exchange { chunks: vec![10, 20], ..Exchange::get("/file") });
    assert_eq!(plain.len(), 4);
    layer.enable_response_body_size();
    let summed = serve(&layer, Exchange { chunks: vec![10, 20], ..Exchange::get("/file") });
    assert_eq!(
        summed[4..],
        [
            MetricEvent::RecordSize {
                family: MetricFamily::ResponseBodySize,
                bytes: 10,
                labels: labels("GET", Some(200), "/file"),
            },
            MetricEvent::RecordSize {
                family: MetricFamily::ResponseBodySize,
                bytes: 30,
                labels: labels("GET", Some(200), "/file"),
            },
        ]
    );
    let exact = serve(
        &layer,
        Exchange { chunks: vec![10, 20], content_length: Some("30"), ..Exchange::get("/file") },
    );
    assert_eq!(
        exact[4..],
        [MetricEvent::RecordSize {
            family: MetricFamily::ResponseBodySize,
            bytes: 30,
            labels: labels("GET", Some(200), "/file"),
        }]
    );
    let hinted = serve(
        &layer,
        Exchange {
            chunks: vec![10, 20],
            content_length: Some("31"),
            size_hint: Some(30),
            ..Exchange::get("/file")
        },
    );
    assert_eq!(hinted[4..], exact[4..]);
}
