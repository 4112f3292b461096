use axum_prometheus::message::Method;
use axum_prometheus::metric::{MetricFamily, MetricKind, Unit};
use axum_prometheus::utils::as_label;
use axum_prometheus::{
    MetricNames, AXUM_HTTP_REQUESTS_DURATION_SECONDS, AXUM_HTTP_REQUESTS_PENDING,
    AXUM_HTTP_REQUESTS_TOTAL, AXUM_HTTP_RESPONSE_BODY_SIZE,
};

#[test]
fn standard_methods_are_labelled_by_name() {
    assert_eq!(as_label(&Method::Options), "OPTIONS");
    assert_eq!(as_label(&Method::Get), "GET");
    assert_eq!(as_label(&Method::Post), "POST");
    assert_eq!(as_label(&Method::Put), "PUT");
    assert_eq!(as_label(&Method::Delete), "DELETE");
    assert_eq!(as_label(&Method::Head), "HEAD");
    assert_eq!(as_label(&Method::Trace), "TRACE");
    assert_eq!(as_label(&Method::Connect), "CONNECT");
    assert_eq!(as_label(&Method::Patch), "PATCH");
}

#[test]
fn other_methods_have_an_empty_label() {
    assert_eq!(as_label(&Method::Extension), "");
}

#[test]
fn default_names_are_the_constants() {
    let names = MetricNames::new();
    assert_eq!(names.name_of(MetricFamily::RequestsTotal), AXUM_HTTP_REQUESTS_TOTAL);
    assert_eq!(names.name_of(MetricFamily::RequestsPending), AXUM_HTTP_REQUESTS_PENDING);
    assert_eq!(names.name_of(MetricFamily::RequestsDuration), AXUM_HTTP_REQUESTS_DURATION_SECONDS);
    assert_eq!(names.name_of(MetricFamily::ResponseBodySize), AXUM_HTTP_RESPONSE_BODY_SIZE);
    assert_eq!(AXUM_HTTP_REQUESTS_TOTAL, "axum_http_requests_total");
    assert_eq!(AXUM_HTTP_REQUESTS_PENDING, "axum_http_requests_pending");
    assert_eq!(AXUM_HTTP_REQUESTS_DURATION_SECONDS, "axum_http_requests_duration_seconds");
    assert_eq!(AXUM_HTTP_RESPONSE_BODY_SIZE, "axum_http_response_body_size");
}

#[test]
fn families_have_their_kind_and_unit() {
    assert_eq!(MetricFamily::RequestsTotal.kind(), MetricKind::Counter);
    assert_eq!(MetricFamily::RequestsPending.kind(), MetricKind::Gauge);
    assert_eq!(MetricFamily::RequestsDuration.kind(), MetricKind::Histogram);
    assert_eq!(MetricFamily::ResponseBodySize.kind(), MetricKind::Histogram);
    assert_eq!(MetricFamily::RequestsTotal.unit(), Unit::Count);
    assert_eq!(MetricFamily::RequestsPending.unit(), Unit::Count);
    assert_eq!(MetricFamily::RequestsDuration.unit(), Unit::Seconds);
    assert_eq!(MetricFamily::ResponseBodySize.unit(), Unit::Count);
    assert_eq!(
        MetricFamily::RequestsTotal.description(),
        "The number of times a HTTP request was processed."
    );
    assert_eq!(
        MetricFamily::RequestsPending.description(),
        "The number of currently in-flight requests."
    );
    assert_eq!(
        MetricFamily::RequestsDuration.description(),
        "The distribution of HTTP response times."
    );
    assert_eq!(
        MetricFamily::ResponseBodySize.description(),
        "The distribution of HTTP response body sizes."
    );
}
