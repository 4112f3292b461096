//! Method labels and the names of the metric families.

use crate::message::Method;
use crate::metric::MetricFamily;
use crate::names::MetricNames;
use vstd::prelude::*;

verus! {

/// The label under which `method` is reported, as a mathematical value: the
/// method's name in capitals for the nine standard methods, and nothing for
/// any other.
pub open spec fn spec_as_label(method: Method) -> Seq<char> {
    match method {
        Method::Options => "OPTIONS"@,
        Method::Get => "GET"@,
        Method::Post => "POST"@,
        Method::Put => "PUT"@,
        Method::Delete => "DELETE"@,
        Method::Head => "HEAD"@,
        Method::Trace => "TRACE"@,
        Method::Connect => "CONNECT"@,
        Method::Patch => "PATCH"@,
        Method::Extension => ""@,
    }
}

/// The label under which `method` is reported.
pub fn as_label(method: &Method) -> (label: &'static str)
    ensures
        label@ == spec_as_label(*method),
{
    match *method {
        Method::Options => "OPTIONS",
        Method::Get => "GET",
        Method::Post => "POST",
        Method::Put => "PUT",
        Method::Delete => "DELETE",
        Method::Head => "HEAD",
        Method::Trace => "TRACE",
        Method::Connect => "CONNECT",
        Method::Patch => "PATCH",
        Method::Extension => "",
    }
}

/// The name of the requests total metric: `AXUM_HTTP_REQUESTS_TOTAL` unless
/// `names` holds a prefix.
pub fn requests_total_name(names: &MetricNames) -> (name: &str)
    ensures
        name@ == names.name(MetricFamily::RequestsTotal),
{
    names.name_of(MetricFamily::RequestsTotal)
}

/// The name of the requests duration metric:
/// `AXUM_HTTP_REQUESTS_DURATION_SECONDS` unless `names` holds a prefix.
pub fn requests_duration_name(names: &MetricNames) -> (name: &str)
    ensures
        name@ == names.name(MetricFamily::RequestsDuration),
{
    names.name_of(MetricFamily::RequestsDuration)
}

/// The name of the requests pending metric: `AXUM_HTTP_REQUESTS_PENDING`
/// unless `names` holds a prefix.
pub fn requests_pending_name(names: &MetricNames) -> (name: &str)
    ensures
        name@ == names.name(MetricFamily::RequestsPending),
{
    names.name_of(MetricFamily::RequestsPending)
}

/// The name of the response body size metric: `AXUM_HTTP_RESPONSE_BODY_SIZE`
/// unless `names` holds a prefix.
pub fn response_body_size_name(names: &MetricNames) -> (name: &str)
    ensures
        name@ == names.name(MetricFamily::ResponseBodySize),
{
    names.name_of(MetricFamily::ResponseBodySize)
}

} // verus!
