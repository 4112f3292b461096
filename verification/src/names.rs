//! The names under which the four metric families are reported.

use crate::metric::MetricFamily;
use vstd::prelude::*;
use vstd::string::StringExecFns;

verus! {

/// Name of the gauge of requests in flight, unless a prefix was set.
pub const AXUM_HTTP_REQUESTS_PENDING: &'static str = "axum_http_requests_pending";

/// Name of the histogram of request latency, unless a prefix was set.
pub const AXUM_HTTP_REQUESTS_DURATION_SECONDS: &'static str = "axum_http_requests_duration_seconds";

/// Name of the counter of requests, unless a prefix was set.
pub const AXUM_HTTP_REQUESTS_TOTAL: &'static str = "axum_http_requests_total";

/// Name of the histogram of response body sizes, unless a prefix was set.
pub const AXUM_HTTP_RESPONSE_BODY_SIZE: &'static str = "axum_http_response_body_size";

/// A prefix and the four names that it gives.
struct Prefixed {
    prefix: String,
    total: String,
    duration: String,
    pending: String,
    body_size: String,
}

/// The metric names of one process: the defaults, or those that a prefix
/// gave. A prefix can be set once.
pub struct MetricNames {
    prefixed: Option<Prefixed>,
}

/// What follows the prefix in the name of `family`.
pub open spec fn suffix(family: MetricFamily) -> Seq<char> {
    match family {
        MetricFamily::RequestsTotal => "_http_requests_total"@,
        MetricFamily::RequestsPending => "_http_requests_pending"@,
        MetricFamily::RequestsDuration => "_http_requests_duration_seconds"@,
        MetricFamily::ResponseBodySize => "_http_response_body_size"@,
    }
}

/// The name of `family` where no prefix was set.
pub open spec fn default_name(family: MetricFamily) -> Seq<char> {
    match family {
        MetricFamily::RequestsTotal => AXUM_HTTP_REQUESTS_TOTAL@,
        MetricFamily::RequestsPending => AXUM_HTTP_REQUESTS_PENDING@,
        MetricFamily::RequestsDuration => AXUM_HTTP_REQUESTS_DURATION_SECONDS@,
        MetricFamily::ResponseBodySize => AXUM_HTTP_RESPONSE_BODY_SIZE@,
    }
}

impl MetricNames {
    /// The prefix that was set, if one was.
    pub closed spec fn prefix(&self) -> Option<Seq<char>> {
        match self.prefixed {
            Some(p) => Some(p.prefix@),
            None => None,
        }
    }

    /// The stored names are the prefix followed by each family's suffix.
    #[verifier::type_invariant]
    spec fn well_formed(&self) -> bool {
        self.prefixed matches Some(p) ==> {
            &&& p.total@ == p.prefix@ + suffix(MetricFamily::RequestsTotal)
            &&& p.duration@ == p.prefix@ + suffix(MetricFamily::RequestsDuration)
            &&& p.pending@ == p.prefix@ + suffix(MetricFamily::RequestsPending)
            &&& p.body_size@ == p.prefix@ + suffix(MetricFamily::ResponseBodySize)
        }
    }

    /// The name under which `family` is reported: the prefix followed by the
    /// family's suffix, or the default name where no prefix was set.
    pub open spec fn name(&self, family: MetricFamily) -> Seq<char> {
        match self.prefix() {
            Some(prefix) => prefix + suffix(family),
            None => default_name(family),
        }
    }

    /// The names of a process in which no prefix was set.
    pub fn new() -> (names: Self)
        ensures
            names.prefix() is None,
    {
        MetricNames { prefixed: None }
    }

    /// Whether a prefix was set.
    pub fn is_prefixed(&self) -> (set: bool)
        ensures
            set == self.prefix().is_some(),
    {
        self.prefixed.is_some()
    }

    /// The name under which `family` is reported.
    pub fn name_of(&self, family: MetricFamily) -> (name: &str)
        ensures
            name@ == self.name(family),
    {
        proof {
            use_type_invariant(self);
        }
        match &self.prefixed {
            Some(p) => {
                match family {
                    MetricFamily::RequestsTotal => p.total.as_str(),
                    MetricFamily::RequestsPending => p.pending.as_str(),
                    MetricFamily::RequestsDuration => p.duration.as_str(),
                    MetricFamily::ResponseBodySize => p.body_size.as_str(),
                }
            },
            None => match family {
                MetricFamily::RequestsTotal => AXUM_HTTP_REQUESTS_TOTAL,
                MetricFamily::RequestsPending => AXUM_HTTP_REQUESTS_PENDING,
                MetricFamily::RequestsDuration => AXUM_HTTP_REQUESTS_DURATION_SECONDS,
                MetricFamily::ResponseBodySize => AXUM_HTTP_RESPONSE_BODY_SIZE,
            },
        }
    }
}

/// Reports the four families as `{prefix}_http_requests_total`,
/// `{prefix}_http_requests_pending`, `{prefix}_http_requests_duration_seconds`
/// and `{prefix}_http_response_body_size` from now on.
///
/// A prefix can be set once: `names` must not have one yet.
pub fn set_prefix(names: &mut MetricNames, prefix: &str)
    requires
        old(names).prefix() is None,
    ensures
        final(names).prefix() == Some(prefix@),
{
    let total = String::from_str(prefix).concat("_http_requests_total");
    let duration = String::from_str(prefix).concat("_http_requests_duration_seconds");
    let pending = String::from_str(prefix).concat("_http_requests_pending");
    let body_size = String::from_str(prefix).concat("_http_response_body_size");
    names.prefixed = Some(
        Prefixed { prefix: String::from_str(prefix), total, duration, pending, body_size },
    );
}

} // verus!
