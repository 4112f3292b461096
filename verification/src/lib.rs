//! Request-lifecycle instrumentation for HTTP services.
//!
//! The crate follows every request from the moment it is received until its
//! response, and where the response is streamed until its body has ended, and
//! says which accounting events each step owes: a request started, a response
//! classified, a stream ended, a failure observed. Each of them is owed
//! exactly once.
//!
//! Nothing here touches a socket, a clock or a metrics backend. The host
//! polls the handler and the body, and tells the state machines of
//! [`lifecycle`] what it saw and when; they fire the hooks, and the hooks hand
//! back the [`metric::MetricEvent`]s that the host is to record.
//!
//! - [`lifecycle`] holds the hooks and the three places that fire them.
//! - [`traffic`] holds the callbacks that turn hooks into metrics.
//! - [`builder`] and [`layer`] put the two together.
//! - [`routes`] asks the routers of `matchit` which requests are ignored and
//!   which are reported together.
//! - [`laws`] states what holds of every request.

pub mod builder;
pub mod content_length;
pub mod laws;
pub mod layer;
pub mod lifecycle;
pub mod message;
pub mod metric;
pub mod names;
pub mod routes;
mod sealed;
pub mod traffic;
pub mod utils;

pub use builder::{
    describe_metrics, EndpointLabel, LayerOnly, MetricBuilderState, MetricLayerBuilder, Paired,
};
pub use layer::{GenericMetricLayer, MakeDefaultHandle};
pub use names::{
    set_prefix, MetricNames, AXUM_HTTP_REQUESTS_DURATION_SECONDS, AXUM_HTTP_REQUESTS_PENDING,
    AXUM_HTTP_REQUESTS_TOTAL, AXUM_HTTP_RESPONSE_BODY_SIZE,
};
pub use traffic::{BodySizeRecorder, MetricsData, Traffic};
