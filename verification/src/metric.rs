//! The measurements that the hooks ask the host to record.

use vstd::prelude::*;

verus! {

/// One of the four metric families that the crate reports.
#[derive(Clone, Copy, Debug, PartialEq, Eq, Structural)]
pub enum MetricFamily {
    /// Counter of the requests handled.
    RequestsTotal,
    /// Gauge of the requests in flight.
    RequestsPending,
    /// Histogram of the time from a request to its response.
    RequestsDuration,
    /// Histogram of the size of response bodies.
    ResponseBodySize,
}

/// The labels of one sample.
#[derive(Clone, Debug, PartialEq, Eq)]
pub struct Labels {
    /// The request's method, as `utils::as_label` writes it.
    pub method: String,
    /// The response's status code, where the sample has one.
    pub status: Option<u16>,
    /// The endpoint label of the request.
    pub endpoint: String,
}

/// What [`Labels`] hold, as mathematical values.
pub struct LabelsView {
    pub method: Seq<char>,
    pub status: Option<u16>,
    pub endpoint: Seq<char>,
}

impl View for Labels {
    type V = LabelsView;

    open spec fn view(&self) -> LabelsView {
        LabelsView { method: self.method@, status: self.status, endpoint: self.endpoint@ }
    }
}

/// One call that a hook asks the host to make on its metrics sink.
#[derive(Clone, Debug, PartialEq, Eq)]
pub enum MetricEvent {
    /// Add one to a counter.
    IncrementCounter { family: MetricFamily, labels: Labels },
    /// Move a gauge by `delta`.
    GaugeDelta { family: MetricFamily, delta: i64, labels: Labels },
    /// Observe a length of time, in nanoseconds, in a histogram.
    RecordDuration { family: MetricFamily, nanos: u128, labels: Labels },
    /// Observe a number of bytes in a histogram.
    RecordSize { family: MetricFamily, bytes: u64, labels: Labels },
}

/// What a [`MetricEvent`] holds, as mathematical values.
pub enum MetricEventView {
    IncrementCounter { family: MetricFamily, labels: LabelsView },
    GaugeDelta { family: MetricFamily, delta: i64, labels: LabelsView },
    RecordDuration { family: MetricFamily, nanos: u128, labels: LabelsView },
    RecordSize { family: MetricFamily, bytes: u64, labels: LabelsView },
}

impl View for MetricEvent {
    type V = MetricEventView;

    open spec fn view(&self) -> MetricEventView {
        match *self {
            MetricEvent::IncrementCounter { family, labels } => MetricEventView::IncrementCounter {
                family,
                labels: labels@,
            },
            MetricEvent::GaugeDelta { family, delta, labels } => MetricEventView::GaugeDelta {
                family,
                delta,
                labels: labels@,
            },
            MetricEvent::RecordDuration { family, nanos, labels } => MetricEventView::RecordDuration {
                family,
                nanos,
                labels: labels@,
            },
            MetricEvent::RecordSize { family, bytes, labels } => MetricEventView::RecordSize {
                family,
                bytes,
                labels: labels@,
            },
        }
    }
}

impl DeepView for MetricEvent {
    type V = MetricEventView;

    open spec fn deep_view(&self) -> MetricEventView {
        self@
    }
}

impl MetricEventView {
    /// The family that the event belongs to.
    pub open spec fn family(self) -> MetricFamily {
        match self {
            MetricEventView::IncrementCounter { family, .. } => family,
            MetricEventView::GaugeDelta { family, .. } => family,
            MetricEventView::RecordDuration { family, .. } => family,
            MetricEventView::RecordSize { family, .. } => family,
        }
    }

    /// The labels that the event carries.
    pub open spec fn labels(self) -> LabelsView {
        match self {
            MetricEventView::IncrementCounter { labels, .. } => labels,
            MetricEventView::GaugeDelta { labels, .. } => labels,
            MetricEventView::RecordDuration { labels, .. } => labels,
            MetricEventView::RecordSize { labels, .. } => labels,
        }
    }

    /// By how much the event moves the gauge of `family`: zero for every
    /// event that is not a gauge move of that family.
    pub open spec fn gauge_delta(self, family: MetricFamily) -> int {
        match self {
            MetricEventView::GaugeDelta { family: f, delta, .. } => if f == family {
                delta as int
            } else {
                0
            },
            _ => 0,
        }
    }
}

/// The sum of the moves that `events` make on the gauge of `family`.
pub open spec fn gauge_net(events: Seq<MetricEventView>, family: MetricFamily) -> int
    decreases events.len(),
{
    if events.len() == 0 {
        0
    } else {
        gauge_net(events.drop_last(), family) + events.last().gauge_delta(family)
    }
}

/// The number of events in `events` that move the gauge of `family` by `delta`.
pub open spec fn gauge_moves(events: Seq<MetricEventView>, family: MetricFamily, delta: int) -> nat
    decreases events.len(),
{
    if events.len() == 0 {
        0
    } else {
        gauge_moves(events.drop_last(), family, delta) + if events.last().gauge_delta(family)
            == delta {
            1nat
        } else {
            0nat
        }
    }
}

impl MetricEvent {
    /// The family that the event belongs to.
    pub fn family(&self) -> (family: MetricFamily)
        ensures
            family == self@.family(),
    {
        match self {
            MetricEvent::IncrementCounter { family, .. } => *family,
            MetricEvent::GaugeDelta { family, .. } => *family,
            MetricEvent::RecordDuration { family, .. } => *family,
            MetricEvent::RecordSize { family, .. } => *family,
        }
    }

    /// The labels that the event carries.
    pub fn labels(&self) -> (labels: &Labels)
        ensures
            labels@ == self@.labels(),
    {
        match self {
            MetricEvent::IncrementCounter { labels, .. } => labels,
            MetricEvent::GaugeDelta { labels, .. } => labels,
            MetricEvent::RecordDuration { labels, .. } => labels,
            MetricEvent::RecordSize { labels, .. } => labels,
        }
    }
}

/// What kind of metric a family is.
#[derive(Clone, Copy, Debug, PartialEq, Eq, Structural)]
pub enum MetricKind {
    Counter,
    Gauge,
    Histogram,
}

/// The unit in which a family is measured.
#[derive(Clone, Copy, Debug, PartialEq, Eq, Structural)]
pub enum Unit {
    Count,
    Seconds,
}

impl MetricFamily {
    /// What kind of metric the family is.
    pub open spec fn spec_kind(self) -> MetricKind {
        match self {
            MetricFamily::RequestsTotal => MetricKind::Counter,
            MetricFamily::RequestsPending => MetricKind::Gauge,
            MetricFamily::RequestsDuration => MetricKind::Histogram,
            MetricFamily::ResponseBodySize => MetricKind::Histogram,
        }
    }

    /// The unit in which the family is measured.
    pub open spec fn spec_unit(self) -> Unit {
        match self {
            MetricFamily::RequestsDuration => Unit::Seconds,
            _ => Unit::Count,
        }
    }

    /// What the family tells, in words.
    pub open spec fn spec_description(self) -> Seq<char> {
        match self {
            MetricFamily::RequestsTotal => "The number of times a HTTP request was processed."@,
            MetricFamily::RequestsPending => "The number of currently in-flight requests."@,
            MetricFamily::RequestsDuration => "The distribution of HTTP response times."@,
            MetricFamily::ResponseBodySize => "The distribution of HTTP response body sizes."@,
        }
    }

    /// What kind of metric the family is.
    pub fn kind(&self) -> (kind: MetricKind)
        ensures
            kind == self.spec_kind(),
    {
        match self {
            MetricFamily::RequestsTotal => MetricKind::Counter,
            MetricFamily::RequestsPending => MetricKind::Gauge,
            MetricFamily::RequestsDuration => MetricKind::Histogram,
            MetricFamily::ResponseBodySize => MetricKind::Histogram,
        }
    }

    /// The unit in which the family is measured.
    pub fn unit(&self) -> (unit: Unit)
        ensures
            unit == self.spec_unit(),
    {
        match self {
            MetricFamily::RequestsDuration => Unit::Seconds,
            _ => Unit::Count,
        }
    }

    /// What the family tells, in words.
    pub fn description(&self) -> (description: &'static str)
        ensures
            description@ == self.spec_description(),
    {
        match self {
            MetricFamily::RequestsTotal => "The number of times a HTTP request was processed.",
            MetricFamily::RequestsPending => "The number of currently in-flight requests.",
            MetricFamily::RequestsDuration => "The distribution of HTTP response times.",
            MetricFamily::ResponseBodySize => "The distribution of HTTP response body sizes.",
        }
    }
}

/// What the host is asked to tell its metrics sink of one family, before any
/// sample of it is recorded.
#[derive(Clone, Debug, PartialEq, Eq)]
pub struct MetricDescription {
    /// The family that is described.
    pub family: MetricFamily,
    /// The name under which the family is reported.
    pub name: String,
    /// What kind of metric the family is.
    pub kind: MetricKind,
    /// The unit in which the family is measured.
    pub unit: Unit,
    /// What the family tells, in words.
    pub description: &'static str,
}

/// What a [`MetricDescription`] holds, as mathematical values.
pub struct MetricDescriptionView {
    pub family: MetricFamily,
    pub name: Seq<char>,
    pub kind: MetricKind,
    pub unit: Unit,
    pub description: Seq<char>,
}

impl View for MetricDescription {
    type V = MetricDescriptionView;

    open spec fn view(&self) -> MetricDescriptionView {
        MetricDescriptionView {
            family: self.family,
            name: self.name@,
            kind: self.kind,
            unit: self.unit,
            description: self.description@,
        }
    }
}

impl DeepView for MetricDescription {
    type V = MetricDescriptionView;

    open spec fn deep_view(&self) -> MetricDescriptionView {
        self@
    }
}

} // verus!
