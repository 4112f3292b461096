//! What holds of every request.
//!
//! The first part is about the hooks alone: which of them fire, how often
//! and in which order, whatever the callbacks are. The second part is about
//! the metrics that `Traffic` and `BodySizeRecorder` ask to record.

use crate::lifecycle::body::{Frame, ResponseBody};
use crate::lifecycle::future::{Polled, ResponseFuture};
use crate::lifecycle::service::LifeCycle;
use crate::lifecycle::trace::{
    awaits_eos_after, awaits_eos_after_all, body_hooks, completion_hook, count_hook,
    count_terminal, first_terminal, frame_hook, request_hooks, FrameKind, Hook, Outcome,
};
use crate::lifecycle::{Callbacks, ClassifiedResponse, FailedAt};
use crate::message::{RequestHead, ResponseHead, Trailers};
use crate::metric::{gauge_moves, gauge_net, MetricEventView, MetricFamily};
use crate::traffic::{
    chunk_recorded, exact_size_recorded, failure_metrics, first_group, response_metrics,
    with_status, BodySizeRecorder, MetricsData, Traffic,
};
use vstd::prelude::*;
use vstd::seq_lib::{to_multiset_contains, to_multiset_len, to_multiset_remove};

verus! {

/// A body that owes no terminal hook fires none, whatever it produces.
pub proof fn law_nothing_owed_nothing_fired(frames: Seq<FrameKind>)
    ensures
        body_hooks(false, frames) == Seq::<Hook>::empty(),
    decreases frames.len(),
{
    if frames.len() > 0 {
        law_nothing_owed_nothing_fired(frames.skip(1));
    }
}

/// A body that owes a terminal hook fires it on the first frame that ends
/// the stream, and fires nothing else: nothing before that frame, and
/// nothing after it.
pub proof fn law_terminal_hook_fires_on_first_end(frames: Seq<FrameKind>)
    ensures
        0 <= first_terminal(frames) <= frames.len(),
        first_terminal(frames) == frames.len() ==> body_hooks(true, frames) == Seq::<Hook>::empty(),
        first_terminal(frames) < frames.len() ==> frames[first_terminal(frames)].is_terminal()
            && body_hooks(true, frames) == seq![
            frame_hook(true, frames[first_terminal(frames)])->0,
        ],
    decreases frames.len(),
{
    if frames.len() > 0 {
        if frames[0].is_terminal() {
            law_nothing_owed_nothing_fired(frames.skip(1));
            assert(seq![frame_hook(true, frames[0])->0] + Seq::<Hook>::empty() =~= seq![
                frame_hook(true, frames[0])->0,
            ]);
        } else {
            law_terminal_hook_fires_on_first_end(frames.skip(1));
            let k = first_terminal(frames.skip(1));
            if k < frames.skip(1).len() {
                assert(frames.skip(1)[k] == frames[k + 1]);
            }
        }
    }
}

/// The hooks of a body are those that its frames fire one by one: with one
/// more frame, the hooks so far are followed by the hook that the frame
/// fires in the state that the frames so far have left, where it fires one.
pub proof fn law_hooks_fire_frame_by_frame(awaits_eos: bool, frames: Seq<FrameKind>, frame: FrameKind)
    ensures
        awaits_eos_after_all(awaits_eos, Seq::empty()) == awaits_eos,
        awaits_eos_after_all(awaits_eos, frames.push(frame)) == awaits_eos_after(
            awaits_eos_after_all(awaits_eos, frames),
            frame,
        ),
        body_hooks(awaits_eos, frames.push(frame)) == body_hooks(awaits_eos, frames)
            + match frame_hook(awaits_eos_after_all(awaits_eos, frames), frame) {
            Some(hook) => seq![hook],
            None => Seq::empty(),
        },
    decreases frames.len(),
{
    let more = frames.push(frame);
    if frames.len() == 0 {
        assert(more.skip(1) =~= Seq::<FrameKind>::empty());
        assert(more[0] == frame);
        reveal_with_fuel(first_terminal, 2);
        reveal_with_fuel(body_hooks, 2);
        assert(body_hooks(awaits_eos_after(awaits_eos, frame), more.skip(1)) == Seq::<Hook>::empty());
        assert(body_hooks(awaits_eos, more) =~= body_hooks(awaits_eos, frames) + match frame_hook(
            awaits_eos,
            frame,
        ) {
            Some(hook) => seq![hook],
            None => Seq::empty(),
        });
    } else {
        let next = awaits_eos_after(awaits_eos, frames[0]);
        law_hooks_fire_frame_by_frame(next, frames.skip(1), frame);
        assert(more.skip(1) =~= frames.skip(1).push(frame));
        assert(more[0] == frames[0]);
        let last = match frame_hook(awaits_eos_after_all(awaits_eos, frames), frame) {
            Some(hook) => seq![hook],
            None => Seq::empty(),
        };
        assert(first_terminal(more) == if frames[0].is_terminal() {
            0
        } else {
            1 + first_terminal(more.skip(1))
        });
        assert(awaits_eos_after_all(next, frames.skip(1)) == awaits_eos_after_all(awaits_eos, frames));
        assert(awaits_eos_after_all(next, more.skip(1)) == awaits_eos_after_all(awaits_eos, more));
        match frame_hook(awaits_eos, frames[0]) {
            Some(hook) => {
                assert(seq![hook] + (body_hooks(next, frames.skip(1)) + last) =~= (seq![hook]
                    + body_hooks(next, frames.skip(1))) + last);
            },
            None => {},
        }
    }
}

/// A response that is classified from its head fires `on_response`, once,
/// and nothing fires after it: neither `on_eos` nor `on_failure`, whatever
/// the body produces.
pub proof fn law_ready_response_fires_on_response_alone(frames: Seq<FrameKind>)
    ensures
        request_hooks(Outcome::Ready, frames) == seq![Hook::OnResponse],
{
    law_nothing_owed_nothing_fired(frames);
    assert(seq![Hook::OnResponse] + Seq::<Hook>::empty() =~= seq![Hook::OnResponse]);
}

/// A response whose classification waits for the end of the stream, and
/// whose body ends without an error, fires `on_response`, then `on_eos`,
/// each once, and never `on_failure`.
pub proof fn law_stream_that_ends_fires_on_eos(frames: Seq<FrameKind>)
    requires
        first_terminal(frames) < frames.len(),
        !frames[first_terminal(frames)].is_error(),
    ensures
        request_hooks(Outcome::RequiresEos, frames) == seq![Hook::OnResponse, Hook::OnEos],
{
    law_terminal_hook_fires_on_first_end(frames);
    assert(seq![Hook::OnResponse] + seq![Hook::OnEos] =~= seq![Hook::OnResponse, Hook::OnEos]);
}

/// A handler that fails fires `on_failure` at the response, once, and
/// neither `on_response` nor `on_eos`.
pub proof fn law_failed_handler_fires_on_failure_alone(frames: Seq<FrameKind>)
    ensures
        request_hooks(Outcome::Error, frames) == seq![Hook::OnFailure(FailedAt::Response)],
{
}

/// A response whose classification waits for the end of the stream, and
/// whose body fails before it has ended, fires `on_response`, then
/// `on_failure` at the body, each once, and never `on_eos`.
pub proof fn law_failed_body_fires_on_failure(frames: Seq<FrameKind>)
    requires
        first_terminal(frames) < frames.len(),
        frames[first_terminal(frames)] is BodyError,
    ensures
        request_hooks(Outcome::RequiresEos, frames) == seq![
            Hook::OnResponse,
            Hook::OnFailure(FailedAt::Body),
        ],
{
    law_terminal_hook_fires_on_first_end(frames);
    assert(seq![Hook::OnResponse] + seq![Hook::OnFailure(FailedAt::Body)] =~= seq![
        Hook::OnResponse,
        Hook::OnFailure(FailedAt::Body),
    ]);
}

/// The same of trailers that fail: `on_failure` fires at the trailers.
pub proof fn law_failed_trailers_fire_on_failure(frames: Seq<FrameKind>)
    requires
        first_terminal(frames) < frames.len(),
        frames[first_terminal(frames)] is TrailersError,
    ensures
        request_hooks(Outcome::RequiresEos, frames) == seq![
            Hook::OnResponse,
            Hook::OnFailure(FailedAt::Trailers),
        ],
{
    law_terminal_hook_fires_on_first_end(frames);
    assert(seq![Hook::OnResponse] + seq![Hook::OnFailure(FailedAt::Trailers)] =~= seq![
        Hook::OnResponse,
        Hook::OnFailure(FailedAt::Trailers),
    ]);
}

/// A stream that has not ended has fired `on_response` and nothing else.
pub proof fn law_open_stream_has_fired_on_response_alone(frames: Seq<FrameKind>)
    requires
        first_terminal(frames) == frames.len(),
    ensures
        request_hooks(Outcome::RequiresEos, frames) == seq![Hook::OnResponse],
{
    law_terminal_hook_fires_on_first_end(frames);
    assert(seq![Hook::OnResponse] + Seq::<Hook>::empty() =~= seq![Hook::OnResponse]);
}

/// Of every request, whatever became of it: exactly one of `on_response`
/// and `on_failure` at the response fires; after `on_response`, at most one
/// more hook fires, and that one is `on_eos` or `on_failure` at the body or
/// the trailers; and no hook fires twice.
pub proof fn law_every_hook_fires_at_most_once(outcome: Outcome, frames: Seq<FrameKind>)
    ensures
        count_hook(request_hooks(outcome, frames), Hook::OnResponse) + count_hook(
            request_hooks(outcome, frames),
            Hook::OnFailure(FailedAt::Response),
        ) == 1,
        request_hooks(outcome, frames)[0] == completion_hook(outcome),
        request_hooks(outcome, frames).len() <= 2,
        count_terminal(request_hooks(outcome, frames)) <= 1,
        forall|hook: Hook| count_hook(request_hooks(outcome, frames), hook) <= 1,
        request_hooks(outcome, frames).len() == 2 ==> outcome is RequiresEos && (request_hooks(
            outcome,
            frames,
        )[1] is OnEos || request_hooks(outcome, frames)[1] == Hook::OnFailure(FailedAt::Body)
            || request_hooks(outcome, frames)[1] == Hook::OnFailure(FailedAt::Trailers)),
{
    let hooks = request_hooks(outcome, frames);
    law_nothing_owed_nothing_fired(frames);
    law_terminal_hook_fires_on_first_end(frames);
    let first = seq![completion_hook(outcome)];
    assert(first.drop_last() =~= Seq::<Hook>::empty());
    assert(first + Seq::<Hook>::empty() =~= first);
    if hooks.len() == 2 {
        let second = frame_hook(true, frames[first_terminal(frames)])->0;
        assert(hooks =~= seq![Hook::OnResponse, second]);
        assert(hooks.drop_last() =~= seq![Hook::OnResponse]);
        assert(hooks.drop_last().drop_last() =~= Seq::<Hook>::empty());
        assert forall|hook: Hook| count_hook(hooks, hook) <= 1 by {
            reveal_with_fuel(count_hook, 3);
        }
        reveal_with_fuel(count_hook, 3);
        reveal_with_fuel(count_terminal, 3);
    } else {
        assert(hooks =~= first);
        reveal_with_fuel(count_hook, 2);
        reveal_with_fuel(count_terminal, 2);
        assert forall|hook: Hook| count_hook(hooks, hook) <= 1 by {
            reveal_with_fuel(count_hook, 2);
        }
    }
}

/// What `Traffic` asks to record when `hook` fires for a request that
/// `prepare` gave the state `data` and whose response is `response`: on
/// `on_response` what `response_metrics` says, on `on_failure` what
/// `failure_metrics` says, and nothing on `on_eos`.
pub open spec fn hook_metrics(hook: Hook, response: ResponseHead, data: Option<MetricsData>) -> Seq<
    MetricEventView,
> {
    match hook {
        Hook::OnResponse => response_metrics(response, data),
        Hook::OnFailure(failed_at) => failure_metrics(failed_at, data),
        Hook::OnEos => Seq::empty(),
    }
}

/// What `Traffic` asks to record when `hooks` fire, one after the other.
pub open spec fn hooks_metrics(hooks: Seq<Hook>, response: ResponseHead, data: Option<MetricsData>) -> Seq<
    MetricEventView,
>
    decreases hooks.len(),
{
    if hooks.len() == 0 {
        Seq::empty()
    } else {
        hooks_metrics(hooks.drop_last(), response, data) + hook_metrics(hooks.last(), response, data)
    }
}

/// One request from its arrival to its last hook, as `Traffic` saw it.
pub struct Exchange {
    /// The request.
    pub request: RequestHead,
    /// The state that `prepare` gave the request.
    pub data: Option<MetricsData>,
    /// What `prepare` asked to record.
    pub begun: Seq<MetricEventView>,
    /// How the handler's future resolved.
    pub outcome: Outcome,
    /// The response, where the handler gave one.
    pub response: ResponseHead,
    /// What the body produced.
    pub frames: Seq<FrameKind>,
}

impl Exchange {
    /// Everything that `Traffic` asks to record for the request: what
    /// `prepare` asked, then what each hook asked that fired after it.
    pub open spec fn metrics(self) -> Seq<MetricEventView> {
        self.begun + hooks_metrics(request_hooks(self.outcome, self.frames), self.response, self.data)
    }

    /// Whether `traffic` began the exchange: whether `prepare` may have
    /// given the request this state and asked for these metrics.
    pub open spec fn begun_by<F: Fn(&str) -> String + Copy>(self, traffic: Traffic<F>) -> bool {
        traffic.prepares(self.request, self.data, self.begun)
    }
}

/// Everything that `Traffic` asks to record for `exchanges`, one exchange
/// after the other.
pub open spec fn exchanges_metrics(exchanges: Seq<Exchange>) -> Seq<MetricEventView>
    decreases exchanges.len(),
{
    if exchanges.len() == 0 {
        Seq::empty()
    } else {
        exchanges_metrics(exchanges.drop_last()) + exchanges.last().metrics()
    }
}

/// The hooks of `Traffic` ask for what `hook_metrics` says. `on_response`
/// notes the status of the response in the state of the request; the other
/// hooks leave the state as it is, and what `on_failure` asks does not
/// depend on the status.
pub proof fn law_traffic_asks_what_hook_metrics_says<FailureClass, F: Fn(&str) -> String + Copy>(
    traffic: Traffic<F>,
    after: Traffic<F>,
    response: ResponseHead,
    classification: ClassifiedResponse<FailureClass, ()>,
    trailers: Option<Trailers>,
    end: Result<(), FailureClass>,
    failed_at: FailedAt,
    failure: FailureClass,
    data: Option<MetricsData>,
    data_after: Option<MetricsData>,
    metrics: Seq<MetricEventView>,
)
    ensures
        <Traffic<F> as Callbacks<FailureClass>>::responded(
            traffic,
            response,
            classification,
            data,
            after,
            data_after,
            metrics,
        ) ==> data_after == with_status(response, data) && metrics == hook_metrics(
            Hook::OnResponse,
            response,
            data,
        ),
        <Traffic<F> as Callbacks<FailureClass>>::ended(traffic, trailers, end, data, metrics)
            ==> metrics == hook_metrics(Hook::OnEos, response, data),
        <Traffic<F> as Callbacks<FailureClass>>::failed(
            traffic,
            failed_at,
            failure,
            data,
            data_after,
            metrics,
        ) ==> data_after == data && metrics == hook_metrics(
            Hook::OnFailure(failed_at),
            response,
            data,
        ),
        hook_metrics(Hook::OnFailure(failed_at), response, with_status(response, data))
            == hook_metrics(Hook::OnFailure(failed_at), response, data),
{
}

/// The moves of a gauge add up over two runs of events.
pub proof fn lemma_gauge_adds(a: Seq<MetricEventView>, b: Seq<MetricEventView>, family: MetricFamily, delta: int)
    ensures
        gauge_net(a + b, family) == gauge_net(a, family) + gauge_net(b, family),
        gauge_moves(a + b, family, delta) == gauge_moves(a, family, delta) + gauge_moves(
            b,
            family,
            delta,
        ),
    decreases b.len(),
{
    if b.len() == 0 {
        assert(a + b =~= a);
    } else {
        lemma_gauge_adds(a, b.drop_last(), family, delta);
        assert((a + b).drop_last() =~= a + b.drop_last());
    }
}

/// Whether `hook` is one that takes a request out of flight: `on_response`,
/// or `on_failure` where the handler failed.
pub open spec fn lands(hook: Hook) -> bool {
    hook is OnResponse || hook == Hook::OnFailure(FailedAt::Response)
}

/// What one hook of `Traffic` asks to record moves the gauge of requests in
/// flight down by one, once, where the hook takes a request with state out
/// of flight, and does not move it otherwise.
proof fn lemma_hook_gauge(hook: Hook, response: ResponseHead, data: Option<MetricsData>)
    ensures
        gauge_net(hook_metrics(hook, response, data), MetricFamily::RequestsPending) == if lands(
            hook,
        ) && data is Some {
            -1int
        } else {
            0
        },
        gauge_moves(hook_metrics(hook, response, data), MetricFamily::RequestsPending, 1) == 0,
        gauge_moves(hook_metrics(hook, response, data), MetricFamily::RequestsPending, -1) == if lands(
            hook,
        ) && data is Some {
            1nat
        } else {
            0
        },
{
    let m = hook_metrics(hook, response, data);
    if hook is OnResponse && data is Some {
        assert(m.len() == 3);
        assert(m.drop_last().len() == 2);
        assert(m.drop_last().drop_last().len() == 1);
        assert(m.drop_last().drop_last().drop_last().len() == 0);
        reveal_with_fuel(gauge_net, 4);
        reveal_with_fuel(gauge_moves, 4);
    } else if lands(hook) && data is Some {
        assert(m.len() == 1);
        assert(m.drop_last().len() == 0);
        reveal_with_fuel(gauge_net, 2);
        reveal_with_fuel(gauge_moves, 2);
    } else {
        assert(m.len() == 0);
    }
}

/// In-flight gauge symmetry, for one request: whatever became of it, a
/// response, a stream that ended or failed, or a handler that failed, the
/// request moved the gauge of requests in flight up as often as down: once
/// each way, and never where the request is ignored.
pub proof fn law_gauge_returns<F: Fn(&str) -> String + Copy>(traffic: Traffic<F>, exchange: Exchange)
    requires
        exchange.begun_by(traffic),
    ensures
        gauge_net(exchange.metrics(), MetricFamily::RequestsPending) == 0,
        gauge_moves(exchange.metrics(), MetricFamily::RequestsPending, 1) == gauge_moves(
            exchange.metrics(),
            MetricFamily::RequestsPending,
            -1,
        ),
        gauge_moves(exchange.metrics(), MetricFamily::RequestsPending, 1) == if exchange.data
            is Some {
            1nat
        } else {
            0
        },
{
    let family = MetricFamily::RequestsPending;
    let hooks = request_hooks(exchange.outcome, exchange.frames);
    let asked = hooks_metrics(hooks, exchange.response, exchange.data);
    law_every_hook_fires_at_most_once(exchange.outcome, exchange.frames);
    lemma_gauge_adds(exchange.begun, asked, family, 1);
    lemma_gauge_adds(exchange.begun, asked, family, -1);
    assert(lands(hooks[0]));
    lemma_hook_gauge(hooks[0], exchange.response, exchange.data);
    if hooks.len() == 2 {
        assert(!lands(hooks[1]));
        lemma_hook_gauge(hooks[1], exchange.response, exchange.data);
        assert(hooks.drop_last() =~= seq![hooks[0]]);
        assert(hooks.drop_last().drop_last() =~= Seq::<Hook>::empty());
        reveal_with_fuel(hooks_metrics, 3);
        let one = hook_metrics(hooks[0], exchange.response, exchange.data);
        let two = hook_metrics(hooks[1], exchange.response, exchange.data);
        assert(asked =~= one + two);
        lemma_gauge_adds(one, two, family, 1);
        lemma_gauge_adds(one, two, family, -1);
    } else {
        assert(hooks =~= seq![hooks[0]]);
        assert(hooks.drop_last() =~= Seq::<Hook>::empty());
        reveal_with_fuel(hooks_metrics, 2);
        assert(asked =~= hook_metrics(hooks[0], exchange.response, exchange.data));
    }
    if exchange.data is Some {
        assert(exchange.begun.len() == 1);
        assert(exchange.begun.drop_last().len() == 0);
        reveal_with_fuel(gauge_net, 2);
        reveal_with_fuel(gauge_moves, 2);
    } else {
        assert(exchange.begun.len() == 0);
    }
}

/// In-flight gauge symmetry, for any number of requests: once each of them
/// has come to its end, whichever end, the gauge of requests in flight was
/// moved up as often as down.
pub proof fn law_gauge_symmetry<F: Fn(&str) -> String + Copy>(traffic: Traffic<F>, exchanges: Seq<Exchange>)
    requires
        forall|i: int| 0 <= i < exchanges.len() ==> (#[trigger] exchanges[i]).begun_by(traffic),
    ensures
        gauge_net(exchanges_metrics(exchanges), MetricFamily::RequestsPending) == 0,
        gauge_moves(exchanges_metrics(exchanges), MetricFamily::RequestsPending, 1) == gauge_moves(
            exchanges_metrics(exchanges),
            MetricFamily::RequestsPending,
            -1,
        ),
    decreases exchanges.len(),
{
    if exchanges.len() > 0 {
        let family = MetricFamily::RequestsPending;
        let earlier = exchanges.drop_last();
        assert forall|i: int| 0 <= i < earlier.len() implies (#[trigger] earlier[i]).begun_by(
            traffic,
        ) by {
            assert(earlier[i] == exchanges[i]);
        }
        law_gauge_symmetry(traffic, earlier);
        law_gauge_returns(traffic, exchanges.last());
        lemma_gauge_adds(exchanges_metrics(earlier), exchanges.last().metrics(), family, 1);
        lemma_gauge_adds(exchanges_metrics(earlier), exchanges.last().metrics(), family, -1);
    }
}

/// Taking one event out of a run takes its move out of the run's moves.
proof fn lemma_gauge_without(events: Seq<MetricEventView>, i: int, family: MetricFamily, delta: int)
    requires
        0 <= i < events.len(),
    ensures
        gauge_net(events, family) == gauge_net(events.remove(i), family) + events[i].gauge_delta(
            family,
        ),
        gauge_moves(events, family, delta) == gauge_moves(events.remove(i), family, delta)
            + if events[i].gauge_delta(family) == delta {
            1nat
        } else {
            0nat
        },
{
    let before = events.take(i);
    let one = seq![events[i]];
    let after = events.skip(i + 1);
    assert(events =~= before + one + after);
    assert(events.remove(i) =~= before + after);
    lemma_gauge_adds(before + one, after, family, delta);
    lemma_gauge_adds(before, one, family, delta);
    lemma_gauge_adds(before, after, family, delta);
    assert(one.drop_last() =~= Seq::<MetricEventView>::empty());
    reveal_with_fuel(gauge_net, 2);
    reveal_with_fuel(gauge_moves, 2);
}

/// The moves of a gauge do not depend on the order of the events.
pub proof fn lemma_gauge_ignores_order(
    a: Seq<MetricEventView>,
    b: Seq<MetricEventView>,
    family: MetricFamily,
    delta: int,
)
    requires
        a.to_multiset() == b.to_multiset(),
    ensures
        gauge_net(a, family) == gauge_net(b, family),
        gauge_moves(a, family, delta) == gauge_moves(b, family, delta),
    decreases a.len(),
{
    to_multiset_len(a);
    to_multiset_len(b);
    if a.len() > 0 {
        let last = a.len() - 1;
        let x = a[last];
        assert(a.contains(x));
        to_multiset_contains(a, x);
        to_multiset_contains(b, x);
        let k = choose|k: int| 0 <= k < b.len() && b[k] == x;
        to_multiset_remove(a, last);
        to_multiset_remove(b, k);
        lemma_gauge_ignores_order(a.remove(last), b.remove(k), family, delta);
        lemma_gauge_without(a, last, family, delta);
        lemma_gauge_without(b, k, family, delta);
    }
}

/// In-flight gauge symmetry, for requests that are served at the same
/// time: once each of them has come to its end, whichever end, the gauge of
/// requests in flight was moved up as often as down, in whatever order
/// their events were recorded, and whatever body sizes were recorded among
/// them.
pub proof fn law_gauge_symmetry_in_any_order<F: Fn(&str) -> String + Copy>(
    traffic: Traffic<F>,
    exchanges: Seq<Exchange>,
    body_sizes: Seq<MetricEventView>,
    recorded: Seq<MetricEventView>,
)
    requires
        forall|i: int| 0 <= i < exchanges.len() ==> (#[trigger] exchanges[i]).begun_by(traffic),
        forall|i: int| 0 <= i < body_sizes.len() ==> (#[trigger] body_sizes[i]) is RecordSize,
        recorded.to_multiset() == (exchanges_metrics(exchanges) + body_sizes).to_multiset(),
    ensures
        gauge_net(recorded, MetricFamily::RequestsPending) == 0,
        gauge_moves(recorded, MetricFamily::RequestsPending, 1) == gauge_moves(
            recorded,
            MetricFamily::RequestsPending,
            -1,
        ),
{
    let family = MetricFamily::RequestsPending;
    let asked = exchanges_metrics(exchanges);
    law_gauge_symmetry(traffic, exchanges);
    lemma_sizes_move_no_gauge(body_sizes, family);
    lemma_gauge_adds(asked, body_sizes, family, 1);
    lemma_gauge_adds(asked, body_sizes, family, -1);
    lemma_gauge_ignores_order(recorded, asked + body_sizes, family, 1);
    lemma_gauge_ignores_order(recorded, asked + body_sizes, family, -1);
}

/// Observations of a size move no gauge.
proof fn lemma_sizes_move_no_gauge(sizes: Seq<MetricEventView>, family: MetricFamily)
    requires
        forall|i: int| 0 <= i < sizes.len() ==> (#[trigger] sizes[i]) is RecordSize,
    ensures
        gauge_net(sizes, family) == 0,
        gauge_moves(sizes, family, 1) == 0,
        gauge_moves(sizes, family, -1) == 0,
    decreases sizes.len(),
{
    if sizes.len() > 0 {
        assert forall|i: int| 0 <= i < sizes.drop_last().len() implies (
        #[trigger] sizes.drop_last()[i]) is RecordSize by {
            assert(sizes.drop_last()[i] == sizes[i]);
        }
        lemma_sizes_move_no_gauge(sizes.drop_last(), family);
        assert(sizes.last() == sizes[sizes.len() - 1]);
    }
}

/// An ignored request is given no state, and nothing is recorded for it:
/// not when it is received, and not by any hook that fires after.
pub proof fn law_ignored_request_records_nothing<F: Fn(&str) -> String + Copy>(
    traffic: Traffic<F>,
    exchange: Exchange,
)
    requires
        traffic.spec_ignores(exchange.request.path@),
        exchange.begun_by(traffic),
    ensures
        exchange.data is None,
        exchange.metrics() == Seq::<MetricEventView>::empty(),
{
    let hooks = request_hooks(exchange.outcome, exchange.frames);
    lemma_stateless_hooks_ask_nothing(hooks, exchange.response);
    assert(exchange.metrics() =~= Seq::<MetricEventView>::empty());
}

/// For a request without state the hooks of `Traffic` ask nothing.
proof fn lemma_stateless_hooks_ask_nothing(hooks: Seq<Hook>, response: ResponseHead)
    ensures
        hooks_metrics(hooks, response, None) == Seq::<MetricEventView>::empty(),
    decreases hooks.len(),
{
    if hooks.len() > 0 {
        lemma_stateless_hooks_ask_nothing(hooks.drop_last(), response);
        assert(Seq::<MetricEventView>::empty() + Seq::<MetricEventView>::empty()
            =~= Seq::<MetricEventView>::empty());
    }
}

/// For a request without state, as an ignored request is, the body hooks
/// record nothing and give it no state.
pub proof fn law_stateless_body_records_nothing(
    chunk_len: usize,
    size: u64,
    data_after: Option<MetricsData>,
    metrics: Seq<MetricEventView>,
)
    ensures
        exact_size_recorded(size, None, data_after, metrics) ==> data_after is None && metrics
            == Seq::<MetricEventView>::empty(),
        chunk_recorded(chunk_len, None, data_after, metrics) ==> data_after is None && metrics
            == Seq::<MetricEventView>::empty(),
{
}

/// What the body hooks record moves no gauge, and it carries the method,
/// the status and the endpoint of the request's state, which the hooks
/// leave as they are.
pub proof fn law_body_sizes_carry_the_request_labels(
    chunk_len: usize,
    size: u64,
    data: MetricsData,
    data_after: Option<MetricsData>,
    metrics: Seq<MetricEventView>,
    family: MetricFamily,
)
    requires
        exact_size_recorded(size, Some(data), data_after, metrics) || chunk_recorded(
            chunk_len,
            Some(data),
            data_after,
            metrics,
        ),
    ensures
        gauge_net(metrics, family) == 0,
        data_after is Some,
        data_after->0.endpoint == data.endpoint,
        data_after->0.method == data.method,
        data_after->0.status == data.status,
        data_after->0.start == data.start,
        forall|i: int|
            0 <= i < metrics.len() ==> (#[trigger] metrics[i]).family()
                == MetricFamily::ResponseBodySize && metrics[i].labels() == crate::traffic::labels(
                data.method@,
                data.status,
                data.endpoint@,
            ),
{
    if metrics.len() > 0 {
        assert(metrics.len() == 1);
        assert(metrics.drop_last().len() == 0);
        reveal_with_fuel(gauge_net, 2);
    }
}

/// Every sample of a request carries the request's endpoint label.
pub proof fn law_samples_carry_the_request_label<F: Fn(&str) -> String + Copy>(
    traffic: Traffic<F>,
    exchange: Exchange,
)
    requires
        exchange.begun_by(traffic),
    ensures
        forall|i: int|
            0 <= i < exchange.metrics().len() ==> exchange.data is Some && (
            #[trigger] exchange.metrics()[i]).labels().endpoint == exchange.data->0.endpoint@,
{
    let hooks = request_hooks(exchange.outcome, exchange.frames);
    lemma_hooks_carry_the_label(hooks, exchange.response, exchange.data);
}

/// Every sample that the hooks of `Traffic` ask for carries the endpoint
/// label of the request's state.
proof fn lemma_hooks_carry_the_label(hooks: Seq<Hook>, response: ResponseHead, data: Option<MetricsData>)
    ensures
        forall|i: int|
            0 <= i < hooks_metrics(hooks, response, data).len() ==> data is Some && (
            #[trigger] hooks_metrics(hooks, response, data)[i]).labels().endpoint
                == data->0.endpoint@,
    decreases hooks.len(),
{
    if hooks.len() > 0 {
        lemma_hooks_carry_the_label(hooks.drop_last(), response, data);
    }
}

/// Group pattern rewrite: two requests whose endpoints fall into the same
/// group are reported under one label, the group's, however their paths
/// differ.
pub proof fn law_grouped_requests_share_a_label<F: Fn(&str) -> String + Copy>(
    traffic: Traffic<F>,
    group: Seq<char>,
    one: Exchange,
    other: Exchange,
)
    requires
        one.begun_by(traffic),
        other.begun_by(traffic),
        forall|label: Seq<char>| #[trigger]
            traffic.endpoint_resolved(one.request, label) ==> first_group(traffic.groups(), label)
                == Some(group),
        forall|label: Seq<char>| #[trigger]
            traffic.endpoint_resolved(other.request, label) ==> first_group(traffic.groups(), label)
                == Some(group),
    ensures
        forall|i: int|
            0 <= i < one.metrics().len() ==> (#[trigger] one.metrics()[i]).labels().endpoint
                == group,
        forall|i: int|
            0 <= i < other.metrics().len() ==> (#[trigger] other.metrics()[i]).labels().endpoint
                == group,
        one.data matches Some(d) ==> d.endpoint@ == group,
        other.data matches Some(d) ==> d.endpoint@ == group,
{
    law_samples_carry_the_request_label(traffic, one);
    law_samples_carry_the_request_label(traffic, other);
}

/// With `Traffic` as its callbacks, the arrival of a request asks for what
/// `prepares` says, gives the request the state that `prepares` says, and
/// leaves the callbacks as they were.
pub proof fn law_traffic_at_the_request<FailureClass, F: Fn(&str) -> String + Copy, S, MC, OBC: Clone, OES: Clone>(
    before: LifeCycle<S, MC, Traffic<F>, OBC, OES>,
    request: RequestHead,
    after: LifeCycle<S, MC, Traffic<F>, OBC, OES>,
    future: ResponseFuture<Traffic<F>, OBC, OES, Option<MetricsData>>,
    metrics: Seq<MetricEventView>,
)
    requires
        LifeCycle::received::<FailureClass>(before, request, after, future, metrics),
    ensures
        after.callbacks == before.callbacks,
        future.is_pending(),
        before.callbacks.prepares(request, future.callbacks_data()->0, metrics),
        future.callbacks()->0.ignore_routes() == before.callbacks.ignore_routes(),
        future.callbacks()->0.groups() == before.callbacks.groups(),
        future.callbacks()->0.endpoint_label() == before.callbacks.endpoint_label(),
{
}

/// With `Traffic` as its callbacks, the step between the handler and the
/// body asks for what `hook_metrics` says of the hook that fires, and hands
/// the state of the request on to the body with the status of the
/// response.
pub proof fn law_traffic_at_the_response<FailureClass, C, F: Fn(&str) -> String + Copy, OBC, OES>(
    before: ResponseFuture<Traffic<F>, OBC, OES, Option<MetricsData>>,
    polled: Polled<FailureClass, C>,
    body: Option<ResponseBody<C, Traffic<F>, OBC, OES, Option<MetricsData>>>,
    metrics: Seq<MetricEventView>,
)
    requires
        before.is_pending(),
        ResponseFuture::completed(before, polled, body, metrics),
    ensures
        polled matches Polled::Response { head, .. } ==> body is Some && body->0.callbacks_data()
            == with_status(head, before.callbacks_data()->0) && metrics == hook_metrics(
            completion_hook(polled.outcome()),
            head,
            before.callbacks_data()->0,
        ),
        polled is Error ==> body is None && forall|response: ResponseHead|
            metrics == #[trigger] hook_metrics(
                completion_hook(polled.outcome()),
                response,
                before.callbacks_data()->0,
            ),
{
}

/// With `Traffic` as its callbacks, the end of a stream records nothing and
/// leaves the state of the request as it was, whatever the classifier
/// answers.
pub proof fn law_traffic_at_the_end<FailureClass, C, KE, KF, F: Fn(&str) -> String + Copy, OBC, OES>(
    before: ResponseBody<C, Traffic<F>, OBC, OES, Option<MetricsData>>,
    frame: Frame<KE, KF>,
    after: ResponseBody<C, Traffic<F>, OBC, OES, Option<MetricsData>>,
    metrics: Seq<MetricEventView>,
) where KE: FnOnce(C) -> Result<(), FailureClass>, KF: FnOnce(C) -> FailureClass
    requires
        frame.kind().is_terminal(),
        ResponseBody::observed_end(before, frame, after, metrics),
    ensures
        metrics == Seq::<MetricEventView>::empty(),
        after.callbacks_data() == before.callbacks_data(),
{
}

/// With `BodySizeRecorder` as both body hooks, or with neither, a chunk
/// records observations of the body's size and nothing else: none for a
/// request without state, which stays without, and for a request with state
/// at most one, under the method, the status and the endpoint of the state,
/// which stay.
pub proof fn law_recorder_at_a_chunk<C, CB>(
    before: ResponseBody<C, CB, Option<BodySizeRecorder>, Option<BodySizeRecorder>, Option<MetricsData>>,
    len: usize,
    size: Option<u64>,
    after: ResponseBody<C, CB, Option<BodySizeRecorder>, Option<BodySizeRecorder>, Option<MetricsData>>,
    metrics: Seq<MetricEventView>,
)
    requires
        before.on_body_chunk() is Some <==> before.on_exact_body_size() is Some,
        ResponseBody::observed_chunk(before, len, size, after, metrics),
    ensures
        after.on_body_chunk() is Some <==> after.on_exact_body_size() is Some,
        metrics.len() <= 1,
        before.on_body_chunk() is None ==> metrics.len() == 0 && after.callbacks_data()
            == before.callbacks_data(),
        before.callbacks_data() is None ==> metrics.len() == 0 && after.callbacks_data() is None,
        before.callbacks_data() matches Some(data) ==> after.callbacks_data() is Some
            && after.callbacks_data()->0.endpoint == data.endpoint
            && after.callbacks_data()->0.method == data.method && after.callbacks_data()->0.status
            == data.status && after.callbacks_data()->0.start == data.start,
        forall|i: int|
            0 <= i < metrics.len() ==> (#[trigger] metrics[i]) is RecordSize && metrics[i].family()
                == MetricFamily::ResponseBodySize && metrics[i].labels() == crate::traffic::labels(
                before.callbacks_data()->0.method@,
                before.callbacks_data()->0.status,
                before.callbacks_data()->0.endpoint@,
            ),
{
    let (data, sized, chunked) = choose|
        data: Option<MetricsData>,
        sized: Seq<MetricEventView>,
        chunked: Seq<MetricEventView>,
    |
        {
            &&& #[trigger] ResponseBody::chunk_steps(before, len, size, data, sized, chunked, after)
            &&& metrics =~= sized + chunked
        };
    assert(metrics =~= sized + chunked);
}

} // verus!
