use axum_prometheus::lifecycle::body::{Frame, ResponseBody};
use axum_prometheus::lifecycle::future::{Polled, ResponseFuture};
use axum_prometheus::lifecycle::layer::LifeCycleLayer;
use axum_prometheus::lifecycle::service::LifeCycle;
use axum_prometheus::lifecycle::{
    Callbacks, ClassifiedResponse, FailedAt, OnBodyChunk, OnExactBodySize,
};
use axum_prometheus::message::{Method, RequestHead, ResponseHead, Trailers};
use axum_prometheus::metric::MetricEvent;
use std::sync::{Arc, Mutex};

/// A journal that every hook of a request writes to.
type Log = Arc<Mutex<Vec<String>>>;

fn write(log: &Log, line: String) {
    log.lock().unwrap().push(line);
}

fn lines(log: &Log) -> Vec<String> {
    log.lock().unwrap().clone()
}

/// Callbacks that write down every hook that fires.
#[derive(Clone, Debug, Default)]
struct Journal {
    log: Log,
}

impl Callbacks<&'static str> for Journal {
    type Data = Log;

    fn prepare(&mut self, request: &RequestHead) -> (Log, Vec<MetricEvent>) {
        write(&self.log, format!("prepare {}", request.path));
        (self.log.clone(), Vec::new())
    }

    fn on_response(
        &mut self,
        response: &ResponseHead,
        classification: ClassifiedResponse<&'static str, ()>,
        data: &mut Log,
    ) -> Vec<MetricEvent> {
        let kind = match classification {
            ClassifiedResponse::Ready(Ok(())) => "ready ok".to_string(),
            ClassifiedResponse::Ready(Err(class)) => format!("ready {}", class),
            ClassifiedResponse::RequiresEos(()) => "requires eos".to_string(),
        };
        write(data, format!("on_response {} {}", response.status, kind));
        Vec::new()
    }

    fn on_eos(
        self,
        trailers: Option<&Trailers>,
        classification: Result<(), &'static str>,
        data: Log,
    ) -> Vec<MetricEvent> {
        write(&data, format!("on_eos {:?} {:?}", trailers.map(|t| t.len()), classification));
        Vec::new()
    }

    fn on_failure(
        self,
        failed_at: FailedAt,
        failure_classification: &'static str,
        data: &mut Log,
    ) -> Vec<MetricEvent> {
        write(data, format!("on_failure {:?} {}", failed_at, failure_classification));
        Vec::new()
    }
}

#[derive(Clone, Debug, Default)]
struct ChunkJournal;

impl OnBodyChunk for ChunkJournal {
    type Data = Log;

    fn call(&mut self, chunk_len: usize, exact_body_size: Option<u64>, data: &mut Log) -> Vec<MetricEvent> {
        write(data, format!("chunk {} {:?}", chunk_len, exact_body_size));
        Vec::new()
    }
}

#[derive(Clone, Debug, Default)]
struct SizeJournal;

impl OnExactBodySize for SizeJournal {
    type Data = Log;

    fn call(&mut self, size: u64, data: &mut Log) -> Vec<MetricEvent> {
        write(data, format!("exact size {}", size));
        Vec::new()
    }
}

type Service = LifeCycle<&'static str, u8, Journal, ChunkJournal, SizeJournal>;

/// A classifier of the end of a stream that answers what it was told to.
#[derive(Clone, Copy, Debug)]
struct Judge {
    eos: Result<(), &'static str>,
    failure: &'static str,
}

const LENIENT: Judge = Judge { eos: Ok(()), failure: "reset" };

type Body = ResponseBody<Judge, Journal, ChunkJournal, SizeJournal, Log>;

type AtEnd = fn(Judge) -> Result<(), &'static str>;

type AtError = fn(Judge) -> &'static str;

type TestFrame = Frame<AtEnd, AtError>;

fn data(len: usize) -> TestFrame {
    Frame::Data { len }
}

fn trailers(trailers: Trailers) -> TestFrame {
    Frame::Trailers { trailers, classify: |judge: Judge| judge.eos }
}

fn end() -> TestFrame {
    Frame::End { classify: |judge: Judge| judge.eos }
}

fn body_error() -> TestFrame {
    Frame::BodyError { classify: |judge: Judge| judge.failure }
}

fn trailers_error() -> TestFrame {
    Frame::TrailersError { classify: |judge: Judge| judge.failure }
}

fn request(path: &str) -> RequestHead {
    RequestHead { method: Method::Get, path: path.to_string(), matched_path: None, received_at: 0 }
}

fn response(status: u16) -> ResponseHead {
    ResponseHead { status, content_length: None, produced_at: 10 }
}

fn ready(status: u16) -> Polled<&'static str, Judge> {
    Polled::Response { head: response(status), classification: ClassifiedResponse::Ready(Ok(())) }
}

fn streaming(status: u16, judge: Judge) -> Polled<&'static str, Judge> {
    Polled::Response { head: response(status), classification: ClassifiedResponse::RequiresEos(judge) }
}

/// Hands a request to a service and the handler's result to the future.
fn respond(path: &str, polled: Polled<&'static str, Judge>) -> (Option<Body>, Log) {
    let log = Log::default();
    let mut service: Service =
        LifeCycle::new("handler", 7, Journal { log: log.clone() }, ChunkJournal, SizeJournal);
    let (mut future, metrics) = service.call::<&'static str>(&request(path));
    assert!(metrics.is_empty());
    assert!(future.is_waiting());
    let (body, metrics) = future.poll(polled);
    assert!(metrics.is_empty());
    assert!(!future.is_waiting());
    (body, log)
}

fn feed(body: &mut Body, frames: Vec<TestFrame>) {
    for frame in frames {
        let metrics = body.poll_frame(frame, None);
        assert!(metrics.is_empty());
    }
}

#[test]
fn ready_response_fires_on_response_once_and_nothing_after() {
    let (body, log) = respond("/fast", ready(200));
    let mut body = body.expect("a response has a body");
    assert!(!body.is_awaiting_eos());
    feed(
        &mut body,
        vec![
            data(5),
            trailers(Vec::new()),
            end(),
            body_error(),
            trailers_error(),
        ],
    );
    assert_eq!(lines(&log), vec!["prepare /fast", "on_response 200 ready ok", "chunk 5 None"]);
}

#[test]
fn response_classified_as_failure_fires_on_response_not_on_failure() {
    let polled = Polled::Response {
        head: response(500),
        classification: ClassifiedResponse::Ready(Err("server error")),
    };
    let (body, log) = respond("/broken", polled);
    let mut body = body.expect("a response has a body");
    assert!(!body.is_awaiting_eos());
    feed(&mut body, vec![end()]);
    assert_eq!(lines(&log), vec!["prepare /broken", "on_response 500 ready server error"]);
}

#[test]
fn streamed_response_fires_on_eos_once_after_on_response() {
    let (body, log) = respond("/stream", streaming(200, LENIENT));
    let mut body = body.expect("a response has a body");
    assert!(body.is_awaiting_eos());
    feed(
        &mut body,
        vec![
            data(2),
            data(3),
            end(),
            end(),
            body_error(),
        ],
    );
    assert!(!body.is_awaiting_eos());
    assert_eq!(
        lines(&log),
        vec![
            "prepare /stream",
            "on_response 200 requires eos",
            "chunk 2 None",
            "chunk 3 None",
            "on_eos None Ok(())",
        ]
    );
}

#[test]
fn trailers_end_the_stream_and_go_to_on_eos() {
    let strict = Judge { eos: Err("internal"), failure: "reset" };
    let (body, log) = respond("/stream", streaming(200, strict));
    let mut body = body.expect("a response has a body");
    let sent: Trailers = vec![("grpc-status".to_string(), b"13".to_vec())];
    feed(&mut body, vec![trailers(sent), end()]);
    assert!(!body.is_awaiting_eos());
    assert_eq!(
        lines(&log),
        vec![
            "prepare /stream",
            "on_response 200 requires eos",
            "on_eos Some(1) Err(\"internal\")",
        ]
    );
}

#[test]
fn the_classifier_of_the_response_judges_the_end_of_its_stream() {
    let (first, first_log) = respond("/a", streaming(200, Judge { eos: Err("bad trailers"), failure: "x" }));
    let (second, second_log) = respond("/b", streaming(200, Judge { eos: Ok(()), failure: "y" }));
    let mut first = first.expect("a response has a body");
    let mut second = second.expect("a response has a body");
    feed(&mut second, vec![body_error(), end()]);
    feed(&mut first, vec![end(), body_error()]);
    assert_eq!(lines(&first_log)[2], "on_eos None Err(\"bad trailers\")");
    assert_eq!(lines(&second_log)[2], "on_failure Body y");
    assert_eq!(lines(&first_log).len(), 3);
    assert_eq!(lines(&second_log).len(), 3);
}

#[test]
fn handler_error_fires_on_failure_at_response_and_gives_no_body() {
    let (body, log) = respond("/down", Polled::Error { failure_classification: "refused" });
    assert!(body.is_none());
    assert_eq!(lines(&log), vec!["prepare /down", "on_failure Response refused"]);
}

#[test]
fn body_error_fires_on_failure_at_body_once_and_never_on_eos() {
    let (body, log) = respond("/stream", streaming(200, LENIENT));
    let mut body = body.expect("a response has a body");
    feed(
        &mut body,
        vec![
            data(4),
            body_error(),
            end(),
            trailers(Vec::new()),
            body_error(),
        ],
    );
    assert!(!body.is_awaiting_eos());
    assert_eq!(
        lines(&log),
        vec![
            "prepare /stream",
            "on_response 200 requires eos",
            "chunk 4 None",
            "on_failure Body reset",
        ]
    );
}

#[test]
fn trailers_error_fires_on_failure_at_trailers() {
    let (body, log) = respond("/stream", streaming(200, Judge { eos: Ok(()), failure: "cut" }));
    let mut body = body.expect("a response has a body");
    feed(&mut body, vec![trailers_error()]);
    assert_eq!(
        lines(&log),
        vec!["prepare /stream", "on_response 200 requires eos", "on_failure Trailers cut"]
    );
}

#[test]
fn a_chunk_leaves_the_terminal_hook_owed() {
    let (body, log) = respond("/stream", streaming(200, Judge { eos: Err("late"), failure: "reset" }));
    let mut body = body.expect("a response has a body");
    for len in 0..10 {
        let _ = body.poll_frame(data(len), None);
        assert!(body.is_awaiting_eos());
    }
    let _ = body.poll_frame(
        trailers(Vec::new()),
        None,
    );
    assert!(!body.is_awaiting_eos());
    assert_eq!(lines(&log).len(), 13);
    assert_eq!(lines(&log)[12], "on_eos Some(0) Err(\"late\")");
}

#[test]
fn chunks_after_the_end_are_still_observed() {
    let (body, log) = respond("/stream", streaming(200, LENIENT));
    let mut body = body.expect("a response has a body");
    feed(&mut body, vec![end(), data(1)]);
    assert_eq!(
        lines(&log),
        vec!["prepare /stream", "on_response 200 requires eos", "on_eos None Ok(())", "chunk 1 None"]
    );
}

#[test]
fn exact_size_goes_to_its_hook_once_before_the_first_chunk() {
    let (body, log) = respond("/sized", ready(200));
    let mut body = body.expect("a response has a body");
    let _ = body.poll_frame(data(4), Some(10));
    let _ = body.poll_frame(data(6), Some(10));
    assert_eq!(
        lines(&log),
        vec![
            "prepare /sized",
            "on_response 200 ready ok",
            "exact size 10",
            "chunk 4 Some(10)",
            "chunk 6 Some(10)",
        ]
    );
}

#[test]
fn exact_size_that_is_learnt_late_goes_to_its_hook_then() {
    let (body, log) = respond("/sized", ready(200));
    let mut body = body.expect("a response has a body");
    let _ = body.poll_frame(data(4), None);
    let _ = body.poll_frame(data(6), Some(10));
    let _ = body.poll_frame(data(0), Some(10));
    assert_eq!(
        lines(&log),
        vec![
            "prepare /sized",
            "on_response 200 ready ok",
            "chunk 4 None",
            "exact size 10",
            "chunk 6 Some(10)",
            "chunk 0 Some(10)",
        ]
    );
}

#[test]
fn exact_size_is_not_told_without_a_chunk() {
    let (body, log) = respond("/sized", streaming(200, LENIENT));
    let mut body = body.expect("a response has a body");
    let _ = body.poll_frame(body_error(), Some(10));
    assert_eq!(
        lines(&log),
        vec!["prepare /sized", "on_response 200 requires eos", "on_failure Body reset"]
    );
}

#[test]
fn content_length_header_gives_the_exact_size_where_the_body_gives_none() {
    let head = ResponseHead { status: 200, content_length: Some(b"42".to_vec()), produced_at: 1 };
    let polled = Polled::Response { head, classification: ClassifiedResponse::Ready(Ok(())) };
    let (body, log) = respond("/sized", polled);
    let mut body = body.expect("a response has a body");
    let _ = body.poll_frame(data(42), None);
    let _ = body.poll_frame(data(1), Some(43));
    assert_eq!(
        lines(&log),
        vec![
            "prepare /sized",
            "on_response 200 ready ok",
            "exact size 42",
            "chunk 42 Some(42)",
            "chunk 1 Some(43)",
        ]
    );
}

#[test]
fn content_length_header_that_is_no_number_gives_no_size() {
    let head = ResponseHead { status: 200, content_length: Some(b"4 2".to_vec()), produced_at: 1 };
    let polled = Polled::Response { head, classification: ClassifiedResponse::Ready(Ok(())) };
    let (body, log) = respond("/sized", polled);
    let mut body = body.expect("a response has a body");
    let _ = body.poll_frame(data(42), None);
    assert_eq!(lines(&log), vec!["prepare /sized", "on_response 200 ready ok", "chunk 42 None"]);
}

#[test]
fn every_request_gets_its_own_future() {
    let log = Log::default();
    let mut service: Service =
        LifeCycle::new("handler", 7, Journal { log: log.clone() }, ChunkJournal, SizeJournal);
    let (mut first, _) = service.call::<&'static str>(&request("/one"));
    let (mut second, _) = service.call::<&'static str>(&request("/two"));
    let (none, _) = second.poll(Polled::<&'static str, Judge>::Error { failure_classification: "refused" });
    let (some, _) = first.poll(ready(204));
    assert!(none.is_none());
    assert!(some.is_some());
    assert_eq!(
        lines(&log),
        vec![
            "prepare /one",
            "prepare /two",
            "on_failure Response refused",
            "on_response 204 ready ok",
        ]
    );
}

#[test]
fn a_future_holds_what_it_was_given_until_it_is_polled() {
    let log = Log::default();
    let mut future = ResponseFuture::new(Journal { log: log.clone() }, ChunkJournal, SizeJournal, log.clone());
    assert!(future.is_waiting());
    let (body, _) = future.poll(streaming(200, LENIENT));
    assert!(!future.is_waiting());
    assert!(body.expect("a response has a body").is_awaiting_eos());
    assert_eq!(lines(&log), vec!["on_response 200 requires eos"]);
}

#[test]
fn a_body_without_parts_owes_nothing() {
    let log = Log::default();
    let mut body: Body = ResponseBody::new(None, log.clone(), ChunkJournal, SizeJournal, None);
    assert!(!body.is_awaiting_eos());
    feed(&mut body, vec![end()]);
    assert!(lines(&log).is_empty());
    let mut armed: Body =
        ResponseBody::new(Some((LENIENT, Journal { log: log.clone() })), log.clone(), ChunkJournal, SizeJournal, None);
    assert!(armed.is_awaiting_eos());
    feed(&mut armed, vec![end()]);
    assert_eq!(lines(&log), vec!["on_eos None Ok(())"]);
}

#[test]
fn service_keeps_its_handler() {
    let mut service: Service = LifeCycle::new("handler", 7, Journal::default(), ChunkJournal, SizeJournal);
    assert_eq!(*service.get_ref(), "handler");
    *service.get_mut() = "other";
    assert_eq!(*service.get_ref(), "other");
    assert_eq!(service.make_classifier, 7);
    assert_eq!(service.into_inner(), "other");
}

#[test]
fn layer_hands_its_parts_to_every_service() {
    let mut layer = LifeCycleLayer::new(7u8, Journal::default(), ChunkJournal, SizeJournal);
    layer.on_body_chunk(ChunkJournal);
    layer.on_exact_body_size(SizeJournal);
    let one = layer.layer("one");
    let two = layer.layer("two");
    assert_eq!(one.inner, "one");
    assert_eq!(two.inner, "two");
    assert_eq!(one.make_classifier, 7);
    assert_eq!(two.make_classifier, 7);
    let other: LifeCycleLayer<u8, Journal, ChunkJournal, SizeJournal> =
        Service::layer(9, Journal::default(), ChunkJournal, SizeJournal);
    assert_eq!(other.make_classifier, 9);
}
