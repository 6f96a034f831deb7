use vredditor::proto::{
    ClientMessage, CloseCode, Handshake, JobState, JobStatus, RawProtoResult, RawProtoResultWrapper,
    ServerMessage, Token, TokenMessage, TranscodeOpts, TranscodeReqMessage, TranscodeRespMessage,
};
use vredditor::proto::{Frame, TranscodeReq};
use vredditor::session::{
    enqueued, handle_frame, handle_message, is_unanswerable, protocol_error, Step, StreamState,
};
use vredditor::token::EnvAuthorizer;

fn authz() -> EnvAuthorizer {
    // "c2VjcmV0" is "secret"
    EnvAuthorizer::from_keys("VR_AUTHORIZED_KEYS", "c2VjcmV0").unwrap()
}

fn handshake(token: Option<&[u8]>) -> ClientMessage {
    ClientMessage::Transcode(TranscodeReqMessage::Handshake(Handshake {
        token: token.map(|t| TokenMessage { token: Some(Token::V1(t.to_vec())) }),
    }))
}

fn transcode(url: &str) -> ClientMessage {
    ClientMessage::Transcode(TranscodeReqMessage::Transcode(TranscodeOpts { url: url.to_string() }))
}

fn status() -> ClientMessage {
    ClientMessage::Transcode(TranscodeReqMessage::Status(()))
}

fn cancel() -> ClientMessage {
    ClientMessage::Transcode(TranscodeReqMessage::Cancel(()))
}

fn accepted(r: Result<&str, &str>) -> ServerMessage {
    ServerMessage::Transcode(TranscodeRespMessage::Accepted(RawProtoResultWrapper {
        result_inner: Some(match r {
            Ok(u) => RawProtoResult::Success(u.to_string()),
            Err(e) => RawProtoResult::Failure(e.to_string()),
        }),
    }))
}

fn status_reply(s: JobState) -> ServerMessage {
    ServerMessage::Transcode(TranscodeRespMessage::JobStatus(JobStatus { state: Some(s) }))
}

fn continued(step: Step<u32>) -> (Vec<ServerMessage>, StreamState<u32>) {
    match step {
        Step::Continue { replies, next } => (replies, next),
        other => panic!("expected to continue, got {:?}", other),
    }
}

fn is_state(s: &StreamState<u32>, expected: &str) -> bool {
    match (s, expected) {
        (StreamState::New, "new") => true,
        (StreamState::Waiting, "waiting") => true,
        (StreamState::Running(_), "running") => true,
        (StreamState::Closed { .. }, "closed") => true,
        _ => false,
    }
}

#[test]
fn happy_path_session() {
    let a = authz();
    let (replies, st) = continued(handle_message(StreamState::New, None, &a, handshake(Some(b"secret"))));
    assert_eq!(replies, vec![accepted(Ok("READY"))]);
    assert!(is_state(&st, "waiting"));

    let step = handle_message(st, None, &a, transcode("https://google.com"));
    let url = match step {
        Step::Enqueue { replies, url } => {
            assert!(replies.is_empty());
            url
        }
        other => panic!("expected enqueue, got {:?}", other),
    };
    // the parsed form, not the text the client sent
    assert_eq!(url.as_str(), "https://google.com/");

    let (replies, st) = continued(enqueued(7u32));
    assert_eq!(replies, vec![status_reply(JobState::Queued(()))]);
    assert!(matches!(st, StreamState::Running(7)));

    let (replies, st) = continued(handle_message(st, Some(JobState::Processing(())), &a, status()));
    assert_eq!(replies, vec![status_reply(JobState::Processing(()))]);
    assert!(matches!(st, StreamState::Running(7)));
}

#[test]
fn rejected_and_missing_tokens() {
    let a = authz();
    let (replies, st) = continued(handle_message(StreamState::Waiting, None, &a, handshake(Some(b"nope"))));
    assert_eq!(replies, vec![accepted(Err("token is not authorized"))]);
    assert!(is_state(&st, "new"));

    let (replies, st) = continued(handle_message(StreamState::New, None, &a, handshake(None)));
    assert_eq!(replies, vec![accepted(Err("token is required but not provided"))]);
    assert!(is_state(&st, "new"));
}

#[test]
fn handshake_while_running_is_refused() {
    let a = authz();
    let (replies, st) = continued(handle_message(
        StreamState::Running(1),
        Some(JobState::Queued(())),
        &a,
        handshake(Some(b"secret")),
    ));
    assert_eq!(replies, vec![accepted(Err("cannot handshake at this time"))]);
    assert!(is_state(&st, "running"));
}

#[test]
fn unauthenticated_requests_fail() {
    let a = authz();
    for m in vec![transcode("https://x.org"), status(), cancel()] {
        match handle_message(StreamState::<u32>::New, None, &a, m) {
            Step::Fail(e) => assert_eq!(e, "unauthenticated: cannot use function"),
            other => panic!("expected failure, got {:?}", other),
        }
    }
}

#[test]
fn bad_url_is_reported() {
    let a = authz();
    let (replies, st) = continued(handle_message(StreamState::Waiting, None, &a, transcode("not a url")));
    assert_eq!(replies, vec![ServerMessage::error("error: relative URL without a base".to_string())]);
    assert!(is_state(&st, "waiting"));
}

#[test]
fn transcode_after_close_reports_the_close_first() {
    let a = authz();
    match handle_message(StreamState::<u32>::Closed { authenticated: true }, None, &a, transcode("https://x.org/a")) {
        Step::Enqueue { replies, url } => {
            assert_eq!(
                replies,
                vec![ServerMessage::close_with_reason(CloseCode::Error, "connection already closed".to_string())]
            );
            assert_eq!(url.as_str(), "https://x.org/a");
        }
        other => panic!("expected enqueue, got {:?}", other),
    }
}

#[test]
fn transcode_with_queued_job_is_refused() {
    let a = authz();
    let (replies, st) = continued(handle_message(
        StreamState::Running(3),
        Some(JobState::Queued(())),
        &a,
        transcode("https://x.org"),
    ));
    assert_eq!(
        replies,
        vec![ServerMessage::error(
            "there is a job queued. wait for it to finish or cancel it before starting another".to_string()
        )]
    );
    assert!(is_state(&st, "running"));
}

#[test]
fn transcode_after_completed_job_queues_again() {
    let a = authz();
    let done = JobState::from_result(Ok("https://i.brod.es/a.mp4".to_string()));
    match handle_message(StreamState::Running(3u32), Some(done), &a, transcode("https://x.org")) {
        Step::Enqueue { replies, url } => {
            assert!(replies.is_empty());
            assert_eq!(url.as_str(), "https://x.org/");
        }
        other => panic!("expected enqueue, got {:?}", other),
    }
}

#[test]
fn status_when_waiting_and_closed() {
    let a = authz();
    let (replies, _) = continued(handle_message(StreamState::Waiting, None, &a, status()));
    assert_eq!(replies, vec![status_reply(JobState::NoJobs(()))]);
    let (replies, st) = continued(handle_message(StreamState::Closed { authenticated: true }, None, &a, status()));
    assert!(replies.is_empty());
    assert!(is_state(&st, "closed"));
}

#[test]
fn cancel_running_and_idle() {
    let a = authz();
    match handle_message(StreamState::Running(9u32), Some(JobState::Processing(())), &a, cancel()) {
        Step::Cancel { job, replies, next } => {
            assert_eq!(job, 9);
            assert_eq!(replies, vec![status_reply(JobState::Cancelled(()))]);
            assert!(matches!(next, StreamState::Waiting));
        }
        other => panic!("expected cancel, got {:?}", other),
    }
    let (replies, st) = continued(handle_message(StreamState::Waiting, None, &a, cancel()));
    assert_eq!(replies, vec![ServerMessage::error("cancel is not possible at this time".to_string())]);
    assert!(is_state(&st, "waiting"));
}

#[test]
fn ping_close_and_unsupported() {
    let a = authz();
    let (replies, st) = continued(handle_message(StreamState::New, None, &a, ClientMessage::Ping(vec![4, 2])));
    assert_eq!(replies, vec![ServerMessage::Pong(vec![4, 2])]);
    assert!(is_state(&st, "new"));
    let (replies, st) = continued(handle_message(StreamState::Waiting, None, &a, ClientMessage::Close));
    assert!(replies.is_empty());
    assert!(is_state(&st, "closed"));
    let (replies, st) = continued(handle_message(
        StreamState::Waiting,
        None,
        &a,
        ClientMessage::CloseReason { code: CloseCode::Normal, reason: "bye".to_string() },
    ));
    assert!(replies.is_empty());
    assert!(is_state(&st, "closed"));
    let (replies, st) = continued(handle_message(
        StreamState::Waiting,
        None,
        &a,
        ClientMessage::Unsupported("x".to_string()),
    ));
    assert!(replies.is_empty());
    assert!(is_state(&st, "waiting"));
}

#[test]
fn job_state_seen_by_the_connection() {
    let running: StreamState<u32> = StreamState::Running(1);
    assert_eq!(running.job_state(Some(JobState::NoJobs(()))), None);
    assert_eq!(running.job_state(Some(JobState::Unknown(()))), None);
    assert_eq!(running.job_state(Some(JobState::Queued(()))), Some(JobState::Queued(())));
    let waiting: StreamState<u32> = StreamState::Waiting;
    assert_eq!(waiting.job_state(Some(JobState::Queued(()))), None);
    assert!(StreamState::<u32>::New.bail_if_unauthed().is_err());
    assert_eq!(
        StreamState::<u32>::New.bail_if_unauthed(),
        Err("unauthenticated: cannot use function".to_string())
    );
    assert_eq!(StreamState::<u32>::Closed { authenticated: true }.bail_if_unauthed(), Ok(()));
}

#[test]
fn protocol_errors() {
    assert_eq!(
        protocol_error("bad frame".to_string()),
        ServerMessage::error("protocol error: bad frame".to_string())
    );
}

#[test]
fn frames_are_handled_or_answered_with_protocol_errors() {
    let a = authz();
    let (replies, st) = continued(handle_frame(StreamState::Waiting, None, &a, Frame::Text("hi".to_string())));
    assert_eq!(
        replies,
        vec![ServerMessage::error(
            "protocol error: unsupported transcode request type from client: Text(\"hi\")".to_string()
        )]
    );
    assert!(is_state(&st, "waiting"));
    let frame = Frame::Binary(Ok(TranscodeReq { req: Some(TranscodeReqMessage::Status(())) }));
    let (replies, _) = continued(handle_frame(StreamState::Waiting, None, &a, frame));
    assert_eq!(replies, vec![status_reply(JobState::NoJobs(()))]);
    let (replies, st) = continued(handle_frame(StreamState::New, None, &a, Frame::Ping(vec![1])));
    assert_eq!(replies, vec![ServerMessage::Pong(vec![1])]);
    assert!(is_state(&st, "new"));
}

#[test]
fn closed_before_authenticating_stays_unauthenticated() {
    let a = authz();
    let (_, st) = continued(handle_message(StreamState::New, None, &a, ClientMessage::Close));
    assert!(matches!(st, StreamState::Closed { authenticated: false }));
    for m in vec![transcode("https://example.com/v.mp4"), status(), cancel()] {
        match handle_message(StreamState::<u32>::Closed { authenticated: false }, None, &a, m) {
            Step::Fail(e) => assert_eq!(e, "unauthenticated: cannot use function"),
            other => panic!("expected failure, got {:?}", other),
        }
    }
    let (_, st) = continued(handle_message(StreamState::Waiting, None, &a, ClientMessage::Close));
    assert!(matches!(st, StreamState::Closed { authenticated: true }));
    assert_eq!(
        StreamState::<u32>::Closed { authenticated: false }.bail_if_unauthed(),
        Err("unauthenticated: cannot use function".to_string())
    );
}

#[test]
fn unanswerable_frames() {
    let status_frame = Frame::Binary(Ok(TranscodeReq { req: Some(TranscodeReqMessage::Status(())) }));
    assert!(is_unanswerable(&StreamState::Running(1u32), &Some(JobState::NoJobs(())), &status_frame));
    assert!(!is_unanswerable(&StreamState::Running(1u32), &Some(JobState::Queued(())), &status_frame));
    assert!(!is_unanswerable(&StreamState::<u32>::Waiting, &None, &status_frame));
    assert!(!is_unanswerable(&StreamState::Running(1u32), &Some(JobState::NoJobs(())), &Frame::Ping(vec![])));
}
