use vredditor::proto::{
    ClientMessage, CloseCode, CloseFrame, Frame, Handshake, JobState, JobStateCheck, JobStatus,
    RawProtoResult, RawProtoResultWrapper, ServerMessage, TranscodeOpts, TranscodeReq,
    TranscodeReqMessage, TranscodeResp, TranscodeRespMessage,
};

fn completed(r: Result<String, String>) -> JobState {
    JobState::from_result(r)
}

#[test]
fn job_state_texts() {
    assert_eq!(JobState::Queued(()).to_string(), "QUEUED");
    assert_eq!(JobState::NoJobs(()).to_string(), "NO JOBS");
    assert_eq!(JobState::Processing(()).to_string(), "PROCESSING");
    assert_eq!(JobState::Uploading(()).to_string(), "UPLOADING");
    assert_eq!(JobState::Cancelled(()).to_string(), "CANCELLED");
    assert_eq!(JobState::Unknown(()).to_string(), "UNKNOWN");
    assert_eq!(
        completed(Ok("https://i.brod.es/x.mp4".to_string())).to_string(),
        "COMPLETE: OK: https://i.brod.es/x.mp4"
    );
    assert_eq!(completed(Err("boom".to_string())).to_string(), "COMPLETE: FAILED: boom");
    let missing = JobState::Completed(RawProtoResultWrapper { result_inner: None });
    assert_eq!(missing.to_string(), "COMPLETE: FAILED: missing inner result value");
}

#[test]
fn job_status_texts() {
    assert_eq!(JobStatus { state: None }.to_string(), "UNKNOWN: NONE");
    assert_eq!(JobStatus { state: Some(JobState::Uploading(())) }.to_string(), "UPLOADING");
}

#[test]
fn default_job_state_is_queued() {
    assert_eq!(JobState::default(), JobState::Queued(()));
}

#[test]
fn result_wrapper_round_trip() {
    let ok = RawProtoResultWrapper::from_result(Ok("u".to_string()));
    assert_eq!(ok.result_inner, Some(RawProtoResult::Success("u".to_string())));
    assert_eq!(ok.to_result(), Ok("u".to_string()));
    let err = RawProtoResultWrapper::from_result(Err("e".to_string()));
    assert_eq!(err.to_result(), Err("e".to_string()));
    let none = RawProtoResultWrapper { result_inner: None };
    assert_eq!(none.to_result(), Err("missing inner result value".to_string()));
}

#[test]
fn job_state_checks() {
    assert!(JobState::Unknown(()).is_unknown());
    assert!(JobState::Processing(()).is_processing());
    assert!(JobState::Queued(()).is_queued());
    assert!(JobState::Uploading(()).is_uploading());
    assert!(completed(Ok("x".to_string())).is_completed());
    assert!(!JobState::Queued(()).is_completed());
    let st = JobStatus { state: Some(JobState::Queued(())) };
    assert!(st.is_queued());
    assert!(!st.is_processing());
    let none = JobStatus { state: None };
    assert!(!none.is_unknown());
    assert!(!none.is_queued());
    assert!(!none.is_completed());
}

#[test]
fn same_as_compares_results_by_text() {
    let a = completed(Ok("x".to_string()));
    let b = completed(Ok("x".to_string()));
    let c = completed(Err("x".to_string()));
    assert!(a.same_as(&b));
    assert!(!a.same_as(&c));
    assert!(JobState::Queued(()).same_as(&JobState::Queued(())));
    assert!(!JobState::Queued(()).same_as(&JobState::Processing(())));
}

#[test]
fn clone_keeps_job_state() {
    let a = completed(Err("bad".to_string()));
    assert_eq!(a.clone(), a);
}

#[test]
fn transcode_request() {
    let r = TranscodeReq::transcode("https://example.com".to_string());
    assert_eq!(
        r.req,
        Some(TranscodeReqMessage::Transcode(TranscodeOpts { url: "https://example.com".to_string() }))
    );
}

#[test]
fn into_state_of_responses() {
    let s = TranscodeResp {
        resp: Some(TranscodeRespMessage::JobStatus(JobStatus { state: Some(JobState::Queued(())) })),
    };
    assert_eq!(s.into_state(), Some(JobStatus { state: Some(JobState::Queued(())) }));
    let e = TranscodeResp { resp: Some(TranscodeRespMessage::Error("x".to_string())) };
    assert_eq!(e.into_state(), None);
    assert_eq!(TranscodeResp { resp: None }.into_state(), None);
}

#[test]
fn handshake_from_raw_has_no_token() {
    assert_eq!(Handshake::from_raw(vec![1, 2, 3]).token, None);
}

#[test]
fn close_codes() {
    assert_eq!(CloseCode::Protocol.to_u16(), 1002);
    assert_eq!(CloseCode::Error.to_u16(), 1011);
    assert_eq!(CloseCode::from_u16(1000), CloseCode::Normal);
    assert_eq!(CloseCode::from_u16(4000), CloseCode::Other(4000));
    for n in [0u16, 999, 1000, 1004, 1011, 1015, 3000, 65535] {
        assert_eq!(CloseCode::from_u16(n).to_u16(), n);
    }
}

#[test]
fn server_constructors() {
    assert_eq!(
        ServerMessage::queued(),
        ServerMessage::Transcode(TranscodeRespMessage::JobStatus(JobStatus { state: Some(JobState::Queued(())) }))
    );
    assert_eq!(
        ServerMessage::no_jobs(),
        ServerMessage::job_status(JobState::NoJobs(()))
    );
    assert_eq!(ServerMessage::processing(), ServerMessage::job_status(JobState::Processing(())));
    assert_eq!(ServerMessage::uploading(), ServerMessage::job_status(JobState::Uploading(())));
    assert_eq!(ServerMessage::cancelled(), ServerMessage::job_status(JobState::Cancelled(())));
    assert_eq!(ServerMessage::unknown(), ServerMessage::job_status(JobState::Unknown(())));
    assert_eq!(
        ServerMessage::handshake_accepted("READY".to_string()),
        ServerMessage::Transcode(TranscodeRespMessage::Accepted(RawProtoResultWrapper {
            result_inner: Some(RawProtoResult::Success("READY".to_string()))
        }))
    );
    assert_eq!(
        ServerMessage::handshake_rejected("no".to_string()),
        ServerMessage::Transcode(TranscodeRespMessage::Accepted(RawProtoResultWrapper {
            result_inner: Some(RawProtoResult::Failure("no".to_string()))
        }))
    );
    assert_eq!(
        ServerMessage::error("e".to_string()),
        ServerMessage::Transcode(TranscodeRespMessage::Error("e".to_string()))
    );
    assert_eq!(ServerMessage::pong(vec![7]), ServerMessage::Pong(vec![7]));
    assert_eq!(ServerMessage::close(), ServerMessage::Close);
    assert_eq!(
        ServerMessage::close_with_reason(CloseCode::Protocol, "r".to_string()),
        ServerMessage::CloseReason { code: CloseCode::Protocol, reason: "r".to_string() }
    );
}

#[test]
fn client_frames() {
    let req = TranscodeReq { req: Some(TranscodeReqMessage::Status(())) };
    assert_eq!(
        ClientMessage::try_from_frame(Frame::Binary(Ok(req))),
        Ok(ClientMessage::Transcode(TranscodeReqMessage::Status(())))
    );
    assert_eq!(
        ClientMessage::try_from_frame(Frame::Binary(Ok(TranscodeReq { req: None }))),
        Err("transcode req has no message".to_string())
    );
    assert_eq!(
        ClientMessage::try_from_frame(Frame::Binary(Err("bad bytes".to_string()))),
        Err("bad bytes".to_string())
    );
    assert_eq!(ClientMessage::try_from_frame(Frame::Ping(vec![1])), Ok(ClientMessage::Ping(vec![1])));
    assert_eq!(ClientMessage::try_from_frame(Frame::Close(None)), Ok(ClientMessage::Close));
    assert_eq!(
        ClientMessage::try_from_frame(Frame::Close(Some(CloseFrame {
            code: CloseCode::Normal,
            reason: "bye".to_string()
        }))),
        Ok(ClientMessage::CloseReason { code: CloseCode::Normal, reason: "bye".to_string() })
    );
    assert_eq!(
        ClientMessage::try_from_frame(Frame::Text("hi".to_string())),
        Err("unsupported transcode request type from client: Text(\"hi\")".to_string())
    );
    assert_eq!(
        ClientMessage::try_from_frame(Frame::Pong(vec![])),
        Err("unsupported transcode request type from client: Pong([])".to_string())
    );
}

#[test]
fn unsupported_frames_show_their_payload() {
    assert_eq!(
        ClientMessage::try_from_frame(Frame::Pong(vec![1, 2, 255])),
        Err("unsupported transcode request type from client: Pong([1, 2, 255])".to_string())
    );
    assert_eq!(
        ServerMessage::try_from_frame(Frame::Text("a\"b\n".to_string())),
        Err("unsupported transcode request type from client: Text(\"a\\\"b\\n\")".to_string())
    );
}

#[test]
fn server_frames_round_trip() {
    let msgs = vec![
        ServerMessage::queued(),
        ServerMessage::error("x".to_string()),
        ServerMessage::pong(vec![1, 2]),
        ServerMessage::close(),
        ServerMessage::close_with_reason(CloseCode::Error, "gone".to_string()),
    ];
    for m in msgs {
        let expected = m.clone_for_test();
        let f = m.into_frame();
        let received = match f {
            Frame::Binary(p) => Frame::Binary(Ok(p)),
            Frame::Text(t) => Frame::Text(t),
            Frame::Ping(p) => Frame::Ping(p),
            Frame::Pong(p) => Frame::Pong(p),
            Frame::Close(c) => Frame::Close(c),
        };
        assert_eq!(ServerMessage::try_from_frame(received), Ok(expected));
    }
    assert_eq!(
        ServerMessage::try_from_frame(Frame::Ping(vec![1])),
        Err("unsupported transcode request type from client: Ping([1])".to_string())
    );
    assert_eq!(
        ServerMessage::try_from_frame(Frame::Binary(Ok(TranscodeResp { resp: None }))),
        Err("transcode resp has no message".to_string())
    );
}

trait CloneForTest {
    fn clone_for_test(&self) -> Self;
}

impl CloneForTest for ServerMessage {
    fn clone_for_test(&self) -> Self {
        match self {
            ServerMessage::Transcode(m) => ServerMessage::Transcode(m.clone()),
            ServerMessage::Pong(p) => ServerMessage::Pong(p.clone()),
            ServerMessage::Close => ServerMessage::Close,
            ServerMessage::CloseReason { code, reason } => {
                ServerMessage::CloseReason { code: *code, reason: reason.clone() }
            }
        }
    }
}
