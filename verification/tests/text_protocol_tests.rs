use vredditor::text_protocol::{handle_line, start_job, text_enqueued, JobState, StreamState, TextStep};

fn reply_and_next(step: TextStep<u32>) -> (Option<String>, StreamState<u32>) {
    match step {
        TextStep::Continue { reply, next } => (reply, next),
        other => panic!("expected to continue, got {:?}", other),
    }
}

#[test]
fn client_session() {
    let handshake_line = StreamState::<u32>::Handshake.to_text();
    assert_eq!(handshake_line, "HANDSHAKE");
    let (reply, st) = reply_and_next(handle_line(StreamState::New, &handshake_line));
    assert_eq!(reply.as_deref(), Some("READY"));
    assert!(matches!(st, StreamState::Handshake));

    let url_line = match StreamState::<u32>::from_text("URL https://google.com") {
        StreamState::Url(u) => {
            assert_eq!(u.as_str(), "https://google.com/");
            StreamState::<u32>::Url(u).to_text()
        }
        other => panic!("expected a url, got {:?}", other),
    };
    assert_eq!(url_line, "URL https://google.com/");
    match handle_line(st, &url_line) {
        TextStep::Enqueue { url } => assert_eq!(url.as_str(), "https://google.com/"),
        other => panic!("expected enqueue, got {:?}", other),
    }
    let (reply, st) = reply_and_next(text_enqueued(5));
    assert_eq!(reply.as_deref(), Some("QUEUED"));
    assert!(matches!(st, StreamState::Job(5)));
}

#[test]
fn lines_parse() {
    assert!(matches!(StreamState::<u32>::from_text("NEW"), StreamState::New));
    match StreamState::<u32>::from_text("JOB") {
        StreamState::Invalid(v) => assert_eq!(v, "job cannot be retrieved as a proto message"),
        other => panic!("{:?}", other),
    }
    match StreamState::<u32>::from_text("URL nope") {
        StreamState::Invalid(v) => assert_eq!(v, "bad url: relative URL without a base"),
        other => panic!("{:?}", other),
    }
    match StreamState::<u32>::from_text("hello") {
        StreamState::Invalid(v) => assert_eq!(v, "hello"),
        other => panic!("{:?}", other),
    }
    assert_eq!(StreamState::<u32>::Invalid("x".to_string()).to_text(), "Unknown command: x");
    assert_eq!(StreamState::<u32>::Job(1).to_text(), "JOB");
    assert_eq!(StreamState::<u32>::New.to_text(), "NEW");
}

#[test]
fn refusals() {
    let (reply, st) = reply_and_next(handle_line(StreamState::Handshake, "HANDSHAKE"));
    assert_eq!(reply.as_deref(), Some("cannot handshake at this time"));
    assert!(matches!(st, StreamState::Handshake));
    let (reply, st) = reply_and_next(handle_line(StreamState::New, "URL https://x.org"));
    assert_eq!(reply.as_deref(), Some("cannot process url at this time"));
    assert!(matches!(st, StreamState::New));
    let (reply, st) = reply_and_next(handle_line(StreamState::New, "what"));
    assert_eq!(reply.as_deref(), Some("unknown proto message type: what"));
    assert!(matches!(st, StreamState::New));
    let (reply, st) = reply_and_next(handle_line(StreamState::Handshake, "NEW"));
    assert_eq!(reply, None);
    assert!(matches!(st, StreamState::Handshake));
}

#[test]
fn text_jobs_start_once() {
    let mut s = JobState::default();
    assert!(start_job(&mut s));
    assert!(matches!(s, JobState::Processing));
    assert!(!start_job(&mut s));
    assert!(matches!(s, JobState::Processing));
}

#[test]
fn written_states_read_back() {
    let u = match StreamState::<u32>::from_text("URL HTTPS://Example.COM/a b") {
        StreamState::Url(u) => u,
        other => panic!("{:?}", other),
    };
    let line = StreamState::<u32>::Url(u).to_text();
    match StreamState::<u32>::from_text(&line) {
        StreamState::Url(v) => assert_eq!(format!("URL {}", v.as_str()), line),
        other => panic!("{:?}", other),
    }
    match StreamState::<u32>::from_text(&StreamState::<u32>::Invalid("x".to_string()).to_text()) {
        StreamState::Invalid(v) => assert_eq!(v, "Unknown command: x"),
        other => panic!("{:?}", other),
    }
    match StreamState::<u32>::from_text(&StreamState::<u32>::Job(3).to_text()) {
        StreamState::Invalid(v) => assert_eq!(v, "job cannot be retrieved as a proto message"),
        other => panic!("{:?}", other),
    }
}
