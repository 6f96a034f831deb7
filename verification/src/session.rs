//! The per-connection session: what the server answers to each client
//! message and which state the connection moves to, given the state of the
//! job it is running.

use vstd::prelude::*;
use crate::proto::{
    ClientMessage, CloseCode, Frame, Handshake, JobState, ServerMessage, Token,
    TranscodeOpts, TranscodeReq, TranscodeReqMessage, TranscodeRespMessage, client_message_of, result_view,
};
use crate::text::{concat, owned};
use crate::token::Authorizer;
use crate::weburl::{ParsedUrl, parse_url, spec_url_parse};

verus! {

/// The state of a client connection; `J` is the handle of a running job.
#[derive(Debug)]
pub enum StreamState<J> {
    /// Connected, not yet authenticated.
    New,
    /// Authenticated, no job running.
    Waiting,
    /// Running the job `J`.
    Running(J),
    /// Closed by the client or the server; `authenticated` records whether
    /// the connection had authenticated before it closed.
    Closed { authenticated: bool },
}

/// A reply as the client will read it.
pub ghost enum Reply {
    /// A handshake answer: the accepted message or the rejection reason.
    Accepted(Result<Seq<char>, Seq<char>>),
    /// A job status report.
    Status(Option<JobState>),
    /// An error report.
    Error(Seq<char>),
    /// A pong carrying these bytes.
    Pong(Seq<u8>),
    /// A close without reason.
    Close,
    /// A close with a code and a reason.
    CloseReason(CloseCode, Seq<char>),
}

/// How the client reads a server message.
pub open spec fn reply_of(m: ServerMessage) -> Reply {
    match m {
        ServerMessage::Transcode(TranscodeRespMessage::Accepted(w)) => Reply::Accepted(result_view(w)),
        ServerMessage::Transcode(TranscodeRespMessage::JobStatus(s)) => Reply::Status(s.state),
        ServerMessage::Transcode(TranscodeRespMessage::Error(e)) => Reply::Error(e@),
        ServerMessage::Pong(p) => Reply::Pong(p@),
        ServerMessage::Close => Reply::Close,
        ServerMessage::CloseReason { code, reason } => Reply::CloseReason(code, reason@),
    }
}

/// How the client reads a sequence of server messages.
pub open spec fn replies_of(v: Seq<ServerMessage>) -> Seq<Reply> {
    v.map_values(|m: ServerMessage| reply_of(m))
}

/// What the server does after a client message.
#[derive(Debug)]
pub enum Step<J> {
    /// Send `replies` in order and go on in `next`.
    Continue { replies: Vec<ServerMessage>, next: StreamState<J> },
    /// Send `replies`, then queue a job for `url`; once queued, go on with
    /// `enqueued`. If it cannot be queued the connection ends.
    Enqueue { replies: Vec<ServerMessage>, url: ParsedUrl },
    /// Mark the job `job` cancelled, then send `replies` and go on in `next`.
    Cancel { job: J, replies: Vec<ServerMessage>, next: StreamState<J> },
    /// The message is refused with this reason and the connection ends.
    Fail(String),
}

/// A step as a client and the job runner see it.
pub ghost enum StepView<J> {
    Continue(Seq<Reply>, StreamState<J>),
    Enqueue(Seq<Reply>, Seq<char>),
    Cancel(J, Seq<Reply>, StreamState<J>),
    Fail(Seq<char>),
}

/// How a step is seen.
pub open spec fn step_view<J>(s: Step<J>) -> StepView<J> {
    match s {
        Step::Continue { replies, next } => StepView::Continue(replies_of(replies@), next),
        Step::Enqueue { replies, url } => StepView::Enqueue(replies_of(replies@), url@),
        Step::Cancel { job, replies, next } => StepView::Cancel(job, replies_of(replies@), next),
        Step::Fail(e) => StepView::Fail(e@),
    }
}

/// The job state a connection sees: that of its running job, unless that
/// job reports no jobs or an unknown state.
pub open spec fn observed<J>(state: StreamState<J>, snapshot: Option<JobState>) -> Option<JobState> {
    match state {
        StreamState::Running(_) => match snapshot {
            Some(JobState::NoJobs(_)) => None,
            Some(JobState::Unknown(_)) => None,
            other => other,
        },
        _ => None,
    }
}

/// Whether the connection has authenticated: it is waiting or running a
/// job, or it closed after authenticating.
pub open spec fn authenticated<J>(state: StreamState<J>) -> bool {
    match state {
        StreamState::New => false,
        StreamState::Waiting => true,
        StreamState::Running(_) => true,
        StreamState::Closed { authenticated } => authenticated,
    }
}

/// The token a handshake presents, if it presents one.
pub open spec fn presented_token(h: Handshake) -> Option<Token> {
    match h.token {
        Some(t) => t.token,
        None => None,
    }
}

pub open spec fn unauthenticated_text() -> Seq<char> {
    "unauthenticated: cannot use function"@
}

pub open spec fn job_queued_text() -> Seq<char> {
    "there is a job queued. wait for it to finish or cancel it before starting another"@
}

/// The inputs on which the session has no answer: a status request while
/// the running job reports no jobs or an unknown state, which the running
/// job never does.
pub open spec fn unanswerable<J>(state: StreamState<J>, snapshot: Option<JobState>, msg: ClientMessage) -> bool {
    &&& state is Running
    &&& observed(state, snapshot) is None
    &&& msg matches ClientMessage::Transcode(TranscodeReqMessage::Status(_))
}

/// A handshake from a connection that sees no job.
pub open spec fn handshake_step<J, A: Authorizer>(state: StreamState<J>, authz: A, h: Handshake) -> StepView<J> {
    match presented_token(h) {
        Some(t) => if authz.authorizes(t) {
            StepView::Continue(seq![Reply::Accepted(Ok("READY"@))], StreamState::Waiting)
        } else {
            StepView::Continue(seq![Reply::Accepted(Err("token is not authorized"@))], StreamState::New)
        },
        None => StepView::Continue(
            seq![Reply::Accepted(Err("token is required but not provided"@))],
            state,
        ),
    }
}

/// A transcode request from an authenticated connection with no job, or
/// whose job is completed.
pub open spec fn transcode_step<J>(state: StreamState<J>, url: Seq<char>) -> StepView<J> {
    let before = if state is Closed {
        seq![Reply::CloseReason(CloseCode::Error, "connection already closed"@)]
    } else {
        Seq::<Reply>::empty()
    };
    match spec_url_parse(url) {
        Ok(u) => StepView::Enqueue(before, u),
        Err(e) => StepView::Continue(before.push(Reply::Error("error: "@ + e)), state),
    }
}

/// What the server does when the connection in `state`, whose running job
/// is in `snapshot`, receives `msg`.
pub open spec fn session_step<J, A: Authorizer>(
    state: StreamState<J>,
    snapshot: Option<JobState>,
    authz: A,
    msg: ClientMessage,
) -> StepView<J> {
    let js = observed(state, snapshot);
    match msg {
        ClientMessage::Transcode(TranscodeReqMessage::Handshake(h)) => if js is None {
            handshake_step(state, authz, h)
        } else {
            StepView::Continue(seq![Reply::Accepted(Err("cannot handshake at this time"@))], state)
        },
        ClientMessage::Transcode(TranscodeReqMessage::Transcode(o)) => if !authenticated(state) {
            StepView::Fail(unauthenticated_text())
        } else if js is None || js matches Some(JobState::Completed(_)) {
            transcode_step(state, o.url@)
        } else {
            StepView::Continue(seq![Reply::Error(job_queued_text())], state)
        },
        ClientMessage::Transcode(TranscodeReqMessage::Status(_)) => if !authenticated(state) {
            StepView::Fail(unauthenticated_text())
        } else {
            match js {
                Some(s) => StepView::Continue(seq![Reply::Status(Some(s))], state),
                None => if state is Waiting {
                    StepView::Continue(seq![Reply::Status(Some(JobState::NoJobs(())))], state)
                } else {
                    StepView::Continue(Seq::empty(), state)
                },
            }
        },
        ClientMessage::Transcode(TranscodeReqMessage::Cancel(_)) => if !authenticated(state) {
            StepView::Fail(unauthenticated_text())
        } else if js is None || js matches Some(JobState::Completed(_)) {
            StepView::Continue(seq![Reply::Error("cancel is not possible at this time"@)], state)
        } else {
            match state {
                StreamState::Running(j) => StepView::Cancel(
                    j,
                    seq![Reply::Status(Some(JobState::Cancelled(())))],
                    StreamState::Waiting,
                ),
                _ => StepView::Fail(unauthenticated_text()),
            }
        },
        ClientMessage::Ping(p) => StepView::Continue(seq![Reply::Pong(p@)], state),
        ClientMessage::CloseReason { .. } => StepView::Continue(
            Seq::empty(),
            StreamState::Closed { authenticated: authenticated(state) },
        ),
        ClientMessage::Close => StepView::Continue(
            Seq::empty(),
            StreamState::Closed { authenticated: authenticated(state) },
        ),
        ClientMessage::Unsupported(_) => StepView::Continue(Seq::empty(), state),
    }
}

impl<J> StreamState<J> {
    /// The job state this connection sees, given the state `snapshot` of
    /// its running job.
    pub fn job_state(&self, snapshot: Option<JobState>) -> (r: Option<JobState>)
        ensures
            r == observed(*self, snapshot),
    {
        match self {
            StreamState::Running(_) => match snapshot {
                Some(JobState::NoJobs(_)) => None,
                Some(JobState::Unknown(_)) => None,
                other => other,
            },
            _ => None,
        }
    }

    /// Whether the connection has authenticated.
    pub fn is_authenticated(&self) -> (r: bool)
        ensures
            r == authenticated(*self),
    {
        match self {
            StreamState::New => false,
            StreamState::Waiting => true,
            StreamState::Running(_) => true,
            StreamState::Closed { authenticated } => *authenticated,
        }
    }

    /// Refuses a connection that has not authenticated.
    pub fn bail_if_unauthed(&self) -> (r: Result<(), String>)
        ensures
            r is Err <==> !authenticated(*self),
            r matches Err(e) ==> e@ == unauthenticated_text(),
    {
        match self {
            StreamState::New => Err(owned("unauthenticated: cannot use function")),
            StreamState::Closed { authenticated: false } => Err(
                owned("unauthenticated: cannot use function"),
            ),
            _ => Ok(()),
        }
    }
}

fn one_reply(m: ServerMessage) -> (v: Vec<ServerMessage>)
    ensures
        replies_of(v@) == seq![reply_of(m)],
{
    let mut v: Vec<ServerMessage> = Vec::new();
    let ghost r = reply_of(m);
    v.push(m);
    assert(replies_of(v@) =~= seq![r]);
    v
}

fn no_replies() -> (v: Vec<ServerMessage>)
    ensures
        replies_of(v@) == Seq::<Reply>::empty(),
{
    let v: Vec<ServerMessage> = Vec::new();
    assert(replies_of(v@) =~= Seq::<Reply>::empty());
    v
}

fn handle_handshake<J, A: Authorizer>(state: StreamState<J>, authz: &A, h: Handshake) -> (step: Step<J>)
    ensures
        step_view(step) == handshake_step(state, *authz, h),
{
    let tok = match h.token {
        Some(t) => t.token,
        None => None,
    };
    match tok {
        Some(t) => {
            if !authz.is_authorized(&t) {
                Step::Continue {
                    replies: one_reply(ServerMessage::handshake_rejected(owned("token is not authorized"))),
                    next: StreamState::New,
                }
            } else {
                Step::Continue {
                    replies: one_reply(ServerMessage::handshake_accepted(owned("READY"))),
                    next: StreamState::Waiting,
                }
            }
        },
        None => Step::Continue {
            replies: one_reply(
                ServerMessage::handshake_rejected(owned("token is required but not provided")),
            ),
            next: state,
        },
    }
}

fn handle_transcode<J>(state: StreamState<J>, url: String) -> (step: Step<J>)
    ensures
        step_view(step) == transcode_step(state, url@),
{
    let mut replies: Vec<ServerMessage> = Vec::new();
    if let StreamState::Closed { .. } = state {
        replies.push(
            ServerMessage::close_with_reason(CloseCode::Error, owned("connection already closed")),
        );
    }
    let ghost before = replies_of(replies@);
    assert(before =~= (if state is Closed {
        seq![Reply::CloseReason(CloseCode::Error, "connection already closed"@)]
    } else {
        Seq::<Reply>::empty()
    }));
    match parse_url(url.as_str()) {
        Ok(u) => Step::Enqueue { replies, url: u },
        Err(e) => {
            let m = ServerMessage::error(concat("error: ", e.as_str()));
            let ghost rm = reply_of(m);
            replies.push(m);
            assert(replies_of(replies@) =~= before.push(rm));
            Step::Continue { replies, next: state }
        },
    }
}

/// What the server does when the connection in `state`, whose running job
/// is in `snapshot` (present whenever a job is running), receives `msg`.
pub fn handle_message<J, A: Authorizer>(
    state: StreamState<J>,
    snapshot: Option<JobState>,
    authz: &A,
    msg: ClientMessage,
) -> (step: Step<J>)
    requires
        state is Running ==> snapshot is Some,
        !unanswerable(state, snapshot, msg),
    ensures
        step_view(step) == session_step(state, snapshot, *authz, msg),
{
    let js = state.job_state(snapshot);
    match msg {
        ClientMessage::Transcode(TranscodeReqMessage::Handshake(h)) => {
            match js {
                None => handle_handshake(state, authz, h),
                Some(_) => Step::Continue {
                    replies: one_reply(
                        ServerMessage::handshake_rejected(owned("cannot handshake at this time")),
                    ),
                    next: state,
                },
            }
        },
        ClientMessage::Transcode(TranscodeReqMessage::Transcode(o)) => {
            if let Err(e) = state.bail_if_unauthed() {
                return Step::Fail(e);
            }
            match js {
                None => handle_transcode(state, o.url),
                Some(JobState::Completed(_)) => handle_transcode(state, o.url),
                Some(_) => Step::Continue {
                    replies: one_reply(
                        ServerMessage::error(
                            owned(
                                "there is a job queued. wait for it to finish or cancel it before starting another",
                            ),
                        ),
                    ),
                    next: state,
                },
            }
        },
        ClientMessage::Transcode(TranscodeReqMessage::Status(_)) => {
            if let Err(e) = state.bail_if_unauthed() {
                return Step::Fail(e);
            }
            match js {
                Some(s) => Step::Continue { replies: one_reply(ServerMessage::job_status(s)), next: state },
                None => {
                    match state {
                        StreamState::Waiting => Step::Continue {
                            replies: one_reply(ServerMessage::job_status(JobState::NoJobs(()))),
                            next: StreamState::Waiting,
                        },
                        other => Step::Continue { replies: no_replies(), next: other },
                    }
                },
            }
        },
        ClientMessage::Transcode(TranscodeReqMessage::Cancel(_)) => {
            if let Err(e) = state.bail_if_unauthed() {
                return Step::Fail(e);
            }
            match js {
                None => Step::Continue {
                    replies: one_reply(ServerMessage::error(owned("cancel is not possible at this time"))),
                    next: state,
                },
                Some(JobState::Completed(_)) => Step::Continue {
                    replies: one_reply(ServerMessage::error(owned("cancel is not possible at this time"))),
                    next: state,
                },
                Some(_) => {
                    match state {
                        StreamState::Running(job) => Step::Cancel {
                            job,
                            replies: one_reply(ServerMessage::job_status(JobState::Cancelled(()))),
                            next: StreamState::Waiting,
                        },
                        _ => Step::Fail(owned("unauthenticated: cannot use function")),
                    }
                },
            }
        },
        ClientMessage::Ping(payload) => Step::Continue {
            replies: one_reply(ServerMessage::pong(payload)),
            next: state,
        },
        ClientMessage::CloseReason { code: _, reason: _ } => {
            let authenticated = state.is_authenticated();
            Step::Continue { replies: no_replies(), next: StreamState::Closed { authenticated } }
        },
        ClientMessage::Close => {
            let authenticated = state.is_authenticated();
            Step::Continue { replies: no_replies(), next: StreamState::Closed { authenticated } }
        },
        ClientMessage::Unsupported(_) => Step::Continue { replies: no_replies(), next: state },
    }
}

/// Once the job `job` is queued: report it queued and run it.
pub fn enqueued<J>(job: J) -> (step: Step<J>)
    ensures
        step_view(step) == StepView::Continue(
            seq![Reply::Status(Some(JobState::Queued(())))],
            StreamState::Running(job),
        ),
{
    Step::Continue { replies: one_reply(ServerMessage::queued()), next: StreamState::Running(job) }
}

/// The reply to a frame that could not be read as a client message.
pub fn protocol_error(e: String) -> (m: ServerMessage)
    ensures
        reply_of(m) == Reply::Error("protocol error: "@ + e@),
{
    ServerMessage::error(concat("protocol error: ", e.as_str()))
}


// ---------------------------------------------------------------------------
// Laws of the session
// ---------------------------------------------------------------------------

/// A connection that has not authenticated (a new one, or one that closed
/// before authenticating) can neither transcode, nor ask for a status, nor
/// cancel: the connection ends, refused as unauthenticated.
pub proof fn lemma_unauthenticated_refused<J, A: Authorizer>(
    state: StreamState<J>,
    snapshot: Option<JobState>,
    authz: A,
    m: TranscodeReqMessage,
)
    requires
        !authenticated(state),
        !(m is Handshake),
    ensures
        session_step(state, snapshot, authz, ClientMessage::Transcode(m))
            == StepView::<J>::Fail(unauthenticated_text()),
{
}

/// A handshake presenting a token, from a connection that sees no job,
/// authenticates the connection exactly when the token is authorized; a
/// refused token leaves it unauthenticated.
pub proof fn lemma_handshake_authenticates<J, A: Authorizer>(
    state: StreamState<J>,
    snapshot: Option<JobState>,
    authz: A,
    h: Handshake,
    t: Token,
)
    requires
        observed(state, snapshot) is None,
        presented_token(h) == Some(t),
    ensures
        session_step(state, snapshot, authz, ClientMessage::Transcode(TranscodeReqMessage::Handshake(h)))
            == (if authz.authorizes(t) {
            StepView::Continue(seq![Reply::Accepted(Ok("READY"@))], StreamState::<J>::Waiting)
        } else {
            StepView::Continue(seq![Reply::Accepted(Err("token is not authorized"@))], StreamState::<J>::New)
        }),
{
}

/// A ping is answered with a pong carrying the same bytes, whatever the
/// state, and the state is unchanged.
pub proof fn lemma_ping_pong<J, A: Authorizer>(
    state: StreamState<J>,
    snapshot: Option<JobState>,
    authz: A,
    p: Vec<u8>,
)
    ensures
        session_step(state, snapshot, authz, ClientMessage::Ping(p)) == StepView::Continue(
            seq![Reply::Pong(p@)],
            state,
        ),
{
}

/// A close from the client, with or without a reason, closes the session
/// without a reply, remembering whether it had authenticated.
pub proof fn lemma_close_closes<J, A: Authorizer>(
    state: StreamState<J>,
    snapshot: Option<JobState>,
    authz: A,
    code: CloseCode,
    reason: String,
)
    ensures
        session_step(state, snapshot, authz, ClientMessage::Close) == StepView::Continue(
            Seq::<Reply>::empty(),
            StreamState::<J>::Closed { authenticated: authenticated(state) },
        ),
        session_step(state, snapshot, authz, ClientMessage::CloseReason { code, reason })
            == StepView::Continue(
            Seq::<Reply>::empty(),
            StreamState::<J>::Closed { authenticated: authenticated(state) },
        ),
{
}

/// A status request from a connection running a job reports the job's
/// state; from a waiting connection it reports that there are no jobs.
/// Either way the state is unchanged.
pub proof fn lemma_status_reports<J, A: Authorizer>(
    state: StreamState<J>,
    snapshot: Option<JobState>,
    authz: A,
)
    requires
        state is Running || state is Waiting,
        state is Running ==> observed(state, snapshot) is Some,
    ensures
        session_step(state, snapshot, authz, ClientMessage::Transcode(TranscodeReqMessage::Status(())))
            == StepView::Continue(
            seq![
                Reply::Status(
                    Some(
                        if state is Running {
                            observed(state, snapshot)->0
                        } else {
                            JobState::NoJobs(())
                        },
                    ),
                ),
            ],
            state,
        ),
{
}

/// Cancelling a running job that has not completed cancels that job, tells
/// the client so, and leaves the connection waiting for a new job.
pub proof fn lemma_cancel_running<J, A: Authorizer>(job: J, snapshot: Option<JobState>, authz: A)
    requires
        observed(StreamState::Running(job), snapshot) matches Some(s) && !(s is Completed),
    ensures
        session_step(
            StreamState::Running(job),
            snapshot,
            authz,
            ClientMessage::Transcode(TranscodeReqMessage::Cancel(())),
        ) == StepView::Cancel(
            job,
            seq![Reply::Status(Some(JobState::Cancelled(())))],
            StreamState::<J>::Waiting,
        ),
{
}

/// A waiting connection that asks to transcode an address that parses gets
/// a job queued for that address, and no reply before it is queued; an
/// address that does not parse is answered with the parse error and nothing
/// is queued.
pub proof fn lemma_transcode_from_waiting<J, A: Authorizer>(authz: A, o: TranscodeOpts)
    ensures
        session_step(
            StreamState::<J>::Waiting,
            None,
            authz,
            ClientMessage::Transcode(TranscodeReqMessage::Transcode(o)),
        ) == (match spec_url_parse(o.url@) {
            Ok(u) => StepView::<J>::Enqueue(Seq::<Reply>::empty(), u),
            Err(e) => StepView::<J>::Continue(
                seq![Reply::Error("error: "@ + e)],
                StreamState::<J>::Waiting,
            ),
        }),
{
    assert(Seq::<Reply>::empty().push(Reply::Error("error: "@ + spec_url_parse(o.url@)->Err_0))
        =~= seq![Reply::Error("error: "@ + spec_url_parse(o.url@)->Err_0)]);
}


/// What the server does when the connection in `state`, whose running job
/// is in `snapshot`, receives `frame`: a frame that reads as a client message
/// is handled as that message; one that does not is answered with a
/// protocol error and the state is kept.
pub fn handle_frame<J, A: Authorizer>(
    state: StreamState<J>,
    snapshot: Option<JobState>,
    authz: &A,
    frame: Frame<Result<TranscodeReq, String>>,
) -> (step: Step<J>)
    requires
        state is Running ==> snapshot is Some,
        client_message_of(frame) matches Ok(m) ==> !unanswerable(state, snapshot, m),
    ensures
        step_view(step) == (match client_message_of(frame) {
            Ok(m) => session_step(state, snapshot, *authz, m),
            Err(e) => StepView::Continue(seq![Reply::Error("protocol error: "@ + e)], state),
        }),
{
    match ClientMessage::try_from_frame(frame) {
        Ok(msg) => handle_message(state, snapshot, authz, msg),
        Err(e) => Step::Continue { replies: one_reply(protocol_error(e)), next: state },
    }
}


/// Whether `frame`, received by the connection in `state` whose running job
/// is in `snapshot`, is one the session has no answer for.
pub fn is_unanswerable<J>(
    state: &StreamState<J>,
    snapshot: &Option<JobState>,
    frame: &Frame<Result<TranscodeReq, String>>,
) -> (r: bool)
    ensures
        r == (client_message_of(*frame) matches Ok(m) && unanswerable(*state, *snapshot, m)),
{
    let status = match frame {
        Frame::Binary(Ok(req)) => match &req.req {
            Some(TranscodeReqMessage::Status(_)) => true,
            _ => false,
        },
        _ => false,
    };
    let running = match state {
        StreamState::Running(_) => true,
        _ => false,
    };
    let unseen = match snapshot {
        Some(JobState::NoJobs(_)) => true,
        Some(JobState::Unknown(_)) => true,
        None => true,
        _ => false,
    };
    status && running && unseen
}


/// While the running job has not completed, a transcode request is refused
/// with the job-queued error and nothing is queued; the connection keeps its
/// state.
pub proof fn lemma_transcode_refused_while_job_runs<J, A: Authorizer>(
    job: J,
    snapshot: Option<JobState>,
    authz: A,
    o: TranscodeOpts,
)
    requires
        observed(StreamState::Running(job), snapshot) matches Some(s) && !(s is Completed),
    ensures
        session_step(
            StreamState::Running(job),
            snapshot,
            authz,
            ClientMessage::Transcode(TranscodeReqMessage::Transcode(o)),
        ) == StepView::Continue(
            seq![
                Reply::Error(
                    "there is a job queued. wait for it to finish or cancel it before starting another"@,
                ),
            ],
            StreamState::Running(job),
        ),
{
}

/// A job is queued only for a transcode request from an authenticated
/// connection that runs no job or whose job has completed, and only for the
/// address the request's URL parses to.
pub proof fn lemma_enqueue_only_when_free<J, A: Authorizer>(
    state: StreamState<J>,
    snapshot: Option<JobState>,
    authz: A,
    msg: ClientMessage,
)
    ensures
        session_step(state, snapshot, authz, msg) matches StepView::Enqueue(_, u) ==> {
            &&& msg matches ClientMessage::Transcode(TranscodeReqMessage::Transcode(o))
            &&& spec_url_parse(o.url@) == Ok::<Seq<char>, Seq<char>>(u)
            &&& authenticated(state)
            &&& (observed(state, snapshot) is None || observed(state, snapshot) matches Some(
                JobState::Completed(_),
            ))
        },
{
}

/// A job is cancelled only on a cancel request from a connection running
/// that job, whose state is present and not completed; afterwards the
/// connection waits.
pub proof fn lemma_cancel_only_running<J, A: Authorizer>(
    state: StreamState<J>,
    snapshot: Option<JobState>,
    authz: A,
    msg: ClientMessage,
)
    ensures
        session_step(state, snapshot, authz, msg) matches StepView::Cancel(j, _, next) ==> {
            &&& msg matches ClientMessage::Transcode(TranscodeReqMessage::Cancel(_))
            &&& state == StreamState::Running(j)
            &&& observed(state, snapshot) matches Some(s) && !(s is Completed)
            &&& next == StreamState::<J>::Waiting
        },
{
}

/// A handshake while a job is visible is refused and changes nothing.
pub proof fn lemma_handshake_refused_with_job<J, A: Authorizer>(
    state: StreamState<J>,
    snapshot: Option<JobState>,
    authz: A,
    h: Handshake,
)
    requires
        observed(state, snapshot) is Some,
    ensures
        session_step(state, snapshot, authz, ClientMessage::Transcode(TranscodeReqMessage::Handshake(h)))
            == StepView::Continue(
            seq![Reply::Accepted(Err("cannot handshake at this time"@))],
            state,
        ),
{
}

/// An authenticated connection without a running job that asks to cancel
/// is told it cannot, and keeps its state.
pub proof fn lemma_cancel_without_job<J, A: Authorizer>(
    state: StreamState<J>,
    snapshot: Option<JobState>,
    authz: A,
)
    requires
        authenticated(state),
        observed(state, snapshot) is None,
    ensures
        session_step(state, snapshot, authz, ClientMessage::Transcode(TranscodeReqMessage::Cancel(())))
            == StepView::Continue(
            seq![Reply::Error("cancel is not possible at this time"@)],
            state,
        ),
{
}

/// A message the client sends that is not understood changes nothing and is
/// not answered.
pub proof fn lemma_unsupported_ignored<J, A: Authorizer>(
    state: StreamState<J>,
    snapshot: Option<JobState>,
    authz: A,
    e: String,
)
    ensures
        session_step(state, snapshot, authz, ClientMessage::Unsupported(e)) == StepView::Continue(
            Seq::<Reply>::empty(),
            state,
        ),
{
}


/// A completed job does not hold the connection back: a transcode request
/// whose URL parses queues a job for it with no reply first.
pub proof fn lemma_transcode_after_completed<J, A: Authorizer>(
    job: J,
    snapshot: Option<JobState>,
    authz: A,
    o: TranscodeOpts,
    u: Seq<char>,
)
    requires
        observed(StreamState::Running(job), snapshot) matches Some(JobState::Completed(_)),
        spec_url_parse(o.url@) == Ok::<Seq<char>, Seq<char>>(u),
    ensures
        session_step(
            StreamState::Running(job),
            snapshot,
            authz,
            ClientMessage::Transcode(TranscodeReqMessage::Transcode(o)),
        ) == StepView::<J>::Enqueue(Seq::<Reply>::empty(), u),
{
}

/// A connection that closed after authenticating and asks to transcode a URL
/// that parses is first told the connection is already closed, then a job is
/// queued for it.
pub proof fn lemma_transcode_after_close<J, A: Authorizer>(
    authz: A,
    o: TranscodeOpts,
    u: Seq<char>,
)
    requires
        spec_url_parse(o.url@) == Ok::<Seq<char>, Seq<char>>(u),
    ensures
        session_step(
            StreamState::<J>::Closed { authenticated: true },
            None,
            authz,
            ClientMessage::Transcode(TranscodeReqMessage::Transcode(o)),
        ) == StepView::<J>::Enqueue(
            seq![Reply::CloseReason(CloseCode::Error, "connection already closed"@)],
            u,
        ),
{
}

} // verus!
