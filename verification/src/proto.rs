//! The messages exchanged with clients: requests, responses, job states and
//! the websocket frames that carry them, with the conversions between them.

use vstd::prelude::*;
use crate::text::{concat, owned, text_eq};

verus! {

// ---------------------------------------------------------------------------
// Message values
// ---------------------------------------------------------------------------

/// The two outcomes a result message can hold.
#[derive(Debug, PartialEq)]
pub enum RawProtoResult {
    Success(String),
    Failure(String),
}

/// A result message; the outcome may be absent on the wire.
#[derive(Debug, PartialEq)]
pub struct RawProtoResultWrapper {
    pub result_inner: Option<RawProtoResult>,
}

/// An authorization token as it arrives in a handshake.
#[derive(Debug, Clone, PartialEq)]
pub enum Token {
    V1(Vec<u8>),
}

/// The token message of a handshake; its token may be absent on the wire.
#[derive(Debug, Clone, PartialEq)]
pub struct TokenMessage {
    pub token: Option<Token>,
}

/// A handshake request.
#[derive(Debug, Clone, PartialEq)]
pub struct Handshake {
    pub token: Option<TokenMessage>,
}

/// A request to transcode the media at `url`.
#[derive(Debug, Clone, PartialEq)]
pub struct TranscodeOpts {
    pub url: String,
}

/// The requests a client can make.
#[derive(Debug, PartialEq)]
pub enum TranscodeReqMessage {
    Handshake(Handshake),
    Transcode(TranscodeOpts),
    Status(()),
    Cancel(()),
}

/// A request envelope; the request may be absent on the wire.
#[derive(Debug, PartialEq)]
pub struct TranscodeReq {
    pub req: Option<TranscodeReqMessage>,
}

/// The state of a transcoding job as reported to clients.
#[derive(Debug, PartialEq)]
pub enum JobState {
    Queued(()),
    NoJobs(()),
    Processing(()),
    Uploading(()),
    Completed(RawProtoResultWrapper),
    Cancelled(()),
    Unknown(()),
}

/// A job status report; the state may be absent on the wire.
#[derive(Debug, Clone, PartialEq)]
pub struct JobStatus {
    pub state: Option<JobState>,
}

/// The responses the server can send.
#[derive(Debug, Clone, PartialEq)]
pub enum TranscodeRespMessage {
    Accepted(RawProtoResultWrapper),
    JobStatus(JobStatus),
    Error(String),
}

/// A response envelope; the response may be absent on the wire.
#[derive(Debug, Clone, PartialEq)]
pub struct TranscodeResp {
    pub resp: Option<TranscodeRespMessage>,
}

impl Clone for RawProtoResult {
    fn clone(&self) -> (r: Self)
        ensures
            r == *self,
    {
        match self {
            RawProtoResult::Success(u) => RawProtoResult::Success(u.clone()),
            RawProtoResult::Failure(e) => RawProtoResult::Failure(e.clone()),
        }
    }
}

impl Clone for RawProtoResultWrapper {
    fn clone(&self) -> (r: Self)
        ensures
            r == *self,
    {
        match &self.result_inner {
            Some(x) => RawProtoResultWrapper { result_inner: Some(x.clone()) },
            None => RawProtoResultWrapper { result_inner: None },
        }
    }
}

impl Clone for JobState {
    fn clone(&self) -> (r: Self)
        ensures
            r == *self,
    {
        match self {
            JobState::Queued(_) => JobState::Queued(()),
            JobState::NoJobs(_) => JobState::NoJobs(()),
            JobState::Processing(_) => JobState::Processing(()),
            JobState::Uploading(_) => JobState::Uploading(()),
            JobState::Completed(w) => JobState::Completed(w.clone()),
            JobState::Cancelled(_) => JobState::Cancelled(()),
            JobState::Unknown(_) => JobState::Unknown(()),
        }
    }
}

// ---------------------------------------------------------------------------
// Results
// ---------------------------------------------------------------------------

/// The message text used when a result message carries no outcome.
pub open spec fn missing_result_text() -> Seq<char> {
    "missing inner result value"@
}

/// The outcome a result message stands for, as character sequences.
pub open spec fn result_view(w: RawProtoResultWrapper) -> Result<Seq<char>, Seq<char>> {
    match w.result_inner {
        Some(RawProtoResult::Success(u)) => Ok(u@),
        Some(RawProtoResult::Failure(e)) => Err(e@),
        None => Err(missing_result_text()),
    }
}

/// A `Result` of strings seen as character sequences.
pub open spec fn string_result_view(r: Result<String, String>) -> Result<Seq<char>, Seq<char>> {
    match r {
        Ok(u) => Ok(u@),
        Err(e) => Err(e@),
    }
}

impl RawProtoResultWrapper {
    /// The result message holding the outcome `res`.
    pub fn from_result(res: Result<String, String>) -> (w: RawProtoResultWrapper)
        ensures
            w.result_inner is Some,
            result_view(w) == string_result_view(res),
    {
        match res {
            Ok(u) => RawProtoResultWrapper { result_inner: Some(RawProtoResult::Success(u)) },
            Err(e) => RawProtoResultWrapper { result_inner: Some(RawProtoResult::Failure(e)) },
        }
    }

    /// The outcome this message stands for; an absent outcome is an error.
    pub fn to_result(&self) -> (r: Result<String, String>)
        ensures
            string_result_view(r) == result_view(*self),
    {
        match &self.result_inner {
            Some(RawProtoResult::Success(u)) => Ok(u.clone()),
            Some(RawProtoResult::Failure(e)) => Err(e.clone()),
            None => Err(owned("missing inner result value")),
        }
    }
}

// ---------------------------------------------------------------------------
// Job states
// ---------------------------------------------------------------------------

/// Two job states are the same state (results compared by their text).
pub open spec fn same_job_state(a: JobState, b: JobState) -> bool {
    match (a, b) {
        (JobState::Queued(_), JobState::Queued(_)) => true,
        (JobState::NoJobs(_), JobState::NoJobs(_)) => true,
        (JobState::Processing(_), JobState::Processing(_)) => true,
        (JobState::Uploading(_), JobState::Uploading(_)) => true,
        (JobState::Completed(x), JobState::Completed(y)) => same_outcome(x.result_inner, y.result_inner),
        (JobState::Cancelled(_), JobState::Cancelled(_)) => true,
        (JobState::Unknown(_), JobState::Unknown(_)) => true,
        _ => false,
    }
}

/// Two possibly absent outcomes are the same.
pub open spec fn same_outcome(a: Option<RawProtoResult>, b: Option<RawProtoResult>) -> bool {
    match (a, b) {
        (Some(x), Some(y)) => same_result(x, y),
        (None, None) => true,
        _ => false,
    }
}

/// Two outcomes are the same (compared by their text).
pub open spec fn same_result(a: RawProtoResult, b: RawProtoResult) -> bool {
    match (a, b) {
        (RawProtoResult::Success(x), RawProtoResult::Success(y)) => x@ == y@,
        (RawProtoResult::Failure(x), RawProtoResult::Failure(y)) => x@ == y@,
        _ => false,
    }
}

/// The text a job state is displayed as.
pub open spec fn job_state_text(s: JobState) -> Seq<char> {
    match s {
        JobState::Queued(_) => "QUEUED"@,
        JobState::NoJobs(_) => "NO JOBS"@,
        JobState::Processing(_) => "PROCESSING"@,
        JobState::Uploading(_) => "UPLOADING"@,
        JobState::Completed(r) => match result_view(r) {
            Ok(u) => "COMPLETE: OK: "@ + u,
            Err(e) => "COMPLETE: FAILED: "@ + e,
        },
        JobState::Cancelled(_) => "CANCELLED"@,
        JobState::Unknown(_) => "UNKNOWN"@,
    }
}

/// The text a job status is displayed as.
pub open spec fn job_status_text(s: JobStatus) -> Seq<char> {
    match s.state {
        Some(st) => job_state_text(st),
        None => "UNKNOWN: NONE"@,
    }
}

fn same_result_exec(a: &RawProtoResult, b: &RawProtoResult) -> (r: bool)
    ensures
        r == same_result(*a, *b),
{
    match (a, b) {
        (RawProtoResult::Success(x), RawProtoResult::Success(y)) => text_eq(x.as_str(), y.as_str()),
        (RawProtoResult::Failure(x), RawProtoResult::Failure(y)) => text_eq(x.as_str(), y.as_str()),
        _ => false,
    }
}

impl JobState {
    /// A completed state holding the outcome `res`.
    pub fn from_result(res: Result<String, String>) -> (s: JobState)
        ensures
            s matches JobState::Completed(w) && w.result_inner is Some && result_view(w)
                == string_result_view(res),
    {
        JobState::Completed(RawProtoResultWrapper::from_result(res))
    }

    /// Whether `self` and `other` are the same state.
    pub fn same_as(&self, other: &JobState) -> (r: bool)
        ensures
            r == same_job_state(*self, *other),
    {
        match (self, other) {
            (JobState::Queued(_), JobState::Queued(_)) => true,
            (JobState::NoJobs(_), JobState::NoJobs(_)) => true,
            (JobState::Processing(_), JobState::Processing(_)) => true,
            (JobState::Uploading(_), JobState::Uploading(_)) => true,
            (JobState::Completed(x), JobState::Completed(y)) => {
                match (&x.result_inner, &y.result_inner) {
                    (Some(xi), Some(yi)) => same_result_exec(xi, yi),
                    (None, None) => true,
                    _ => false,
                }
            },
            (JobState::Cancelled(_), JobState::Cancelled(_)) => true,
            (JobState::Unknown(_), JobState::Unknown(_)) => true,
            _ => false,
        }
    }

    /// The text this state is displayed as.
    pub fn to_string(&self) -> (r: String)
        ensures
            r@ == job_state_text(*self),
    {
        match self {
            JobState::Queued(_) => owned("QUEUED"),
            JobState::NoJobs(_) => owned("NO JOBS"),
            JobState::Processing(_) => owned("PROCESSING"),
            JobState::Uploading(_) => owned("UPLOADING"),
            JobState::Completed(res) => match res.to_result() {
                Ok(u) => concat("COMPLETE: OK: ", u.as_str()),
                Err(e) => concat("COMPLETE: FAILED: ", e.as_str()),
            },
            JobState::Cancelled(_) => owned("CANCELLED"),
            JobState::Unknown(_) => owned("UNKNOWN"),
        }
    }
}

impl Default for JobState {
    /// A new job starts queued.
    fn default() -> (s: JobState)
        ensures
            s is Queued,
    {
        JobState::Queued(())
    }
}

impl JobStatus {
    /// The text this status is displayed as.
    pub fn to_string(&self) -> (r: String)
        ensures
            r@ == job_status_text(*self),
    {
        match &self.state {
            None => owned("UNKNOWN: NONE"),
            Some(s) => s.to_string(),
        }
    }
}

/// Queries on which state a job is in.
pub trait JobStateCheck {
    fn is_unknown(&self) -> bool;

    fn is_processing(&self) -> bool;

    fn is_queued(&self) -> bool;

    fn is_uploading(&self) -> bool;

    fn is_completed(&self) -> bool;
}

impl JobStateCheck for JobState {
    fn is_unknown(&self) -> (r: bool)
        ensures
            r == (*self is Unknown),
    {
        match self {
            JobState::Unknown(_) => true,
            _ => false,
        }
    }

    fn is_processing(&self) -> (r: bool)
        ensures
            r == (*self is Processing),
    {
        match self {
            JobState::Processing(_) => true,
            _ => false,
        }
    }

    fn is_queued(&self) -> (r: bool)
        ensures
            r == (*self is Queued),
    {
        match self {
            JobState::Queued(_) => true,
            _ => false,
        }
    }

    fn is_uploading(&self) -> (r: bool)
        ensures
            r == (*self is Uploading),
    {
        match self {
            JobState::Uploading(_) => true,
            _ => false,
        }
    }

    fn is_completed(&self) -> (r: bool)
        ensures
            r == (*self is Completed),
    {
        match self {
            JobState::Completed(_) => true,
            _ => false,
        }
    }
}

impl JobStateCheck for JobStatus {
    fn is_unknown(&self) -> (r: bool)
        ensures
            r == (self.state matches Some(s) && s is Unknown),
    {
        match &self.state {
            Some(s) => s.is_unknown(),
            None => false,
        }
    }

    fn is_processing(&self) -> (r: bool)
        ensures
            r == (self.state matches Some(s) && s is Processing),
    {
        match &self.state {
            Some(s) => s.is_processing(),
            None => false,
        }
    }

    fn is_queued(&self) -> (r: bool)
        ensures
            r == (self.state matches Some(s) && s is Queued),
    {
        match &self.state {
            Some(s) => s.is_queued(),
            None => false,
        }
    }

    fn is_uploading(&self) -> (r: bool)
        ensures
            r == (self.state matches Some(s) && s is Uploading),
    {
        match &self.state {
            Some(s) => s.is_uploading(),
            None => false,
        }
    }

    fn is_completed(&self) -> (r: bool)
        ensures
            r == (self.state matches Some(s) && s is Completed),
    {
        match &self.state {
            Some(s) => s.is_completed(),
            None => false,
        }
    }
}


// ---------------------------------------------------------------------------
// Requests and responses
// ---------------------------------------------------------------------------

impl TranscodeReq {
    /// A request to transcode the media at `msg`.
    pub fn transcode(msg: String) -> (r: TranscodeReq)
        ensures
            r.req matches Some(TranscodeReqMessage::Transcode(o)) && o.url == msg,
    {
        TranscodeReq { req: Some(TranscodeReqMessage::Transcode(TranscodeOpts { url: msg })) }
    }
}

impl TranscodeResp {
    /// The job status this response carries, if it carries one.
    pub fn into_state(self) -> (r: Option<JobStatus>)
        ensures
            r == (match self.resp {
                Some(TranscodeRespMessage::JobStatus(s)) => Some(s),
                _ => None,
            }),
    {
        match self.resp {
            Some(TranscodeRespMessage::JobStatus(state)) => Some(state),
            _ => None,
        }
    }
}

impl Handshake {
    /// A handshake built from raw token bytes; the bytes are not carried
    /// over, so the handshake holds no token.
    pub fn from_raw(_raw: Vec<u8>) -> (h: Handshake)
        ensures
            h.token is None,
    {
        Handshake { token: None }
    }
}

// ---------------------------------------------------------------------------
// Websocket frames
// ---------------------------------------------------------------------------

/// A websocket close status code.
#[derive(Debug, Clone, Copy, PartialEq, Eq, Structural)]
pub enum CloseCode {
    Normal,
    Away,
    Protocol,
    Unsupported,
    Status,
    Abnormal,
    Invalid,
    Policy,
    Size,
    Extension,
    Error,
    Restart,
    Again,
    Tls,
    Other(u16),
}

/// The number a close code is sent as.
pub open spec fn close_code_number(c: CloseCode) -> u16 {
    match c {
        CloseCode::Normal => 1000,
        CloseCode::Away => 1001,
        CloseCode::Protocol => 1002,
        CloseCode::Unsupported => 1003,
        CloseCode::Status => 1005,
        CloseCode::Abnormal => 1006,
        CloseCode::Invalid => 1007,
        CloseCode::Policy => 1008,
        CloseCode::Size => 1009,
        CloseCode::Extension => 1010,
        CloseCode::Error => 1011,
        CloseCode::Restart => 1012,
        CloseCode::Again => 1013,
        CloseCode::Tls => 1015,
        CloseCode::Other(n) => n,
    }
}

/// The close code a number stands for.
pub open spec fn close_code_of(n: u16) -> CloseCode {
    if n == 1000 {
        CloseCode::Normal
    } else if n == 1001 {
        CloseCode::Away
    } else if n == 1002 {
        CloseCode::Protocol
    } else if n == 1003 {
        CloseCode::Unsupported
    } else if n == 1005 {
        CloseCode::Status
    } else if n == 1006 {
        CloseCode::Abnormal
    } else if n == 1007 {
        CloseCode::Invalid
    } else if n == 1008 {
        CloseCode::Policy
    } else if n == 1009 {
        CloseCode::Size
    } else if n == 1010 {
        CloseCode::Extension
    } else if n == 1011 {
        CloseCode::Error
    } else if n == 1012 {
        CloseCode::Restart
    } else if n == 1013 {
        CloseCode::Again
    } else if n == 1015 {
        CloseCode::Tls
    } else {
        CloseCode::Other(n)
    }
}

/// A close code is in canonical form: a named code is never held as `Other`.
pub open spec fn close_code_canonical(c: CloseCode) -> bool {
    close_code_of(close_code_number(c)) == c
}

impl CloseCode {
    /// The number this code is sent as.
    pub fn to_u16(self) -> (n: u16)
        ensures
            n == close_code_number(self),
    {
        match self {
            CloseCode::Normal => 1000,
            CloseCode::Away => 1001,
            CloseCode::Protocol => 1002,
            CloseCode::Unsupported => 1003,
            CloseCode::Status => 1005,
            CloseCode::Abnormal => 1006,
            CloseCode::Invalid => 1007,
            CloseCode::Policy => 1008,
            CloseCode::Size => 1009,
            CloseCode::Extension => 1010,
            CloseCode::Error => 1011,
            CloseCode::Restart => 1012,
            CloseCode::Again => 1013,
            CloseCode::Tls => 1015,
            CloseCode::Other(n) => n,
        }
    }

    /// The code a received number stands for.
    pub fn from_u16(n: u16) -> (c: CloseCode)
        ensures
            c == close_code_of(n),
    {
        if n == 1000 {
            CloseCode::Normal
        } else if n == 1001 {
            CloseCode::Away
        } else if n == 1002 {
            CloseCode::Protocol
        } else if n == 1003 {
            CloseCode::Unsupported
        } else if n == 1005 {
            CloseCode::Status
        } else if n == 1006 {
            CloseCode::Abnormal
        } else if n == 1007 {
            CloseCode::Invalid
        } else if n == 1008 {
            CloseCode::Policy
        } else if n == 1009 {
            CloseCode::Size
        } else if n == 1010 {
            CloseCode::Extension
        } else if n == 1011 {
            CloseCode::Error
        } else if n == 1012 {
            CloseCode::Restart
        } else if n == 1013 {
            CloseCode::Again
        } else if n == 1015 {
            CloseCode::Tls
        } else {
            CloseCode::Other(n)
        }
    }
}

/// Reading a code back from the number it is sent as gives the number
/// unchanged, and a canonical code unchanged.
pub proof fn lemma_close_code_round_trip(n: u16, c: CloseCode)
    requires
        close_code_canonical(c),
    ensures
        close_code_number(close_code_of(n)) == n,
        close_code_of(close_code_number(c)) == c,
{
}

/// The code and reason of a close frame.
#[derive(Debug, PartialEq)]
pub struct CloseFrame {
    pub code: CloseCode,
    pub reason: String,
}

/// A websocket frame; `P` is what a binary frame carries (its bytes turned
/// into a message, or the reason they could not be).
#[derive(Debug, PartialEq)]
pub enum Frame<P> {
    Text(String),
    Binary(P),
    Ping(Vec<u8>),
    Pong(Vec<u8>),
    Close(Option<CloseFrame>),
}

/// What `format!("{:?}", s)` gives for a string with the characters `s`:
/// std's `Debug` rendering of a string (quoted, with escapes). A function of
/// the characters alone.
pub uninterp spec fn spec_debug_str(s: Seq<char>) -> Seq<char>;

/// What `format!("{:?}", v)` gives for a byte vector holding `b`: std's
/// `Debug` rendering of a `Vec<u8>`. A function of the bytes alone.
pub uninterp spec fn spec_debug_bytes(b: Seq<u8>) -> Seq<char>;

/// Calls std's `Debug` formatting of `str`. Claimed: the result is what
/// `spec_debug_str` names for the characters of `s`.
#[verifier::external_body]
fn debug_str(s: &str) -> (r: String)
    ensures
        r@ == spec_debug_str(s@),
{
    format!("{:?}", s)
}

/// Calls std's `Debug` formatting of `Vec<u8>`. Claimed: the result is what
/// `spec_debug_bytes` names for the bytes of `v`.
#[verifier::external_body]
fn debug_bytes(v: &Vec<u8>) -> (r: String)
    ensures
        r@ == spec_debug_bytes(v@),
{
    format!("{:?}", v)
}

/// The prefix of the error for a frame of a kind that is not accepted.
pub open spec fn unsupported_prefix() -> Seq<char> {
    "unsupported transcode request type from client: "@
}

/// The error text for a text frame that is not accepted: the frame as its
/// `Debug` form writes it, `Text("...")`.
pub open spec fn unsupported_text_frame(t: Seq<char>) -> Seq<char> {
    unsupported_prefix() + "Text("@ + spec_debug_str(t) + ")"@
}

/// The error text for a ping or pong frame (`kind`) that is not accepted:
/// the frame as its `Debug` form writes it, for example `Ping([1, 2])`.
pub open spec fn unsupported_bytes_frame(kind: Seq<char>, p: Seq<u8>) -> Seq<char> {
    unsupported_prefix() + kind + "("@ + spec_debug_bytes(p) + ")"@
}

fn unsupported_text(t: &String) -> (r: String)
    ensures
        r@ == unsupported_text_frame(t@),
{
    let mut r = owned("unsupported transcode request type from client: Text(");
    let d = debug_str(t.as_str());
    r.append(d.as_str());
    r.append(")");
    proof {
        reveal_strlit("unsupported transcode request type from client: Text(");
        reveal_strlit("unsupported transcode request type from client: ");
        reveal_strlit("Text(");
    }
    assert("unsupported transcode request type from client: Text("@ =~= unsupported_prefix()
        + "Text("@);
    r
}

fn unsupported_bytes(kind: &str, p: &Vec<u8>) -> (r: String)
    ensures
        r@ == unsupported_bytes_frame(kind@, p@),
{
    let mut r = owned("unsupported transcode request type from client: ");
    r.append(kind);
    r.append("(");
    let d = debug_bytes(p);
    r.append(d.as_str());
    r.append(")");
    r
}

/// A `Result` with a string error seen with the error as characters.
pub open spec fn err_view<T>(r: Result<T, String>) -> Result<T, Seq<char>> {
    match r {
        Ok(t) => Ok(t),
        Err(e) => Err(e@),
    }
}

// ---------------------------------------------------------------------------
// Client and server messages
// ---------------------------------------------------------------------------

/// Everything a client can send, once its frame is read.
#[derive(Debug, PartialEq)]
pub enum ClientMessage {
    Transcode(TranscodeReqMessage),
    Ping(Vec<u8>),
    Close,
    CloseReason { code: CloseCode, reason: String },
    Unsupported(String),
}

/// Everything the server can send.
#[derive(Debug, PartialEq)]
pub enum ServerMessage {
    Transcode(TranscodeRespMessage),
    Pong(Vec<u8>),
    Close,
    CloseReason { code: CloseCode, reason: String },
}

/// The client message a received frame stands for, or why there is none.
pub open spec fn client_message_of(f: Frame<Result<TranscodeReq, String>>) -> Result<
    ClientMessage,
    Seq<char>,
> {
    match f {
        Frame::Binary(Ok(req)) => match req.req {
            Some(m) => Ok(ClientMessage::Transcode(m)),
            None => Err("transcode req has no message"@),
        },
        Frame::Binary(Err(e)) => Err(e@),
        Frame::Ping(p) => Ok(ClientMessage::Ping(p)),
        Frame::Close(None) => Ok(ClientMessage::Close),
        Frame::Close(Some(c)) => Ok(ClientMessage::CloseReason { code: c.code, reason: c.reason }),
        Frame::Text(t) => Err(unsupported_text_frame(t@)),
        Frame::Pong(p) => Err(unsupported_bytes_frame("Pong"@, p@)),
    }
}

/// The server message a received frame stands for, or why there is none.
pub open spec fn server_message_of(f: Frame<Result<TranscodeResp, String>>) -> Result<
    ServerMessage,
    Seq<char>,
> {
    match f {
        Frame::Binary(Ok(resp)) => match resp.resp {
            Some(m) => Ok(ServerMessage::Transcode(m)),
            None => Err("transcode resp has no message"@),
        },
        Frame::Binary(Err(e)) => Err(e@),
        Frame::Pong(p) => Ok(ServerMessage::Pong(p)),
        Frame::Close(None) => Ok(ServerMessage::Close),
        Frame::Close(Some(c)) => Ok(ServerMessage::CloseReason { code: c.code, reason: c.reason }),
        Frame::Text(t) => Err(unsupported_text_frame(t@)),
        Frame::Ping(p) => Err(unsupported_bytes_frame("Ping"@, p@)),
    }
}

/// The frame a server message is sent as.
pub open spec fn frame_of(m: ServerMessage) -> Frame<TranscodeResp> {
    match m {
        ServerMessage::Pong(p) => Frame::Pong(p),
        ServerMessage::CloseReason { code, reason } => Frame::Close(
            Some(CloseFrame { code, reason }),
        ),
        ServerMessage::Close => Frame::Close(None),
        ServerMessage::Transcode(msg) => Frame::Binary(TranscodeResp { resp: Some(msg) }),
    }
}

/// A frame as the receiving side sees it once the bytes of a binary frame
/// have been read back into the message they encode.
pub open spec fn received<P>(f: Frame<P>) -> Frame<Result<P, String>> {
    match f {
        Frame::Text(t) => Frame::Text(t),
        Frame::Binary(p) => Frame::Binary(Ok(p)),
        Frame::Ping(p) => Frame::Ping(p),
        Frame::Pong(p) => Frame::Pong(p),
        Frame::Close(c) => Frame::Close(c),
    }
}

impl ClientMessage {
    /// The client message a received frame stands for.
    pub fn try_from_frame(f: Frame<Result<TranscodeReq, String>>) -> (r: Result<ClientMessage, String>)
        ensures
            err_view(r) == client_message_of(f),
    {
        match f {
            Frame::Binary(Ok(req)) => match req.req {
                Some(m) => Ok(ClientMessage::Transcode(m)),
                None => Err(owned("transcode req has no message")),
            },
            Frame::Binary(Err(e)) => Err(e),
            Frame::Ping(p) => Ok(ClientMessage::Ping(p)),
            Frame::Close(None) => Ok(ClientMessage::Close),
            Frame::Close(Some(c)) => Ok(ClientMessage::CloseReason { code: c.code, reason: c.reason }),
            Frame::Text(t) => Err(unsupported_text(&t)),
            Frame::Pong(p) => Err(unsupported_bytes("Pong", &p)),
        }
    }
}

impl ServerMessage {
    /// The server message a received frame stands for.
    pub fn try_from_frame(f: Frame<Result<TranscodeResp, String>>) -> (r: Result<ServerMessage, String>)
        ensures
            err_view(r) == server_message_of(f),
    {
        match f {
            Frame::Binary(Ok(resp)) => match resp.resp {
                Some(m) => Ok(ServerMessage::Transcode(m)),
                None => Err(owned("transcode resp has no message")),
            },
            Frame::Binary(Err(e)) => Err(e),
            Frame::Pong(p) => Ok(ServerMessage::Pong(p)),
            Frame::Close(None) => Ok(ServerMessage::Close),
            Frame::Close(Some(c)) => Ok(ServerMessage::CloseReason { code: c.code, reason: c.reason }),
            Frame::Text(t) => Err(unsupported_text(&t)),
            Frame::Ping(p) => Err(unsupported_bytes("Ping", &p)),
        }
    }

    /// The frame this message is sent as.
    pub fn into_frame(self) -> (f: Frame<TranscodeResp>)
        ensures
            f == frame_of(self),
    {
        match self {
            ServerMessage::Pong(payload) => Frame::Pong(payload),
            ServerMessage::CloseReason { code, reason } => Frame::Close(
                Some(CloseFrame { code, reason }),
            ),
            ServerMessage::Close => Frame::Close(None),
            ServerMessage::Transcode(msg) => Frame::Binary(TranscodeResp { resp: Some(msg) }),
        }
    }

    /// Accepts a handshake with the message `msg`.
    pub fn handshake_accepted(msg: String) -> (m: ServerMessage)
        ensures
            m matches ServerMessage::Transcode(TranscodeRespMessage::Accepted(w)) && w.result_inner
                == Some(RawProtoResult::Success(msg)),
    {
        ServerMessage::Transcode(
            TranscodeRespMessage::Accepted(
                RawProtoResultWrapper { result_inner: Some(RawProtoResult::Success(msg)) },
            ),
        )
    }

    /// Rejects a handshake with the reason `msg`.
    pub fn handshake_rejected(msg: String) -> (m: ServerMessage)
        ensures
            m matches ServerMessage::Transcode(TranscodeRespMessage::Accepted(w)) && w.result_inner
                == Some(RawProtoResult::Failure(msg)),
    {
        ServerMessage::Transcode(
            TranscodeRespMessage::Accepted(
                RawProtoResultWrapper { result_inner: Some(RawProtoResult::Failure(msg)) },
            ),
        )
    }

    /// Reports the job state `status`.
    pub fn job_status(status: JobState) -> (m: ServerMessage)
        ensures
            m == ServerMessage::Transcode(
                TranscodeRespMessage::JobStatus(JobStatus { state: Some(status) }),
            ),
    {
        ServerMessage::Transcode(TranscodeRespMessage::JobStatus(JobStatus { state: Some(status) }))
    }

    /// Reports a queued job.
    pub fn queued() -> (m: ServerMessage)
        ensures
            m == ServerMessage::Transcode(
                TranscodeRespMessage::JobStatus(JobStatus { state: Some(JobState::Queued(())) }),
            ),
    {
        Self::job_status(JobState::Queued(()))
    }

    /// Reports a job being processed.
    pub fn processing() -> (m: ServerMessage)
        ensures
            m == ServerMessage::Transcode(
                TranscodeRespMessage::JobStatus(JobStatus { state: Some(JobState::Processing(())) }),
            ),
    {
        Self::job_status(JobState::Processing(()))
    }

    /// Reports a job being uploaded.
    pub fn uploading() -> (m: ServerMessage)
        ensures
            m == ServerMessage::Transcode(
                TranscodeRespMessage::JobStatus(JobStatus { state: Some(JobState::Uploading(())) }),
            ),
    {
        Self::job_status(JobState::Uploading(()))
    }

    /// Reports a cancelled job.
    pub fn cancelled() -> (m: ServerMessage)
        ensures
            m == ServerMessage::Transcode(
                TranscodeRespMessage::JobStatus(JobStatus { state: Some(JobState::Cancelled(())) }),
            ),
    {
        Self::job_status(JobState::Cancelled(()))
    }

    /// Reports that there is no job.
    pub fn no_jobs() -> (m: ServerMessage)
        ensures
            m == ServerMessage::Transcode(
                TranscodeRespMessage::JobStatus(JobStatus { state: Some(JobState::NoJobs(())) }),
            ),
    {
        Self::job_status(JobState::NoJobs(()))
    }

    /// Reports a job in an unknown state.
    pub fn unknown() -> (m: ServerMessage)
        ensures
            m == ServerMessage::Transcode(
                TranscodeRespMessage::JobStatus(JobStatus { state: Some(JobState::Unknown(())) }),
            ),
    {
        Self::job_status(JobState::Unknown(()))
    }

    /// Reports the error `error`.
    pub fn error(error: String) -> (m: ServerMessage)
        ensures
            m == ServerMessage::Transcode(TranscodeRespMessage::Error(error)),
    {
        ServerMessage::Transcode(TranscodeRespMessage::Error(error))
    }

    /// Answers a ping carrying `msg`.
    pub fn pong(msg: Vec<u8>) -> (m: ServerMessage)
        ensures
            m == ServerMessage::Pong(msg),
    {
        ServerMessage::Pong(msg)
    }

    /// Closes without a reason.
    pub fn close() -> (m: ServerMessage)
        ensures
            m == ServerMessage::Close,
    {
        ServerMessage::Close
    }

    /// Closes with the status `code` and the reason `reason`.
    pub fn close_with_reason(code: CloseCode, reason: String) -> (m: ServerMessage)
        ensures
            m == (ServerMessage::CloseReason { code, reason }),
    {
        ServerMessage::CloseReason { code, reason }
    }
}

/// Whatever the server sends, the receiving side reads back the very message
/// that was sent.
pub proof fn lemma_server_message_round_trip(m: ServerMessage)
    ensures
        server_message_of(received(frame_of(m))) == Ok::<ServerMessage, Seq<char>>(m),
{
}

/// A request a client sends in a binary frame is read by the server as that
/// same request.
pub proof fn lemma_client_request_round_trip(m: TranscodeReqMessage)
    ensures
        client_message_of(received(Frame::Binary(TranscodeReq { req: Some(m) })))
            == Ok::<ClientMessage, Seq<char>>(ClientMessage::Transcode(m)),
{
}


/// Every job state is the same state as itself, so a step that expects the
/// state a job is in finds it there.
pub proof fn lemma_same_job_state_reflexive(s: JobState)
    ensures
        same_job_state(s, s),
{
    if let JobState::Completed(w) = s {
        if let Some(r) = w.result_inner {
            assert(same_result(r, r));
        }
    }
}

/// Two states are the same state only when they are the same variant.
pub proof fn lemma_same_job_state_same_variant(a: JobState, b: JobState)
    requires
        same_job_state(a, b),
    ensures
        a is Queued <==> b is Queued,
        a is NoJobs <==> b is NoJobs,
        a is Processing <==> b is Processing,
        a is Uploading <==> b is Uploading,
        a is Completed <==> b is Completed,
        a is Cancelled <==> b is Cancelled,
        a is Unknown <==> b is Unknown,
{
}

/// A close frame reads as a close that keeps the frame's code and reason, or
/// as a plain close when the frame has none; a ping reads as a ping with the
/// same payload.
pub proof fn lemma_client_close_and_ping(c: CloseFrame, p: Vec<u8>)
    ensures
        client_message_of(Frame::Close(Some(c))) == Ok::<ClientMessage, Seq<char>>(
            ClientMessage::CloseReason { code: c.code, reason: c.reason },
        ),
        client_message_of(Frame::Close(None)) == Ok::<ClientMessage, Seq<char>>(ClientMessage::Close),
        client_message_of(Frame::Ping(p)) == Ok::<ClientMessage, Seq<char>>(ClientMessage::Ping(p)),
        server_message_of(Frame::Close(Some(c))) == Ok::<ServerMessage, Seq<char>>(
            ServerMessage::CloseReason { code: c.code, reason: c.reason },
        ),
        server_message_of(Frame::Pong(p)) == Ok::<ServerMessage, Seq<char>>(ServerMessage::Pong(p)),
{
}

} // verus!
