//! The line-based text protocol: clients send `HANDSHAKE`, then
//! `URL <address>`; the server answers `READY` and `QUEUED`.

use vstd::prelude::*;
use crate::text::{concat, has_prefix, owned, starts_with, strip_all_prefixes, strip_prefixes, text_eq};
use crate::weburl::{ParsedUrl, parse_url, parser_output, spec_url_parse};

verus! {

/// A connection's state, and also what a received line asks for; `J` is the
/// handle of a queued job.
#[derive(Debug)]
pub enum StreamState<J> {
    New,
    Handshake,
    Url(ParsedUrl),
    Job(J),
    Invalid(String),
}

/// A state as text and job handles.
pub ghost enum TextView<J> {
    New,
    Handshake,
    Url(Seq<char>),
    Job(J),
    Invalid(Seq<char>),
}

/// How a state is seen.
pub open spec fn text_view<J>(s: StreamState<J>) -> TextView<J> {
    match s {
        StreamState::New => TextView::New,
        StreamState::Handshake => TextView::Handshake,
        StreamState::Url(u) => TextView::Url(u@),
        StreamState::Job(j) => TextView::Job(j),
        StreamState::Invalid(v) => TextView::Invalid(v@),
    }
}

/// What a received line asks for.
pub open spec fn parse_line<J>(s: Seq<char>) -> TextView<J> {
    if s == "NEW"@ {
        TextView::New
    } else if s == "HANDSHAKE"@ {
        TextView::Handshake
    } else if s == "JOB"@ {
        TextView::Invalid("job cannot be retrieved as a proto message"@)
    } else if starts_with(s, "URL "@) {
        match spec_url_parse(strip_prefixes(s, "URL "@)) {
            Ok(u) => TextView::Url(u),
            Err(e) => TextView::Invalid("bad url: "@ + e),
        }
    } else {
        TextView::Invalid(s)
    }
}

/// The line a state is written as.
pub open spec fn state_text<J>(s: TextView<J>) -> Seq<char> {
    match s {
        TextView::New => "NEW"@,
        TextView::Handshake => "HANDSHAKE"@,
        TextView::Url(u) => "URL "@ + u,
        TextView::Job(_) => "JOB"@,
        TextView::Invalid(v) => "Unknown command: "@ + v,
    }
}

impl<J> StreamState<J> {
    /// What the line `s` asks for.
    pub fn from_text(s: &str) -> (r: StreamState<J>)
        ensures
            text_view(r) == parse_line::<J>(s@),
            text_view(r) matches TextView::Url(u) ==> parser_output(u),
    {
        if text_eq(s, "NEW") {
            StreamState::New
        } else if text_eq(s, "HANDSHAKE") {
            StreamState::Handshake
        } else if text_eq(s, "JOB") {
            StreamState::Invalid(owned("job cannot be retrieved as a proto message"))
        } else if has_prefix(s, "URL ") {
            let rest = strip_all_prefixes(s, "URL ");
            match parse_url(rest.as_str()) {
                Ok(u) => StreamState::Url(u),
                Err(e) => StreamState::Invalid(concat("bad url: ", e.as_str())),
            }
        } else {
            StreamState::Invalid(owned(s))
        }
    }

    /// The line this state is written as.
    pub fn to_text(&self) -> (r: String)
        ensures
            r@ == state_text(text_view(*self)),
            parse_line::<J>(r@) == match text_view(*self) {
                TextView::Invalid(v) => TextView::Invalid("Unknown command: "@ + v),
                TextView::Job(_) => TextView::Invalid("job cannot be retrieved as a proto message"@),
                other => other,
            },
    {
        proof {
            lemma_line_round_trip::<J>();
            if let StreamState::Invalid(v) = self {
                lemma_other_lines_read_back::<J>(v@);
            }
            if let StreamState::Job(j) = self {
                lemma_other_lines_read_back::<J>(Seq::empty());
                assert(state_text(TextView::<J>::Job(*j)) == "JOB"@);
            }
        }
        match self {
            StreamState::New => owned("NEW"),
            StreamState::Handshake => owned("HANDSHAKE"),
            StreamState::Url(v) => {
                let text = v.as_str();
                proof {
                    lemma_url_line_round_trip::<J>(text@);
                }
                concat("URL ", text)
            },
            StreamState::Job(_) => owned("JOB"),
            StreamState::Invalid(v) => concat("Unknown command: ", v.as_str()),
        }
    }
}

/// What the server does after a line.
#[derive(Debug)]
pub enum TextStep<J> {
    /// Send `reply` (if any) and go on in `next`.
    Continue { reply: Option<String>, next: StreamState<J> },
    /// Queue a job for `url`; once queued, go on with `text_enqueued`. If it
    /// cannot be queued the connection ends.
    Enqueue { url: ParsedUrl },
}

/// A step as the client and the job runner see it.
pub ghost enum TextStepView<J> {
    Continue(Option<Seq<char>>, TextView<J>),
    Enqueue(Seq<char>),
}

/// How a step is seen.
pub open spec fn text_step_view<J>(s: TextStep<J>) -> TextStepView<J> {
    match s {
        TextStep::Continue { reply, next } => TextStepView::Continue(
            match reply {
                Some(r) => Some(r@),
                None => None,
            },
            text_view(next),
        ),
        TextStep::Enqueue { url } => TextStepView::Enqueue(url@),
    }
}

/// What the server does when a connection in `state` receives `line`.
pub open spec fn text_session_step<J>(state: TextView<J>, line: Seq<char>) -> TextStepView<J> {
    match parse_line::<J>(line) {
        TextView::New => TextStepView::Continue(None, state),
        TextView::Handshake => if state is New {
            TextStepView::Continue(Some("READY"@), TextView::Handshake)
        } else {
            TextStepView::Continue(Some("cannot handshake at this time"@), state)
        },
        TextView::Url(u) => if state is Handshake {
            TextStepView::Enqueue(u)
        } else {
            TextStepView::Continue(Some("cannot process url at this time"@), state)
        },
        TextView::Job(_) => TextStepView::Continue(None, TextView::Handshake),
        TextView::Invalid(v) => TextStepView::Continue(
            Some("unknown proto message type: "@ + v),
            state,
        ),
    }
}

/// What the server does when a connection in `state` receives `line`.
pub fn handle_line<J>(state: StreamState<J>, line: &str) -> (step: TextStep<J>)
    ensures
        text_step_view(step) == text_session_step(text_view(state), line@),
{
    match StreamState::<J>::from_text(line) {
        StreamState::New => TextStep::Continue { reply: None, next: state },
        StreamState::Handshake => match state {
            StreamState::New => TextStep::Continue {
                reply: Some(owned("READY")),
                next: StreamState::Handshake,
            },
            other => TextStep::Continue {
                reply: Some(owned("cannot handshake at this time")),
                next: other,
            },
        },
        StreamState::Url(url) => match state {
            StreamState::Handshake => TextStep::Enqueue { url },
            other => TextStep::Continue {
                reply: Some(owned("cannot process url at this time")),
                next: other,
            },
        },
        StreamState::Job(_) => TextStep::Continue { reply: None, next: StreamState::Handshake },
        StreamState::Invalid(v) => TextStep::Continue {
            reply: Some(concat("unknown proto message type: ", v.as_str())),
            next: state,
        },
    }
}

/// Once the job `job` is queued: report it queued and hold it.
pub fn text_enqueued<J>(job: J) -> (step: TextStep<J>)
    ensures
        text_step_view(step) == TextStepView::Continue(Some("QUEUED"@), TextView::Job(job)),
{
    TextStep::Continue { reply: Some(owned("QUEUED")), next: StreamState::Job(job) }
}

/// The state of a job queued over the text protocol.
#[derive(Debug)]
pub enum JobState {
    Queued,
    Processing,
    Uploading,
    Complete(Result<ParsedUrl, String>),
    Cancelled,
}

impl Default for JobState {
    /// A new job starts queued.
    fn default() -> (s: JobState)
        ensures
            s is Queued,
    {
        JobState::Queued
    }
}

/// A queued job starts processing; a job in any other state is left as it
/// is. Reports whether it started.
pub fn start_job(state: &mut JobState) -> (started: bool)
    ensures
        started == (*old(state) is Queued),
        started ==> *final(state) is Processing,
        !started ==> *final(state) == *old(state),
{
    match state {
        JobState::Queued => {
            *state = JobState::Processing;
            true
        },
        _ => false,
    }
}


/// A client's handshake and reset lines read back as what they were
/// written from.
pub proof fn lemma_line_round_trip<J>()
    ensures
        parse_line::<J>(state_text(TextView::<J>::Handshake)) == TextView::<J>::Handshake,
        parse_line::<J>(state_text(TextView::<J>::New)) == TextView::<J>::New,
{
    reveal_strlit("NEW");
    reveal_strlit("HANDSHAKE");
}

/// A `URL` line written for a URL as the parser gives it reads back as that
/// URL; every URL the library holds is of that kind (`ParsedUrl`'s type
/// invariant, which `ParsedUrl::as_str` states), so `to_text` states the
/// round trip for every state without this premise.
pub proof fn lemma_url_line_round_trip<J>(u: Seq<char>)
    requires
        parser_output(u),
    ensures
        parse_line::<J>(state_text(TextView::<J>::Url(u))) == TextView::<J>::Url(u),
{
    reveal_strlit("URL ");
    reveal_strlit("NEW");
    reveal_strlit("HANDSHAKE");
    reveal_strlit("JOB");
    let line = "URL "@ + u;
    assert(line.subrange(0, 4) =~= "URL "@);
    assert(line.subrange(4, line.len() as int) =~= u);
    assert(line[0] == 'U');
    assert(line != "NEW"@);
    assert(line != "HANDSHAKE"@);
    assert(line != "JOB"@);
    assert(!starts_with(u, "URL "@)) by {
        if starts_with(u, "URL "@) {
            assert(u.subrange(0, 4)[0] == 'U');
        }
    }
    assert(strip_prefixes(line, "URL "@) == strip_prefixes(u, "URL "@));
}

/// A line written for an invalid command, or for a queued job, reads back
/// as an invalid command: the unknown command's text, or the note that a
/// job cannot be sent as a line.
pub proof fn lemma_other_lines_read_back<J>(v: Seq<char>)
    ensures
        parse_line::<J>(state_text(TextView::<J>::Invalid(v))) == TextView::<J>::Invalid(
            "Unknown command: "@ + v,
        ),
        forall|j: J|
            parse_line::<J>(#[trigger] state_text(TextView::<J>::Job(j))) == TextView::<J>::Invalid(
                "job cannot be retrieved as a proto message"@,
            ),
{
    reveal_strlit("URL ");
    reveal_strlit("NEW");
    reveal_strlit("HANDSHAKE");
    reveal_strlit("JOB");
    reveal_strlit("Unknown command: ");
    assert("JOB"@[0] == 'J' && "NEW"@[0] == 'N' && "HANDSHAKE"@.len() == 9);
    assert("JOB"@ != "NEW"@);
    assert("JOB"@ != "HANDSHAKE"@);
    let line = "Unknown command: "@ + v;
    assert(line[0] == 'U' && line[1] == 'n');
    assert(line != "NEW"@);
    assert(line != "HANDSHAKE"@);
    assert(line != "JOB"@ ) by {
        if line.len() == 3 {
        }
    }
    assert(!starts_with(line, "URL "@)) by {
        if starts_with(line, "URL "@) {
            assert(line.subrange(0, 4)[1] == 'R');
        }
    }
}


/// A job is queued only for a `URL` line from a connection that has shaken
/// hands, and only for the address the line's URL parses to.
pub proof fn lemma_text_enqueue_only_after_handshake<J>(state: TextView<J>, line: Seq<char>)
    ensures
        text_session_step(state, line) matches TextStepView::Enqueue(u) ==> state is Handshake
            && parse_line::<J>(line) == TextView::<J>::Url(u),
{
}

/// A `URL` line from a connection that has not just shaken hands (a new one,
/// or one whose job is already queued) is answered "cannot process url at
/// this time" and the state is kept.
pub proof fn lemma_text_url_refused<J>(state: TextView<J>, line: Seq<char>, u: Seq<char>)
    requires
        !(state is Handshake),
        parse_line::<J>(line) == TextView::<J>::Url(u),
    ensures
        text_session_step(state, line) == TextStepView::Continue(
            Some("cannot process url at this time"@),
            state,
        ),
{
}

/// A `HANDSHAKE` line is answered "READY" only on a new connection, which
/// then has shaken hands; on any other it is refused and the state kept.
pub proof fn lemma_text_handshake<J>(state: TextView<J>)
    ensures
        text_session_step(state, "HANDSHAKE"@) == if state is New {
            TextStepView::Continue(Some("READY"@), TextView::<J>::Handshake)
        } else {
            TextStepView::Continue(Some("cannot handshake at this time"@), state)
        },
{
    lemma_line_round_trip::<J>();
}


/// A line that is none of the commands is answered "unknown proto message
/// type: " followed by the line, and the state is kept.
pub proof fn lemma_text_unknown_line<J>(state: TextView<J>, line: Seq<char>)
    requires
        line != "NEW"@,
        line != "HANDSHAKE"@,
        line != "JOB"@,
        !starts_with(line, "URL "@),
    ensures
        text_session_step(state, line) == TextStepView::Continue(
            Some("unknown proto message type: "@ + line),
            state,
        ),
{
}

/// A `NEW` line is not answered and changes nothing.
pub proof fn lemma_text_new_ignored<J>(state: TextView<J>)
    ensures
        text_session_step(state, "NEW"@) == TextStepView::Continue(None, state),
{
}

} // verus!
