//! Classification of what a worker left on its two output streams, and the
//! errors a call can end in.
use crate::capture::{empty_capture, replay, step, Capture, CaptureView, Event};
use crate::json::{
    check_json, json_member, json_member_str, json_parse_error, json_valid, member_str, member_text,
};
use vstd::prelude::*;

verus! {

/// The text that `String::from_utf8_lossy` makes of some bytes.
pub uninterp spec fn lossy_utf8(bytes: Seq<u8>) -> Seq<char>;

/// Relies on `String::from_utf8_lossy`: malformed sequences become U+FFFD,
/// never an error.
#[verifier::external_body]
pub(crate) fn lossy_text(bytes: &Vec<u8>) -> (r: String)
    ensures
        r@ == lossy_utf8(bytes@),
{
    String::from_utf8_lossy(bytes.as_slice()).to_string()
}

/// How one call ended, as read from the worker's output.
#[derive(Debug, Clone, PartialEq, Eq)]
pub enum Outcome {
    /// The worker's whole standard output, a JSON document without a
    /// top-level `error` member.
    Success { payload: String },
    /// Nothing on standard output, something on standard error.
    WorkerFailure { diagnostic: String },
    /// Standard output is not one JSON value.
    ProtocolError { parse_error: String, stdout: String },
    /// The worker reported an `error` member.
    WorkerError { message: String, traceback: String },
}

/// The mathematical form of an [`Outcome`].
pub enum OutcomeView {
    Success { payload: Seq<char> },
    WorkerFailure { diagnostic: Seq<char> },
    ProtocolError { parse_error: Seq<char>, stdout: Seq<char> },
    WorkerError { message: Seq<char>, traceback: Seq<char> },
}

impl View for Outcome {
    type V = OutcomeView;

    open spec fn view(&self) -> OutcomeView {
        match self {
            Outcome::Success { payload } => OutcomeView::Success { payload: payload@ },
            Outcome::WorkerFailure { diagnostic } => OutcomeView::WorkerFailure {
                diagnostic: diagnostic@,
            },
            Outcome::ProtocolError { parse_error, stdout } => OutcomeView::ProtocolError {
                parse_error: parse_error@,
                stdout: stdout@,
            },
            Outcome::WorkerError { message, traceback } => OutcomeView::WorkerError {
                message: message@,
                traceback: traceback@,
            },
        }
    }
}

/// Every way a call can fail.
#[derive(Debug, Clone, PartialEq, Eq)]
pub enum BridgeError {
    /// The worker's command could not be set up.
    Setup { detail: String },
    /// The worker process could not be started.
    Spawn { detail: String },
    /// The request could not be written to the worker's input.
    Write { detail: String },
    /// The worker wrote only on standard error.
    WorkerFailure { diagnostic: String },
    /// The worker's standard output is not one JSON value.
    Protocol { parse_error: String, stdout: String },
    /// The worker reported an error.
    Worker { message: String, traceback: String },
    /// A success payload lacks the member an operation needs.
    MissingField { field: String },
}

/// The one-line description of an error handed to the caller.
pub open spec fn error_message(e: BridgeError) -> Seq<char> {
    match e {
        BridgeError::Setup { detail } => "Failed to create sidecar command: "@ + detail@,
        BridgeError::Spawn { detail } => "Failed to spawn sidecar: "@ + detail@,
        BridgeError::Write { detail } => "Failed to write to stdin: "@ + detail@,
        BridgeError::WorkerFailure { diagnostic } => "Sidecar error: "@ + diagnostic@,
        BridgeError::Protocol { parse_error, stdout } => "Failed to parse response: "@
            + parse_error@ + " - stdout: "@ + stdout@,
        BridgeError::Worker { message, traceback } => "Python error: "@ + message@ + " \n"@
            + traceback@,
        BridgeError::MissingField { field } => "No "@ + field@ + " in response"@,
    }
}

fn joined(head: &str, detail: &String) -> (r: String)
    ensures
        r@ == head@ + detail@,
{
    let mut out = String::from_str(head);
    out.append(detail.as_str());
    out
}

impl BridgeError {
    /// The description of this error.
    pub fn message(&self) -> (r: String)
        ensures
            r@ == error_message(*self),
    {
        match self {
            BridgeError::Setup { detail } => joined("Failed to create sidecar command: ", detail),
            BridgeError::Spawn { detail } => joined("Failed to spawn sidecar: ", detail),
            BridgeError::Write { detail } => joined("Failed to write to stdin: ", detail),
            BridgeError::WorkerFailure { diagnostic } => joined("Sidecar error: ", diagnostic),
            BridgeError::Protocol { parse_error, stdout } => {
                let mut out = joined("Failed to parse response: ", parse_error);
                out.append(" - stdout: ");
                out.append(stdout.as_str());
                out
            },
            BridgeError::Worker { message, traceback } => {
                let mut out = joined("Python error: ", message);
                out.append(" \n");
                out.append(traceback.as_str());
                out
            },
            BridgeError::MissingField { field } => {
                let mut out = joined("No ", field);
                out.append(" in response");
                out
            },
        }
    }
}

impl Outcome {
    /// The payload of a success, or the error that the outcome stands for.
    pub fn into_result(self) -> (r: Result<String, BridgeError>)
        ensures
            match self@ {
                OutcomeView::Success { payload } => r matches Ok(p) && p@ == payload,
                OutcomeView::WorkerFailure { diagnostic } => r matches Err(
                    BridgeError::WorkerFailure { diagnostic: d },
                ) && d@ == diagnostic,
                OutcomeView::ProtocolError { parse_error, stdout } => r matches Err(
                    BridgeError::Protocol { parse_error: e, stdout: s },
                ) && e@ == parse_error && s@ == stdout,
                OutcomeView::WorkerError { message, traceback } => r matches Err(
                    BridgeError::Worker { message: m, traceback: t },
                ) && m@ == message && t@ == traceback,
            },
    {
        match self {
            Outcome::Success { payload } => Ok(payload),
            Outcome::WorkerFailure { diagnostic } => Err(BridgeError::WorkerFailure { diagnostic }),
            Outcome::ProtocolError { parse_error, stdout } => Err(
                BridgeError::Protocol { parse_error, stdout },
            ),
            Outcome::WorkerError { message, traceback } => Err(
                BridgeError::Worker { message, traceback },
            ),
        }
    }
}

/// The text held by an optional string.
pub open spec fn opt_text(o: Option<String>) -> Option<Seq<char>> {
    match o {
        Some(s) => Some(s@),
        None => None,
    }
}

/// The outcome of a standard output that parsed, given its `error` member's
/// JSON text and its `traceback` string, where present.
pub open spec fn parsed_outcome(
    stdout: Seq<char>,
    error: Option<Seq<char>>,
    traceback: Option<Seq<char>>,
) -> OutcomeView {
    match error {
        Some(m) => OutcomeView::WorkerError {
            message: m,
            traceback: match traceback {
                Some(t) => t,
                None => Seq::empty(),
            },
        },
        None => OutcomeView::Success { payload: stdout },
    }
}

/// Whether the worker crashed before writing any output.
pub open spec fn crashed(stdout: Seq<char>, stderr: Seq<char>) -> bool {
    stderr.len() > 0 && stdout.len() == 0
}

/// The outcome of a call whose worker wrote `stdout` and `stderr`.
pub open spec fn classified(stdout: Seq<char>, stderr: Seq<char>) -> OutcomeView {
    if crashed(stdout, stderr) {
        OutcomeView::WorkerFailure { diagnostic: stderr }
    } else {
        match json_parse_error(stdout) {
            Some(e) => OutcomeView::ProtocolError { parse_error: e, stdout },
            None => parsed_outcome(
                stdout,
                json_member(stdout, "error"@),
                json_member_str(stdout, "traceback"@),
            ),
        }
    }
}

/// Classifies a standard output that parsed, given what was read of its
/// `error` and `traceback` members.
pub fn classify_parsed(
    stdout: &str,
    error: Option<String>,
    traceback: Option<String>,
) -> (r: Outcome)
    ensures
        r@ == parsed_outcome(stdout@, opt_text(error), opt_text(traceback)),
{
    match error {
        Some(message) => {
            let traceback = match traceback {
                Some(t) => t,
                None => String::new(),
            };
            Outcome::WorkerError { message, traceback }
        },
        None => Outcome::Success { payload: stdout.to_owned() },
    }
}

/// Classifies what a worker wrote on its standard output and standard error.
pub fn classify(stdout: &str, stderr: &str) -> (r: Outcome)
    ensures
        r@ == classified(stdout@, stderr@),
{
    if !stderr.is_empty() && stdout.is_empty() {
        return Outcome::WorkerFailure { diagnostic: stderr.to_owned() };
    }
    match check_json(stdout) {
        Err(parse_error) => Outcome::ProtocolError { parse_error, stdout: stdout.to_owned() },
        Ok(()) => {
            let error = member_text(stdout, "error");
            let traceback = member_str(stdout, "traceback");
            classify_parsed(stdout, error, traceback)
        },
    }
}

/// The outcome of a finished capture: both buffers are read as UTF-8, lossily.
pub fn finish(capture: &Capture) -> (r: Outcome)
    ensures
        r@ == classified(lossy_utf8(capture.stdout@), lossy_utf8(capture.stderr@)),
{
    let stdout = lossy_text(&capture.stdout);
    let stderr = lossy_text(&capture.stderr);
    classify(stdout.as_str(), stderr.as_str())
}


/// A worker that leaves nothing on standard error and a JSON document without
/// an `error` member on standard output yields a success carrying that
/// document, whatever the call was.
pub proof fn lemma_clean_reply_is_success(stdout: Seq<char>, stderr: Seq<char>)
    requires
        stderr.len() == 0,
        json_valid(stdout),
        json_member(stdout, "error"@) is None,
    ensures
        classified(stdout, stderr) == (OutcomeView::Success { payload: stdout }),
{
}

/// A worker whose standard output is a JSON document with an `error` member
/// yields a worker error carrying that member's text and the `traceback`
/// string (empty where there is none), whatever it wrote on standard error.
pub proof fn lemma_reported_error_is_worker_error(stdout: Seq<char>, stderr: Seq<char>)
    requires
        stdout.len() > 0,
        json_valid(stdout),
        json_member(stdout, "error"@) is Some,
    ensures
        classified(stdout, stderr) == (OutcomeView::WorkerError {
            message: json_member(stdout, "error"@)->Some_0,
            traceback: match json_member_str(stdout, "traceback"@) {
                Some(t) => t,
                None => Seq::empty(),
            },
        }),
{
}

/// A worker that wrote nothing on standard output and something on standard
/// error yields a worker failure carrying exactly that diagnostic.
pub proof fn lemma_silent_crash_is_worker_failure(stdout: Seq<char>, stderr: Seq<char>)
    requires
        stdout.len() == 0,
        stderr.len() > 0,
    ensures
        classified(stdout, stderr) == (OutcomeView::WorkerFailure { diagnostic: stderr }),
{
}

/// A non-empty standard output that is not one JSON value yields a protocol
/// error carrying the parse error and the raw output; it never yields a
/// success or a worker error.
pub proof fn lemma_garbled_reply_is_protocol_error(stdout: Seq<char>, stderr: Seq<char>)
    requires
        stdout.len() > 0,
        !json_valid(stdout),
    ensures
        classified(stdout, stderr) == (OutcomeView::ProtocolError {
            parse_error: json_parse_error(stdout)->Some_0,
            stdout,
        }),
{
}

/// The outcome a call receives from what its capture holds.
pub open spec fn capture_outcome(c: CaptureView) -> OutcomeView {
    classified(lossy_utf8(c.stdout), lossy_utf8(c.stderr))
}

/// The events of an interleaving of two calls' events (tagged `false` for the
/// first call, `true` for the second) that belong to the call `tag`, in order.
pub open spec fn own_events(s: Seq<(bool, Event)>, tag: bool) -> Seq<Event>
    decreases s.len(),
{
    if s.len() == 0 {
        Seq::empty()
    } else if s.last().0 == tag {
        own_events(s.drop_last(), tag).push(s.last().1)
    } else {
        own_events(s.drop_last(), tag)
    }
}

/// Two calls running side by side, each event handed to its own call's
/// capture.
pub open spec fn replay_two(s: Seq<(bool, Event)>) -> (CaptureView, CaptureView)
    decreases s.len(),
{
    if s.len() == 0 {
        (empty_capture(), empty_capture())
    } else {
        let (a, b) = replay_two(s.drop_last());
        if s.last().0 {
            (a, step(b, s.last().1))
        } else {
            (step(a, s.last().1), b)
        }
    }
}

/// No cross-talk: however the events of two concurrent calls interleave, each
/// call's capture, and so its outcome, is the one its own events alone give.
pub proof fn lemma_concurrent_calls_do_not_cross(s: Seq<(bool, Event)>)
    ensures
        replay_two(s).0 == replay(own_events(s, false)),
        replay_two(s).1 == replay(own_events(s, true)),
        capture_outcome(replay_two(s).0) == capture_outcome(replay(own_events(s, false))),
        capture_outcome(replay_two(s).1) == capture_outcome(replay(own_events(s, true))),
    decreases s.len(),
{
    if s.len() > 0 {
        lemma_concurrent_calls_do_not_cross(s.drop_last());
        let tag = s.last().0;
        let mine = own_events(s.drop_last(), tag);
        assert(mine.push(s.last().1).drop_last() =~= mine);
    }
}

} // verus!
