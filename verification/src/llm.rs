//! The exchange with the model backend (Ollama's `/api/generate`): what is
//! sent, and how each way of failing is named.

use vstd::prelude::*;
use vstd::string::StringExecFns;
use crate::decimal::{decimal, push_decimal};

verus! {

/// The system prompt used when neither a flag nor the environment gives one.
pub const SYSTEM_PROMPT: &'static str = "You are a filter for command-line output. You receive the output of a command and an instruction that says which parts of it to keep. Reply with only the parts of the content that the instruction asks for, copied verbatim and in the order they appear. Do not add explanations, summaries, headings or code fences. If nothing matches, reply with an empty response.";

/// Why a call to the model did not produce filtered output.
#[derive(Debug, Clone, Copy, PartialEq, Eq, Structural)]
pub enum FailReason {
    ConnectError,
    Timeout,
    BadStatus,
    ParseError,
}

/// The name under which a failure is recorded in the run log.
pub open spec fn reason_name(reason: FailReason) -> Seq<char> {
    match reason {
        FailReason::ConnectError => "connect_error"@,
        FailReason::Timeout => "timeout"@,
        FailReason::BadStatus => "bad_status"@,
        FailReason::ParseError => "parse_error"@,
    }
}

impl FailReason {
    /// The run-log name of this failure.
    pub fn as_str(self) -> (name: &'static str)
        ensures
            name@ == reason_name(self),
    {
        match self {
            FailReason::ConnectError => "connect_error",
            FailReason::Timeout => "timeout",
            FailReason::BadStatus => "bad_status",
            FailReason::ParseError => "parse_error",
        }
    }
}

/// Distinct failures are recorded under distinct names.
pub proof fn reason_names_are_distinct(a: FailReason, b: FailReason)
    requires
        a != b,
    ensures
        reason_name(a) != reason_name(b),
{
    reveal_strlit("connect_error");
    reveal_strlit("timeout");
    reveal_strlit("bad_status");
    reveal_strlit("parse_error");
    assert("connect_error"@[0] != "timeout"@[0]);
    assert("connect_error"@[0] != "bad_status"@[0]);
    assert("connect_error"@[0] != "parse_error"@[0]);
    assert("timeout"@[0] != "bad_status"@[0]);
    assert("timeout"@[0] != "parse_error"@[0]);
    assert("bad_status"@[0] != "parse_error"@[0]);
}

/// A failed call to the model backend.
#[derive(Debug)]
pub struct LlmError {
    pub reason: FailReason,
    pub detail: String,
}

/// The body of a `/api/generate` request, short of the sampling
/// temperature, which the sender adds.
#[derive(Debug)]
pub struct OllamaRequest<'a> {
    pub model: &'a str,
    pub prompt: String,
    pub stream: bool,
    pub think: bool,
    pub num_ctx: Option<u32>,
}

/// The single prompt sent to the model: the system prompt, the user's
/// instruction and the input, in that order.
pub open spec fn prompt_text(system_prompt: Seq<char>, user_prompt: Seq<char>, input: Seq<char>) -> Seq<
    char,
> {
    system_prompt + "\n\nUser Prompt: "@ + user_prompt + "\n\nOriginal Content:\n"@ + input
}

/// Joins the system prompt, the user's instruction and the input.
pub fn full_prompt(system_prompt: &str, user_prompt: &str, input: &str) -> (prompt: String)
    ensures
        prompt@ == prompt_text(system_prompt@, user_prompt@, input@),
{
    let mut prompt = String::new();
    prompt.append(system_prompt);
    prompt.append("\n\nUser Prompt: ");
    prompt.append(user_prompt);
    prompt.append("\n\nOriginal Content:\n");
    prompt.append(input);
    prompt
}

/// The request for one filtering call: not streamed, with thinking off.
pub fn build_request<'a>(
    model: &'a str,
    system_prompt: &str,
    user_prompt: &str,
    input: &str,
    num_ctx: Option<u32>,
) -> (req: OllamaRequest<'a>)
    ensures
        req.model == model,
        req.prompt@ == prompt_text(system_prompt@, user_prompt@, input@),
        !req.stream,
        !req.think,
        req.num_ctx == num_ctx,
{
    OllamaRequest {
        model,
        prompt: full_prompt(system_prompt, user_prompt, input),
        stream: false,
        think: false,
        num_ctx,
    }
}

/// The URL of the generate endpoint under `base_url`.
pub fn endpoint(base_url: &str) -> (url: String)
    ensures
        url@ == base_url@ + "/api/generate"@,
{
    let mut url = String::new();
    url.append(base_url);
    url.append("/api/generate");
    url
}

/// Names a failure to send the request: a timeout, or else a connection
/// failure.
pub fn classify_send_error(timed_out: bool, detail: String) -> (err: LlmError)
    ensures
        err.reason == (if timed_out {
            FailReason::Timeout
        } else {
            FailReason::ConnectError
        }),
        err.detail == detail,
{
    LlmError { reason: if timed_out {
        FailReason::Timeout
    } else {
        FailReason::ConnectError
    }, detail }
}

/// Accepts a 2xx status; any other is a `BadStatus` failure reading
/// `HTTP <status>`.
pub fn check_status(status: u16) -> (res: Result<(), LlmError>)
    ensures
        res is Ok <==> 200 <= status < 300,
        res matches Err(e) ==> e.reason == FailReason::BadStatus && e.detail@ == "HTTP "@ + decimal(
            status as nat,
        ),
{
    if 200 <= status && status < 300 {
        Ok(())
    } else {
        let mut detail = String::new();
        detail.append("HTTP ");
        push_decimal(&mut detail, status as u128);
        Err(LlmError { reason: FailReason::BadStatus, detail })
    }
}

/// A response body that could not be read counts as a connection failure.
pub fn body_read_error(detail: String) -> (err: LlmError)
    ensures
        err.reason == FailReason::ConnectError,
        err.detail == detail,
{
    LlmError { reason: FailReason::ConnectError, detail }
}

/// A response body that is not a generate response is a parse failure.
pub fn response_parse_error(detail: String) -> (err: LlmError)
    ensures
        err.reason == FailReason::ParseError,
        err.detail == detail,
{
    LlmError { reason: FailReason::ParseError, detail }
}

/// A 2xx status.
pub open spec fn is_success_status(status: u16) -> bool {
    200 <= status < 300
}

/// Where one call to the model stands.
#[derive(Debug)]
pub enum Exchange {
    /// The request is on its way; the server's status is awaited.
    AwaitingStatus,
    /// The server accepted the request; its body is awaited.
    AwaitingBody,
    /// The body is in and awaits parsing as a generate response.
    AwaitingParse(String),
    /// The call is over, with the model's answer or the reason it failed.
    Done(Result<String, LlmError>),
}

/// What happened at the current step of a call.
#[derive(Debug)]
pub enum ExchangeEvent {
    /// The request could not be sent, by timeout or otherwise.
    SendFailed { timed_out: bool, detail: String },
    /// The server answered with this status.
    Status(u16),
    /// The body was read, or could not be (with the error's text).
    BodyRead(Result<String, String>),
    /// The body was parsed into the model's answer, or could not be.
    Parsed(Result<String, String>),
}

/// `next` is what `event` makes of `state`. A finished call stays as it is,
/// and an event that does not belong to the current step changes nothing.
pub open spec fn advance_rel(state: Exchange, event: ExchangeEvent, next: Exchange) -> bool {
    match state {
        Exchange::Done(_) => next == state,
        Exchange::AwaitingStatus => match event {
            ExchangeEvent::SendFailed { timed_out, detail } => next matches Exchange::Done(Err(e))
                && e.reason == (if timed_out {
                FailReason::Timeout
            } else {
                FailReason::ConnectError
            }) && e.detail == detail,
            ExchangeEvent::Status(status) => if is_success_status(status) {
                next == Exchange::AwaitingBody
            } else {
                next matches Exchange::Done(Err(e)) && e.reason == FailReason::BadStatus
                    && e.detail@ == "HTTP "@ + decimal(status as nat)
            },
            _ => next == state,
        },
        Exchange::AwaitingBody => match event {
            ExchangeEvent::BodyRead(Ok(text)) => next == Exchange::AwaitingParse(text),
            ExchangeEvent::BodyRead(Err(detail)) => next matches Exchange::Done(Err(e))
                && e.reason == FailReason::ConnectError && e.detail == detail,
            _ => next == state,
        },
        Exchange::AwaitingParse(_) => match event {
            ExchangeEvent::Parsed(Ok(answer)) => next == Exchange::Done(Ok(answer)),
            ExchangeEvent::Parsed(Err(detail)) => next matches Exchange::Done(Err(e)) && e.reason
                == FailReason::ParseError && e.detail == detail,
            _ => next == state,
        },
    }
}

/// Takes one step of a call: a send failure, a non-2xx status, an unread
/// body or an unparsable body ends it with the matching failure; a 2xx
/// status, a read body and a parsed answer move it on.
pub fn advance(state: Exchange, event: ExchangeEvent) -> (next: Exchange)
    ensures
        advance_rel(state, event, next),
{
    match state {
        Exchange::Done(r) => Exchange::Done(r),
        Exchange::AwaitingStatus => match event {
            ExchangeEvent::SendFailed { timed_out, detail } => Exchange::Done(
                Err(classify_send_error(timed_out, detail)),
            ),
            ExchangeEvent::Status(status) => match check_status(status) {
                Ok(()) => Exchange::AwaitingBody,
                Err(e) => Exchange::Done(Err(e)),
            },
            _ => Exchange::AwaitingStatus,
        },
        Exchange::AwaitingBody => match event {
            ExchangeEvent::BodyRead(Ok(text)) => Exchange::AwaitingParse(text),
            ExchangeEvent::BodyRead(Err(detail)) => Exchange::Done(Err(body_read_error(detail))),
            _ => Exchange::AwaitingBody,
        },
        Exchange::AwaitingParse(text) => match event {
            ExchangeEvent::Parsed(Ok(answer)) => Exchange::Done(Ok(answer)),
            ExchangeEvent::Parsed(Err(detail)) => Exchange::Done(Err(response_parse_error(detail))),
            _ => Exchange::AwaitingParse(text),
        },
    }
}

/// A finished call never changes again.
pub proof fn finished_exchange_stays(r: Result<String, LlmError>, event: ExchangeEvent, next: Exchange)
    requires
        advance_rel(Exchange::Done(r), event, next),
    ensures
        next == Exchange::Done(r),
{
}

/// A call that starts by sending its request ends, three steps on, with the
/// model's answer exactly when the server answered 2xx, the body was read,
/// and the body parsed into that answer; every other way ends otherwise.
pub proof fn answer_needs_every_step(
    e1: ExchangeEvent,
    e2: ExchangeEvent,
    e3: ExchangeEvent,
    s1: Exchange,
    s2: Exchange,
    s3: Exchange,
    answer: String,
)
    requires
        advance_rel(Exchange::AwaitingStatus, e1, s1),
        advance_rel(s1, e2, s2),
        advance_rel(s2, e3, s3),
    ensures
        s3 == Exchange::Done(Ok::<String, LlmError>(answer)) <==> {
            &&& e1 matches ExchangeEvent::Status(status) && is_success_status(status)
            &&& e2 matches ExchangeEvent::BodyRead(Ok(_))
            &&& e3 == ExchangeEvent::Parsed(Ok::<String, String>(answer))
        },
{
}

/// The prompt holds the system prompt, the instruction and the whole input,
/// in that order and each in full: it is exactly as long as the three plus
/// the two separators, starts with the system prompt, and ends with the
/// entire input.
pub proof fn prompt_holds_whole_input(system_prompt: Seq<char>, user_prompt: Seq<char>, input: Seq<char>)
    ensures
        ({
            let p = prompt_text(system_prompt, user_prompt, input);
            let user_at = system_prompt.len() as int + 15;
            &&& p.len() == system_prompt.len() + user_prompt.len() + input.len() + 35
            &&& p.subrange(0, system_prompt.len() as int) == system_prompt
            &&& p.subrange(user_at, user_at + user_prompt.len()) == user_prompt
            &&& p.subrange(p.len() - input.len(), p.len() as int) == input
        }),
{
    reveal_strlit("\n\nUser Prompt: ");
    reveal_strlit("\n\nOriginal Content:\n");
    let p = prompt_text(system_prompt, user_prompt, input);
    let user_at = system_prompt.len() as int + 15;
    assert(p.subrange(0, system_prompt.len() as int) =~= system_prompt);
    assert(p.subrange(user_at, user_at + user_prompt.len()) =~= user_prompt);
    assert(p.subrange(p.len() - input.len(), p.len() as int) =~= input);
}

/// A body that was read is what goes to parsing, untouched, and a parsed
/// answer is what the call ends with.
pub proof fn read_body_is_parsed_as_read(
    body: String,
    answer: String,
    s1: Exchange,
    s2: Exchange,
)
    requires
        advance_rel(Exchange::AwaitingBody, ExchangeEvent::BodyRead(Ok::<String, String>(body)), s1),
        advance_rel(s1, ExchangeEvent::Parsed(Ok::<String, String>(answer)), s2),
    ensures
        s1 == Exchange::AwaitingParse(body),
        s2 == Exchange::Done(Ok::<String, LlmError>(answer)),
{
}

} // verus!
