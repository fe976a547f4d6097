//! The REST endpoints, each as the JSON-RPC call to signal-cli that it stands for.

pub mod accounts;
pub mod attachments;
pub mod calls;
pub mod config;
pub mod contacts;
pub mod devices;
pub mod groups;
pub mod messages;
pub mod openapi;
pub mod payments;
pub mod pinned_messages;
pub mod polls;
pub mod profiles;
pub mod search;
pub mod stickers;
pub mod stories;
pub mod system;

use vstd::prelude::*;

use crate::json::{Json, JsonView};
use crate::spill::SpillError;
use crate::state::{bump, rpc_error_status, Metrics, RPC_TIMEOUT_ERROR};

verus! {

/// How a successful call is answered.
#[derive(Clone, Copy, Debug, PartialEq, Eq, Structural)]
pub enum Reply {
    /// 200 OK, with the call's result as the body.
    Success,
    /// 201 Created, with the call's result as the body.
    Created,
    /// 204 No Content.
    NoContent,
}

impl Reply {
    /// The HTTP status of the answer.
    pub fn status(&self) -> (s: u16)
        ensures
            s == match *self {
                Reply::Success => 200u16,
                Reply::Created => 201u16,
                Reply::NoContent => 204u16,
            },
    {
        match self {
            Reply::Success => 200,
            Reply::Created => 201,
            Reply::NoContent => 204,
        }
    }
}

/// A JSON-RPC call to make to signal-cli for a request, and how to answer it.
#[derive(Debug)]
pub struct RpcCall {
    pub method: String,
    pub params: Json,
    pub reply: Reply,
    /// Whether the call's success is counted as a sent message (only POST /v2/send).
    pub counts_send: bool,
}

impl RpcCall {
    pub fn new(method: &str, params: Json, reply: Reply) -> (c: RpcCall)
        ensures
            c.method@ == method@,
            c.params == params,
            c.reply == reply,
            !c.counts_send,
    {
        RpcCall { method: method.to_owned(), params, reply, counts_send: false }
    }
}

/// What a request comes to: refused before any call, with a status and the error text
/// that the body `{"error": ..}` carries, or the call to make.
#[derive(Debug)]
pub enum Step {
    Refuse { status: u16, error: String },
    Call(RpcCall),
}

/// Whether `step` is the call of `method` with these parameters, answered as `reply`.
pub open spec fn is_call(step: Step, method: Seq<char>, reply: Reply, params: JsonView) -> bool {
    match step {
        Step::Call(c) => c.method@ == method && c.reply == reply && c.params@ == params,
        Step::Refuse { .. } => false,
    }
}

/// Whether `step` refuses the request with `status`.
pub open spec fn refuses_with(step: Step, status: u16) -> bool {
    match step {
        Step::Refuse { status: s, .. } => s == status,
        Step::Call(_) => false,
    }
}

/// Whether `step` refuses the request with `status` and the error text `error`.
pub open spec fn is_refusal(step: Step, status: u16, error: Seq<char>) -> bool {
    match step {
        Step::Refuse { status: s, error: e } => s == status && e@ == error,
        Step::Call(_) => false,
    }
}

/// What became of a base64 avatar that came with a request.
#[derive(Debug)]
pub enum AvatarOutcome {
    /// No avatar came with the request.
    NotGiven,
    /// The avatar is not valid base64.
    Invalid(SpillError),
    /// The avatar was written to the file at this path.
    Written(String),
    /// Writing the avatar to a file failed, for this reason.
    WriteFailed(String),
}

/// The avatar path that an outcome hands on; only a written avatar has one.
pub open spec fn avatar_path_of(avatar: AvatarOutcome) -> Option<String> {
    match avatar {
        AvatarOutcome::Written(p) => Some(p),
        _ => None,
    }
}

/// The answer to a request: a status, and a JSON body unless the status is 204.
#[derive(Debug)]
pub struct Answer {
    pub status: u16,
    pub body: Option<Json>,
}

/// The body `{"error": e}`.
pub open spec fn error_body(e: Seq<char>) -> JsonView {
    JsonView::Object(map!["error"@ => JsonView::Str(e)])
}

/// The answer `{"error": error}` with the given status.
pub fn error_answer(status: u16, error: &str) -> (a: Answer)
    ensures
        a.status == status,
        a.body is Some,
        a.body->0@ == error_body(error@),
{
    let mut body = Json::empty_object();
    body.set("error", Json::text(error));
    Answer { status, body: Some(body) }
}

/// The answer to a request that was refused before any call.
pub fn refusal_answer(step: &Step) -> (a: Option<Answer>)
    ensures
        step matches Step::Refuse { status, error } ==> ({
            &&& a matches Some(ans)
            &&& a->0.status == status
            &&& a->0.body matches Some(b)
            &&& a->0.body->0@ == error_body(error@)
        }),
        step is Call ==> a is None,
{
    match step {
        Step::Refuse { status, error } => Some(error_answer(*status, error.as_str())),
        Step::Call(_) => None,
    }
}

/// The metrics once a call is under way: the call is counted.
pub open spec fn started(m: Metrics) -> Metrics {
    Metrics { rpc_calls: bump(m.rpc_calls), ..m }
}

/// The metrics once a call's outcome is in: a failed call is counted as an error, and a
/// succeeded call that sends a message counts the message.
pub open spec fn settled(m: Metrics, failed: bool, counts_send: bool) -> Metrics {
    Metrics {
        messages_sent: if !failed && counts_send {
            bump(m.messages_sent)
        } else {
            m.messages_sent
        },
        rpc_errors: if failed {
            bump(m.rpc_errors)
        } else {
            m.rpc_errors
        },
        ..m
    }
}

/// Counts a call as it is made, before its outcome is known.
pub fn start_call(metrics: &mut Metrics)
    ensures
        *final(metrics) == started(*old(metrics)),
{
    metrics.inc_rpc();
}

/// Counts the outcome of a call that `start_call` counted and answers the request from
/// its result: a success with the status of `reply` and the result as the body (no body
/// for 204), a failure with `{"error": e}` and 504 for a call that timed out, 400 for any
/// other error. `counts_send` marks a call that sends a message (see
/// `RpcCall::counts_send`).
pub fn finish_call(
    metrics: &mut Metrics,
    reply: Reply,
    counts_send: bool,
    result: Result<Json, String>,
) -> (a: Answer)
    ensures
        *final(metrics) == settled(*old(metrics), result is Err, counts_send),
        result matches Ok(v) ==> a.status == (match reply {
            Reply::Success => 200u16,
            Reply::Created => 201u16,
            Reply::NoContent => 204u16,
        }),
        result matches Ok(v) ==> (reply == Reply::NoContent ==> a.body is None),
        result matches Ok(v) ==> (reply != Reply::NoContent ==> a.body == Some(v)),
        result matches Err(e) ==> a.status == (if e@ == RPC_TIMEOUT_ERROR@ {
            504u16
        } else {
            400u16
        }),
        result matches Err(e) ==> a.body is Some && a.body->0@ == error_body(e@),
{
    match result {
        Ok(v) => {
            if counts_send {
                metrics.inc_sent();
            }
            let status = reply.status();
            match reply {
                Reply::NoContent => Answer { status, body: None },
                _ => Answer { status, body: Some(v) },
            }
        },
        Err(e) => {
            metrics.inc_rpc_error();
            error_answer(rpc_error_status(e.as_str()), e.as_str())
        },
    }
}

/// One call from start to finish counts the call once, an error exactly when it failed,
/// and a sent message exactly when it succeeded and sends a message.
pub proof fn lemma_call_counting(m: Metrics, failed: bool, counts_send: bool)
    ensures
        settled(started(m), failed, counts_send).rpc_calls == bump(m.rpc_calls),
        settled(started(m), failed, counts_send).rpc_errors == (if failed {
            bump(m.rpc_errors)
        } else {
            m.rpc_errors
        }),
        settled(started(m), failed, counts_send).messages_sent == (if !failed && counts_send {
            bump(m.messages_sent)
        } else {
            m.messages_sent
        }),
        settled(started(m), failed, counts_send).messages_received == m.messages_received,
        settled(started(m), failed, counts_send).ws_clients == m.ws_clients,
{
}

} // verus!
