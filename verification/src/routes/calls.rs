//! Voice call endpoints.

use vstd::prelude::*;

use crate::json::{Json, JsonView};
use crate::routes::{Reply, RpcCall};

verus! {

/// GET /v1/calls/{number}: the active voice calls.
pub fn list_calls(number: &str) -> (call: RpcCall)
    ensures
        call.method@ == "listCalls"@,
        call.reply == Reply::Success,
        call.params@ == JsonView::Object(map!["account"@ => JsonView::Str(number@)]),
{
    let mut params = Json::empty_object();
    params.set("account", Json::text(number));
    RpcCall::new("listCalls", params, Reply::Success)
}

/// POST /v1/calls/{number}: starts a voice call to `recipient`.
pub fn start_call(number: &str, recipient: &str) -> (call: RpcCall)
    ensures
        call.method@ == "startCall"@,
        call.reply == Reply::Created,
        call.params@ == JsonView::Object(
            map![
                "account"@ => JsonView::Str(number@),
                "recipient"@ => JsonView::Str(recipient@),
            ],
        ),
{
    let mut params = Json::empty_object();
    params.set("account", Json::text(number));
    params.set("recipient", Json::text(recipient));
    RpcCall::new("startCall", params, Reply::Created)
}

/// POST /v1/calls/{number}/{call_id}/accept: accepts an incoming call.
pub fn accept_call(number: &str, call_id: i64) -> (call: RpcCall)
    ensures
        call.method@ == "acceptCall"@,
        call.reply == Reply::Success,
        call.params@ == JsonView::Object(
            map![
                "account"@ => JsonView::Str(number@),
                "call-id"@ => JsonView::Int(call_id as int),
            ],
        ),
{
    let mut params = Json::empty_object();
    params.set("account", Json::text(number));
    params.set("call-id", Json::Int(call_id as i128));
    RpcCall::new("acceptCall", params, Reply::Success)
}

/// POST /v1/calls/{number}/{call_id}/reject: rejects an incoming call.
pub fn reject_call(number: &str, call_id: i64) -> (call: RpcCall)
    ensures
        call.method@ == "rejectCall"@,
        call.reply == Reply::Success,
        call.params@ == JsonView::Object(
            map![
                "account"@ => JsonView::Str(number@),
                "call-id"@ => JsonView::Int(call_id as int),
            ],
        ),
{
    let mut params = Json::empty_object();
    params.set("account", Json::text(number));
    params.set("call-id", Json::Int(call_id as i128));
    RpcCall::new("rejectCall", params, Reply::Success)
}

/// POST /v1/calls/{number}/{call_id}/hangup: ends a call.
pub fn hangup_call(number: &str, call_id: i64) -> (call: RpcCall)
    ensures
        call.method@ == "hangupCall"@,
        call.reply == Reply::Success,
        call.params@ == JsonView::Object(
            map![
                "account"@ => JsonView::Str(number@),
                "call-id"@ => JsonView::Int(call_id as int),
            ],
        ),
{
    let mut params = Json::empty_object();
    params.set("account", Json::text(number));
    params.set("call-id", Json::Int(call_id as i128));
    RpcCall::new("hangupCall", params, Reply::Success)
}

} // verus!
