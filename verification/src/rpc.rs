//! The newline-delimited JSON-RPC 2.0 exchange with signal-cli: requests, and what an
//! incoming message is.

use vstd::prelude::*;

use crate::json::{fields, Json, JsonView};

verus! {

broadcast use vstd::string::group_string_axioms;

/// The model of the request that calls `method` with `params` under the id `id`.
pub open spec fn request_view(method: Seq<char>, params: JsonView, id: u64) -> JsonView {
    JsonView::Object(
        map![
            "jsonrpc"@ => JsonView::Str("2.0"@),
            "method"@ => JsonView::Str(method),
            "params"@ => params,
            "id"@ => JsonView::Int(id as int),
        ],
    )
}

/// A request carries the JSON-RPC version 2.0, the method, the parameters as given and
/// the id.
pub proof fn lemma_request_members(method: Seq<char>, params: JsonView, id: u64)
    ensures
        ({
            let f = fields(request_view(method, params, id));
            &&& f.contains_key("jsonrpc"@) && f["jsonrpc"@] == JsonView::Str("2.0"@)
            &&& f.contains_key("method"@) && f["method"@] == JsonView::Str(method)
            &&& f.contains_key("params"@) && f["params"@] == params
            &&& f.contains_key("id"@) && f["id"@] == JsonView::Int(id as int)
            &&& message_id(request_view(method, params, id)) == Some(id)
        }),
{
    reveal_strlit("jsonrpc");
    reveal_strlit("method");
    reveal_strlit("params");
    reveal_strlit("id");
    assert("jsonrpc"@.len() == 7 && "method"@.len() == 6 && "params"@.len() == 6);
    assert("id"@.len() == 2);
    assert("method"@[0] != "params"@[0]);
}

/// The request `{"jsonrpc": "2.0", "method": .., "params": .., "id": ..}`.
pub fn rpc_request(method: &str, params: Json, id: u64) -> (r: Json)
    ensures
        r@ == request_view(method@, params@, id),
{
    let mut r = Json::empty_object();
    r.set("jsonrpc", Json::text("2.0"));
    r.set("method", Json::text(method));
    r.set("params", params);
    r.set("id", Json::Int(id as i128));
    r
}

/// The id that an incoming message answers: its `id` member where that is an integer
/// that fits in 64 bits without sign.
pub open spec fn message_id(msg: JsonView) -> Option<u64> {
    if fields(msg).contains_key("id"@) {
        match fields(msg)["id"@] {
            JsonView::Int(n) => if 0 <= n <= u64::MAX {
                Some(n as u64)
            } else {
                None
            },
            _ => None,
        }
    } else {
        None
    }
}

/// The id of the request that an incoming message answers, if any; a message without
/// one is a notification, broadcast to the WebSocket clients.
pub fn response_id(msg: &Json) -> (r: Option<u64>)
    ensures
        r == message_id(msg@),
{
    match msg.get("id") {
        Some(Json::Int(n)) => if 0 <= *n && *n <= u64::MAX as i128 {
            Some(*n as u64)
        } else {
            None
        },
        _ => None,
    }
}

/// What a response says.
#[derive(Debug)]
pub enum RpcOutcome {
    /// The call succeeded with this result.
    Result(Json),
    /// The call failed with this message.
    Error(String),
    /// The call failed with this error, which has no message text; it is reported as its
    /// JSON text.
    ErrorValue(Json),
}

/// The `message` text of a JSON-RPC error, where it has one.
pub open spec fn error_message(err: JsonView) -> Option<Seq<char>> {
    if fields(err).contains_key("message"@) {
        match fields(err)["message"@] {
            JsonView::Str(s) => Some(s),
            _ => None,
        }
    } else {
        None
    }
}

/// What a response says: a response with an `error` member failed, with the error's
/// message or, lacking one, the error itself; any other succeeded, with its `result`
/// member, or `null` where it has none.
pub fn rpc_outcome(response: Json) -> (r: RpcOutcome)
    ensures
        fields(response@).contains_key("error"@) ==> (match error_message(
            fields(response@)["error"@],
        ) {
            Some(m) => r matches RpcOutcome::Error(e) && e@ == m,
            None => r matches RpcOutcome::ErrorValue(v) && v@ == fields(response@)["error"@],
        }),
        !fields(response@).contains_key("error"@) ==> (r matches RpcOutcome::Result(v) && v@ == (
        if fields(response@).contains_key("result"@) {
            fields(response@)["result"@]
        } else {
            JsonView::Null
        })),
{
    let mut resp = response;
    if let Json::Object(_) = &resp {
    } else {
        return RpcOutcome::Result(Json::Null);
    }
    match resp.remove_key("error") {
        Some(err) => {
            let message = match err.get("message") {
                Some(Json::Str(m)) => Some(m.clone()),
                _ => None,
            };
            match message {
                Some(m) => RpcOutcome::Error(m),
                None => RpcOutcome::ErrorValue(err),
            }
        },
        None => match resp.remove_key("result") {
            Some(v) => RpcOutcome::Result(v),
            None => RpcOutcome::Result(Json::Null),
        },
    }
}

} // verus!
