//! Configuration endpoints.

use vstd::prelude::*;

use crate::json::{fields, Json, JsonView};
use crate::routes::{Reply, RpcCall};

verus! {

/// GET /v1/configuration: calls `getConfiguration`, which signal-cli's JSON-RPC does not offer.
pub fn get_global_config() -> (call: RpcCall)
    ensures
        call.method@ == "getConfiguration"@,
        call.reply == Reply::Success,
        call.params@ == JsonView::Object(Map::empty()),
{
    let params = Json::empty_object();
    RpcCall::new("getConfiguration", params, Reply::Success)
}

/// GET /v1/configuration/{number}/settings: calls `getAccountSettings`, which signal-cli does not offer.
pub fn get_account_config(number: &str) -> (call: RpcCall)
    ensures
        call.method@ == "getAccountSettings"@,
        call.reply == Reply::Success,
        call.params@ == JsonView::Object(map!["account"@ => JsonView::Str(number@)]),
{
    let mut params = Json::empty_object();
    params.set("account", Json::text(number));
    RpcCall::new("getAccountSettings", params, Reply::Success)
}

/// POST /v1/configuration: calls `setConfiguration`, which signal-cli's JSON-RPC does not
/// offer, with the request body as it came.
pub fn set_global_config(body: Json) -> (call: RpcCall)
    ensures
        call.method@ == "setConfiguration"@,
        call.reply == Reply::NoContent,
        call.params == body,
{
    RpcCall::new("setConfiguration", body, Reply::NoContent)
}

/// POST /v1/configuration/{number}/settings: calls `setAccountSettings`, which signal-cli
/// does not offer, with the request body and the account in it. The body is an object,
/// or `null`, which stands for an empty one.
pub fn set_account_config(number: &str, body: Json) -> (call: RpcCall)
    requires
        body is Object || body is Null,
    ensures
        call.method@ == "setAccountSettings"@,
        call.reply == Reply::NoContent,
        call.params@ == JsonView::Object(fields(body@).insert("account"@, JsonView::Str(number@))),
{
    let mut params = body;
    params.set("account", Json::text(number));
    RpcCall::new("setAccountSettings", params, Reply::NoContent)
}

} // verus!
