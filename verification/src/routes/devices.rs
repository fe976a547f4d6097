//! Device linking endpoints.

use vstd::prelude::*;

use crate::json::{fields, opt_str, put_opt, Json, JsonView};
use crate::routes::{Reply, RpcCall};

verus! {

/// GET /v1/qrcodelink: starts linking a new device, optionally with its name.
pub fn qrcodelink(device_name: Option<String>) -> (call: RpcCall)
    ensures
        call.method@ == "startLink"@,
        call.reply == Reply::Success,
        call.params@ == JsonView::Object(
            put_opt(
                Map::empty(),
                "deviceName"@,
                opt_str(device_name),
            ),
        ),
{
    let mut params = Json::empty_object();
    if let Some(v) = device_name {
        params.set("deviceName", Json::Str(v));
    }
    RpcCall::new("startLink", params, Reply::Success)
}

/// GET /v1/qrcodelink/raw: the same call as `qrcodelink`; the answer is the bare link URI.
pub fn qrcodelink_raw(device_name: Option<String>) -> (call: RpcCall)
    ensures
        call.method@ == "startLink"@,
        call.reply == Reply::Success,
        call.params@ == JsonView::Object(
            put_opt(
                Map::empty(),
                "deviceName"@,
                opt_str(device_name),
            ),
        ),
{
    let mut params = Json::empty_object();
    if let Some(v) = device_name {
        params.set("deviceName", Json::Str(v));
    }
    RpcCall::new("startLink", params, Reply::Success)
}

/// POST /v1/devices/{number}: links this instance to the account of the link URI `uri`.
pub fn link_device(number: &str, uri: &str, device_name: Option<String>) -> (call: RpcCall)
    ensures
        call.method@ == "finishLink"@,
        call.reply == Reply::NoContent,
        call.params@ == JsonView::Object(
            put_opt(
                map!["account"@ => JsonView::Str(number@), "uri"@ => JsonView::Str(uri@)],
                "deviceName"@,
                opt_str(device_name),
            ),
        ),
{
    let mut params = Json::empty_object();
    params.set("account", Json::text(number));
    params.set("uri", Json::text(uri));
    if let Some(v) = device_name {
        params.set("deviceName", Json::Str(v));
    }
    RpcCall::new("finishLink", params, Reply::NoContent)
}

/// GET /v1/devices/{number}: the linked devices.
pub fn list_devices(number: &str) -> (call: RpcCall)
    ensures
        call.method@ == "listDevices"@,
        call.reply == Reply::Success,
        call.params@ == JsonView::Object(map!["account"@ => JsonView::Str(number@)]),
{
    let mut params = Json::empty_object();
    params.set("account", Json::text(number));
    RpcCall::new("listDevices", params, Reply::Success)
}

/// DELETE /v1/devices/{number}/{device_id}: unlinks a device.
pub fn remove_device(number: &str, device_id: i64) -> (call: RpcCall)
    ensures
        call.method@ == "removeDevice"@,
        call.reply == Reply::NoContent,
        call.params@ == JsonView::Object(
            map![
                "account"@ => JsonView::Str(number@),
                "deviceId"@ => JsonView::Int(device_id as int),
            ],
        ),
{
    let mut params = Json::empty_object();
    params.set("account", Json::text(number));
    params.set("deviceId", Json::Int(device_id as i128));
    RpcCall::new("removeDevice", params, Reply::NoContent)
}

/// DELETE /v1/devices/{number}/local-data: deletes the account's local data.
pub fn delete_local_data(number: &str) -> (call: RpcCall)
    ensures
        call.method@ == "deleteLocalAccountData"@,
        call.reply == Reply::NoContent,
        call.params@ == JsonView::Object(map!["account"@ => JsonView::Str(number@)]),
{
    let mut params = Json::empty_object();
    params.set("account", Json::text(number));
    RpcCall::new("deleteLocalAccountData", params, Reply::NoContent)
}

/// PUT /v1/devices/{number}/{device_id}: renames a linked device.
pub fn update_device(number: &str, device_id: i64, device_name: &str) -> (call: RpcCall)
    ensures
        call.method@ == "updateDevice"@,
        call.reply == Reply::NoContent,
        call.params@ == JsonView::Object(
            map![
                "account"@ => JsonView::Str(number@),
                "deviceId"@ => JsonView::Int(device_id as int),
                "deviceName"@ => JsonView::Str(device_name@),
            ],
        ),
{
    let mut params = Json::empty_object();
    params.set("account", Json::text(number));
    params.set("deviceId", Json::Int(device_id as i128));
    params.set("deviceName", Json::text(device_name));
    RpcCall::new("updateDevice", params, Reply::NoContent)
}

/// POST /v1/devices/{number}/add: from the primary device, approves linking the device of `uri`.
pub fn add_device(number: &str, uri: &str) -> (call: RpcCall)
    ensures
        call.method@ == "addDevice"@,
        call.reply == Reply::NoContent,
        call.params@ == JsonView::Object(
            map!["account"@ => JsonView::Str(number@), "uri"@ => JsonView::Str(uri@)],
        ),
{
    let mut params = Json::empty_object();
    params.set("account", Json::text(number));
    params.set("uri", Json::text(uri));
    RpcCall::new("addDevice", params, Reply::NoContent)
}

/// The link URI in a result of `startLink`: the result itself where it is a string, else its
/// `deviceLinkUri` member where that is a string, else nothing.
pub open spec fn link_uri(result: JsonView) -> Seq<char> {
    match result {
        JsonView::Str(s) => s,
        _ => {
            if fields(result).contains_key("deviceLinkUri"@) {
                match fields(result)["deviceLinkUri"@] {
                    JsonView::Str(s) => s,
                    _ => Seq::empty(),
                }
            } else {
                Seq::empty()
            }
        },
    }
}

/// The plain-text answer of GET /v1/qrcodelink/raw, see `link_uri`.
pub fn raw_link_uri(result: &Json) -> (uri: String)
    ensures
        uri@ == link_uri(result@),
{
    if let Some(s) = result.as_text() {
        return s.clone();
    }
    match result.get("deviceLinkUri") {
        Some(v) => match v.as_text() {
            Some(s) => s.clone(),
            None => String::new(),
        },
        None => String::new(),
    }
}

} // verus!
