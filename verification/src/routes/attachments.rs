//! Attachment endpoints.

use vstd::prelude::*;

use crate::json::{Json, JsonView};
use crate::routes::{Reply, RpcCall};

verus! {

/// GET /v1/attachments: calls `listAttachments`, which signal-cli does not offer.
pub fn list_attachments() -> (call: RpcCall)
    ensures
        call.method@ == "listAttachments"@,
        call.reply == Reply::Success,
        call.params@ == JsonView::Object(Map::empty()),
{
    let params = Json::empty_object();
    RpcCall::new("listAttachments", params, Reply::Success)
}

/// GET /v1/attachments/{attachment}: one attachment.
pub fn get_attachment(attachment: &str) -> (call: RpcCall)
    ensures
        call.method@ == "getAttachment"@,
        call.reply == Reply::Success,
        call.params@ == JsonView::Object(map!["id"@ => JsonView::Str(attachment@)]),
{
    let mut params = Json::empty_object();
    params.set("id", Json::text(attachment));
    RpcCall::new("getAttachment", params, Reply::Success)
}

/// DELETE /v1/attachments/{attachment}: calls `deleteAttachment`, which signal-cli does not offer.
pub fn delete_attachment(attachment: &str) -> (call: RpcCall)
    ensures
        call.method@ == "deleteAttachment"@,
        call.reply == Reply::NoContent,
        call.params@ == JsonView::Object(map!["id"@ => JsonView::Str(attachment@)]),
{
    let mut params = Json::empty_object();
    params.set("id", Json::text(attachment));
    RpcCall::new("deleteAttachment", params, Reply::NoContent)
}

} // verus!
