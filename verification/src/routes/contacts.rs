//! Contact endpoints.

use vstd::prelude::*;

use crate::json::{flag, opt_one, opt_str, opt_u64, put_opt, Json, JsonView};
use crate::routes::{Reply, RpcCall};

verus! {

/// GET /v1/contacts/{number}: the contacts of the account.
pub fn list_contacts(number: &str) -> (call: RpcCall)
    ensures
        call.method@ == "listContacts"@,
        call.reply == Reply::Success,
        call.params@ == JsonView::Object(map!["account"@ => JsonView::Str(number@)]),
{
    let mut params = Json::empty_object();
    params.set("account", Json::text(number));
    RpcCall::new("listContacts", params, Reply::Success)
}

/// GET /v1/contacts/{number}/{recipient}: one contact.
pub fn get_contact(number: &str, recipient: &str) -> (call: RpcCall)
    ensures
        call.method@ == "listContacts"@,
        call.reply == Reply::Success,
        call.params@ == JsonView::Object(
            map![
                "account"@ => JsonView::Str(number@),
                "recipient"@ => JsonView::Array(seq![JsonView::Str(recipient@)]),
            ],
        ),
{
    let mut params = Json::empty_object();
    params.set("account", Json::text(number));
    params.set("recipient", Json::one_text(recipient));
    RpcCall::new("listContacts", params, Reply::Success)
}

/// PUT /v1/contacts/{number}: updates a contact's name and disappearing-message timer.
pub fn update_contact(
    number: &str,
    name: Option<String>,
    expiration: Option<u64>,
    recipient: Option<String>,
) -> (call: RpcCall)
    ensures
        call.method@ == "updateContact"@,
        call.reply == Reply::Success,
        call.params@ == JsonView::Object(
            put_opt(
                put_opt(
                    put_opt(
                        map!["account"@ => JsonView::Str(number@)],
                        "name"@,
                        opt_str(name),
                    ),
                    "expiration"@,
                    opt_u64(expiration),
                ),
                "recipient"@,
                opt_one(recipient),
            ),
        ),
{
    let mut params = Json::empty_object();
    params.set("account", Json::text(number));
    if let Some(v) = name {
        params.set("name", Json::Str(v));
    }
    if let Some(v) = expiration {
        params.set("expiration", Json::Int(v as i128));
    }
    if let Some(v) = recipient {
        params.set("recipient", Json::one_text(v.as_str()));
    }
    RpcCall::new("updateContact", params, Reply::Success)
}

/// DELETE /v1/contacts/{number}/{recipient}: removes a contact; `hide` keeps its data
/// hidden, `forget` wipes its identity and session data too.
pub fn remove_contact(
    number: &str,
    recipient: &str,
    hide: Option<bool>,
    forget: Option<bool>,
) -> (call: RpcCall)
    ensures
        call.method@ == "removeContact"@,
        call.reply == Reply::Success,
        call.params@ == JsonView::Object(
            put_opt(
                put_opt(
                    map![
                        "account"@ => JsonView::Str(number@),
                        "recipient"@ => JsonView::Str(recipient@),
                    ],
                    "hide"@,
                    flag(hide),
                ),
                "forget"@,
                flag(forget),
            ),
        ),
{
    let mut params = Json::empty_object();
    params.set("account", Json::text(number));
    params.set("recipient", Json::text(recipient));
    if let Some(true) = hide {
        params.set("hide", Json::Bool(true));
    }
    if let Some(true) = forget {
        params.set("forget", Json::Bool(true));
    }
    RpcCall::new("removeContact", params, Reply::Success)
}

/// POST /v1/contacts/{number}/sync: sends the contacts to the linked devices.
pub fn sync_contacts(number: &str) -> (call: RpcCall)
    ensures
        call.method@ == "sendContacts"@,
        call.reply == Reply::Success,
        call.params@ == JsonView::Object(map!["account"@ => JsonView::Str(number@)]),
{
    let mut params = Json::empty_object();
    params.set("account", Json::text(number));
    RpcCall::new("sendContacts", params, Reply::Success)
}

/// GET /v1/contacts/{number}/{recipient}/avatar: a contact's avatar, base64 encoded.
pub fn get_avatar(number: &str, recipient: &str) -> (call: RpcCall)
    ensures
        call.method@ == "getAvatar"@,
        call.reply == Reply::Success,
        call.params@ == JsonView::Object(
            map!["account"@ => JsonView::Str(number@), "contact"@ => JsonView::Str(recipient@)],
        ),
{
    let mut params = Json::empty_object();
    params.set("account", Json::text(number));
    params.set("contact", Json::text(recipient));
    RpcCall::new("getAvatar", params, Reply::Success)
}

/// POST /v1/contacts/{number}/{recipient}/block: blocks a contact.
pub fn block_contact(number: &str, recipient: &str) -> (call: RpcCall)
    ensures
        call.method@ == "block"@,
        call.reply == Reply::Success,
        call.params@ == JsonView::Object(
            map![
                "account"@ => JsonView::Str(number@),
                "recipient"@ => JsonView::Array(seq![JsonView::Str(recipient@)]),
            ],
        ),
{
    let mut params = Json::empty_object();
    params.set("account", Json::text(number));
    params.set("recipient", Json::one_text(recipient));
    RpcCall::new("block", params, Reply::Success)
}

/// DELETE /v1/contacts/{number}/{recipient}/block: unblocks a contact.
pub fn unblock_contact(number: &str, recipient: &str) -> (call: RpcCall)
    ensures
        call.method@ == "unblock"@,
        call.reply == Reply::Success,
        call.params@ == JsonView::Object(
            map![
                "account"@ => JsonView::Str(number@),
                "recipient"@ => JsonView::Array(seq![JsonView::Str(recipient@)]),
            ],
        ),
{
    let mut params = Json::empty_object();
    params.set("account", Json::text(number));
    params.set("recipient", Json::one_text(recipient));
    RpcCall::new("unblock", params, Reply::Success)
}

/// The answer to a message request.
#[derive(Clone, Copy, Debug, PartialEq, Eq, Structural)]
pub enum MessageRequestResponseType {
    Accept,
    Delete,
}

/// The name that signal-cli gives the answer.
pub open spec fn response_type_name(t: MessageRequestResponseType) -> Seq<char> {
    match t {
        MessageRequestResponseType::Accept => "accept"@,
        MessageRequestResponseType::Delete => "delete"@,
    }
}

/// PUT /v1/contacts/{number}/message-requests: accepts or deletes a pending message request
/// from a contact or a group.
pub fn message_request_response(
    number: &str,
    recipient: Option<String>,
    group_id: Option<String>,
    response_type: MessageRequestResponseType,
) -> (call: RpcCall)
    ensures
        call.method@ == "sendMessageRequestResponse"@,
        call.reply == Reply::NoContent,
        call.params@ == JsonView::Object(
            put_opt(
                put_opt(
                    map![
                        "account"@ => JsonView::Str(number@),
                        "type"@ => JsonView::Str(response_type_name(response_type)),
                    ],
                    "recipient"@,
                    opt_one(recipient),
                ),
                "group-id"@,
                opt_one(group_id),
            ),
        ),
{
    let mut params = Json::empty_object();
    params.set("account", Json::text(number));
    let name = match response_type {
        MessageRequestResponseType::Accept => "accept",
        MessageRequestResponseType::Delete => "delete",
    };
    params.set("type", Json::text(name));
    if let Some(r) = recipient {
        params.set("recipient", Json::one_text(r.as_str()));
    }
    if let Some(g) = group_id {
        params.set("group-id", Json::one_text(g.as_str()));
    }
    RpcCall::new("sendMessageRequestResponse", params, Reply::NoContent)
}

} // verus!
