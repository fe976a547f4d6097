//! Pinning and unpinning messages.

use vstd::prelude::*;

use crate::json::{fields, flag, opt_i64, opt_one, put_opt, Json, JsonView};
use crate::routes::{Reply, RpcCall};

verus! {

/// Where a message goes: a recipient and/or a group.
#[derive(Clone, Debug, Default)]
pub struct RecipientEnvelope {
    pub recipient: Option<String>,
    pub group_id: Option<String>,
}

impl RecipientEnvelope {
    /// The members `m` with the addressing added: `recipient` and `group-id`, each as a
    /// one-element list, where given.
    pub open spec fn applied(self, m: Map<Seq<char>, JsonView>) -> Map<Seq<char>, JsonView> {
        put_opt(put_opt(m, "recipient"@, opt_one(self.recipient)), "group-id"@, opt_one(self.group_id))
    }

    /// Adds the addressing to the call parameters `params`, see `applied`.
    pub fn apply(&self, params: &mut Json)
        requires
            *old(params) is Object,
        ensures
            *final(params) is Object,
            final(params)@ == JsonView::Object(self.applied(fields(old(params)@))),
    {
        if let Some(r) = &self.recipient {
            params.set("recipient", Json::one_text(r.as_str()));
        }
        if let Some(g) = &self.group_id {
            params.set("group-id", Json::one_text(g.as_str()));
        }
    }
}

/// POST /v1/pins/{number}: pins the message of `target_author` sent at `target_timestamp`.
pub fn pin_message(
    number: &str,
    to: &RecipientEnvelope,
    target_author: &str,
    target_timestamp: i64,
    pin_duration: Option<i64>,
    story: Option<bool>,
) -> (call: RpcCall)
    ensures
        call.method@ == "sendPinMessage"@,
        call.reply == Reply::Success,
        call.params@ == JsonView::Object(
            put_opt(
                put_opt(
                    to.applied(
                        map![
                            "account"@ => JsonView::Str(number@),
                            "target-author"@ => JsonView::Str(target_author@),
                            "target-timestamp"@ => JsonView::Int(target_timestamp as int),
                        ],
                    ),
                    "pin-duration"@,
                    opt_i64(pin_duration),
                ),
                "story"@,
                flag(story),
            ),
        ),
{
    let mut params = Json::empty_object();
    params.set("account", Json::text(number));
    params.set("target-author", Json::text(target_author));
    params.set("target-timestamp", Json::Int(target_timestamp as i128));
    to.apply(&mut params);
    if let Some(d) = pin_duration {
        params.set("pin-duration", Json::Int(d as i128));
    }
    if let Some(true) = story {
        params.set("story", Json::Bool(true));
    }
    RpcCall::new("sendPinMessage", params, Reply::Success)
}

/// POST /v1/pins/{number}/unpin: unpins the message of `target_author` sent at
/// `target_timestamp`.
pub fn unpin_message(
    number: &str,
    to: &RecipientEnvelope,
    target_author: &str,
    target_timestamp: i64,
    story: Option<bool>,
) -> (call: RpcCall)
    ensures
        call.method@ == "sendUnpinMessage"@,
        call.reply == Reply::Success,
        call.params@ == JsonView::Object(
            put_opt(
                to.applied(
                    map![
                        "account"@ => JsonView::Str(number@),
                        "target-author"@ => JsonView::Str(target_author@),
                        "target-timestamp"@ => JsonView::Int(target_timestamp as int),
                    ],
                ),
                "story"@,
                flag(story),
            ),
        ),
{
    let mut params = Json::empty_object();
    params.set("account", Json::text(number));
    params.set("target-author", Json::text(target_author));
    params.set("target-timestamp", Json::Int(target_timestamp as i128));
    to.apply(&mut params);
    if let Some(true) = story {
        params.set("story", Json::Bool(true));
    }
    RpcCall::new("sendUnpinMessage", params, Reply::Success)
}

} // verus!
