//! Stories.

use vstd::prelude::*;

use crate::json::{fields, flag, json_view, lemma_items_view, opt_str, put_opt, Json, JsonView};
use crate::routes::{is_call, is_refusal, refuses_with, Reply, RpcCall, Step};
use crate::spill::{
    body_decodes, finish_spill, plan_fits, spilled_view, SpillError, SpillPlan, ATTACHMENT_KEY,
};

verus! {

/// The model of the request of POST /v1/stories/{number} before its attachment is
/// written to a file.
pub open spec fn story_body(number: Seq<char>, attachment: Seq<char>) -> JsonView {
    JsonView::Object(
        map![
            "account"@ => JsonView::Str(number),
            ATTACHMENT_KEY@ => JsonView::Array(seq![JsonView::Str(attachment)]),
        ],
    )
}

/// The request of POST /v1/stories/{number} before its attachment is written to a file:
/// the account, and the attachment as a one-element list.
pub fn send_story_body(number: &str, attachment: &str) -> (body: Json)
    ensures
        body is Object,
        body@ == story_body(number@, attachment@),
{
    let mut body = Json::empty_object();
    body.set("account", Json::text(number));
    body.set(ATTACHMENT_KEY, Json::one_text(attachment));
    body
}

/// The members `m` with a non-empty attachment list replaced by its first entry.
pub open spec fn single_attachment(m: Map<Seq<char>, JsonView>) -> Map<Seq<char>, JsonView> {
    if m.contains_key(ATTACHMENT_KEY@) {
        match m[ATTACHMENT_KEY@] {
            JsonView::Array(items) => if items.len() > 0 {
                m.insert(ATTACHMENT_KEY@, items[0])
            } else {
                m
            },
            _ => m,
        }
    } else {
        m
    }
}

/// The parameters of `sendStory` for the request `body`: its members, with a one-entry
/// attachment list replaced by that entry, and the group and the no-replies flag where
/// given.
pub open spec fn story_params(body: JsonView, group_id: Option<String>, no_replies: Option<bool>) -> JsonView {
    JsonView::Object(
        put_opt(
            put_opt(single_attachment(fields(body)), "group-id"@, opt_str(group_id)),
            "no-replies"@,
            flag(no_replies),
        ),
    )
}

/// What a `sendStory` call carries: every member of the request but the attachment as it
/// came; the attachment, where the request lists one or more, as the first of them; the
/// group where one is given; and `no-replies: true` exactly when no replies are asked
/// for, whether the story goes to a group or to the account's own story.
pub proof fn lemma_story_params(body: JsonView, group_id: Option<String>, no_replies: Option<bool>)
    ensures
        ({
            let f = fields(story_params(body, group_id, no_replies));
            &&& no_replies == Some(true) ==> f.contains_key("no-replies"@) && f["no-replies"@]
                == JsonView::Bool(true)
            &&& no_replies != Some(true) ==> (f.contains_key("no-replies"@) == fields(
                body,
            ).contains_key("no-replies"@) && (f.contains_key("no-replies"@) ==> f["no-replies"@]
                == fields(body)["no-replies"@]))
            &&& group_id matches Some(g) ==> f.contains_key("group-id"@) && f["group-id"@]
                == JsonView::Str(g@)
            &&& group_id is None ==> (f.contains_key("group-id"@) == fields(body).contains_key(
                "group-id"@,
            ) && (f.contains_key("group-id"@) ==> f["group-id"@] == fields(body)["group-id"@]))
            &&& forall|k: Seq<char>|
                k != ATTACHMENT_KEY@ && k != "group-id"@ && k != "no-replies"@ ==> (
                #[trigger] f.contains_key(k) == fields(body).contains_key(k) && (f.contains_key(k)
                    ==> f[k] == fields(body)[k]))
            &&& f.contains_key(ATTACHMENT_KEY@) == fields(body).contains_key(ATTACHMENT_KEY@)
            &&& fields(body).contains_key(ATTACHMENT_KEY@) ==> (match fields(body)[ATTACHMENT_KEY@] {
                JsonView::Array(items) => if items.len() > 0 {
                    f[ATTACHMENT_KEY@] == items[0]
                } else {
                    f[ATTACHMENT_KEY@] == fields(body)[ATTACHMENT_KEY@]
                },
                other => f[ATTACHMENT_KEY@] == other,
            })
        }),
{
    reveal_strlit("no-replies");
    reveal_strlit("group-id");
    reveal_strlit("attachment");
    assert("no-replies"@.len() != "group-id"@.len());
    assert("attachment"@.len() != "group-id"@.len());
    assert("attachment"@[0] != "no-replies"@[0]);
}

/// POST /v1/stories/{number}: posts a story, to the account's own story or to that of the
/// group `group_id`. `body` is the request once its attachment was written to a file;
/// signal-cli takes one attachment here, not a list.
pub fn send_story(body: Json, group_id: Option<String>, no_replies: Option<bool>) -> (call: RpcCall)
    requires
        body is Object,
    ensures
        call.method@ == "sendStory"@,
        call.reply == Reply::Created,
        call.params@ == story_params(body@, group_id, no_replies),
{
    let mut params = body;
    let ghost m = fields(params@);
    let taken = params.remove_key(ATTACHMENT_KEY);
    match taken {
        Some(Json::Array(mut items)) => {
            proof {
                lemma_items_view(items@);
            }
            if items.len() > 0 {
                let first = items.remove(0);
                params.set(ATTACHMENT_KEY, first);
                assert(m.remove(ATTACHMENT_KEY@).insert(ATTACHMENT_KEY@, json_view(first))
                    =~= single_attachment(m));
            } else {
                let ghost v = json_view(Json::Array(items));
                params.set(ATTACHMENT_KEY, Json::Array(items));
                assert(m.remove(ATTACHMENT_KEY@).insert(ATTACHMENT_KEY@, v) =~= m);
            }
        },
        Some(other) => {
            let ghost v = json_view(other);
            params.set(ATTACHMENT_KEY, other);
            assert(m.remove(ATTACHMENT_KEY@).insert(ATTACHMENT_KEY@, v) =~= m);
        },
        None => {
            assert(m.remove(ATTACHMENT_KEY@) =~= m);
        },
    }
    if let Some(g) = group_id {
        params.set("group-id", Json::Str(g));
    }
    if let Some(true) = no_replies {
        params.set("no-replies", Json::Bool(true));
    }
    RpcCall::new("sendStory", params, Reply::Created)
}

/// POST /v1/stories/{number}, from the account, the attachment (a path or a data URI),
/// the plan that `plan_spill` made for `send_story_body(number, attachment)`, and the
/// paths its files were written to (or why they could not be): refused with 400 where
/// the data URI is not valid base64 or its file could not be written, and otherwise the
/// `sendStory` call of `send_story`.
pub fn send_story_step(
    number: &str,
    attachment: &str,
    plan: Result<SpillPlan, SpillError>,
    written: Result<Vec<String>, String>,
    group_id: Option<String>,
    no_replies: Option<bool>,
) -> (step: Step)
    requires
        plan_fits(story_body(number@, attachment@), plan),
        plan matches Ok(p) ==> (written matches Ok(paths) ==> paths.len() == p.files.len()),
    ensures
        !body_decodes(story_body(number@, attachment@)) ==> refuses_with(step, 400),
        plan is Ok ==> (written matches Err(m) ==> is_refusal(step, 400, m@)),
        plan matches Ok(p) ==> (written matches Ok(paths) ==> is_call(
            step,
            "sendStory"@,
            Reply::Created,
            story_params(
                spilled_view(story_body(number@, attachment@), p.files@, paths@),
                group_id,
                no_replies,
            ),
        )),
{
    let body = send_story_body(number, attachment);
    match finish_spill(body, plan, written) {
        Ok(out) => {
            assert(out@ is Object);
            assert(out is Object);
            Step::Call(send_story(out, group_id, no_replies))
        },
        Err(error) => Step::Refuse { status: 400, error },
    }
}

} // verus!
