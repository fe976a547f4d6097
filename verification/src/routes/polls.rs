//! Polls: creating, voting, closing.

use vstd::prelude::*;

use crate::json::{fields, flag, flag_off, opt_one, put_opt, str_list_view, Json, JsonView};
use crate::routes::{Reply, RpcCall};

verus! {

/// Where a poll message goes: recipients, a group, usernames, or the account itself.
#[derive(Clone, Debug, Default)]
pub struct RecipientEnvelope {
    pub recipient: Option<String>,
    pub recipients: Option<Vec<String>>,
    pub group_id: Option<String>,
    pub username: Option<Vec<String>>,
    pub note_to_self: Option<bool>,
    pub notify_self: Option<bool>,
}

/// The model of an optional list of strings.
pub open spec fn opt_list(o: Option<Vec<String>>) -> Option<JsonView> {
    match o {
        Some(v) => Some(str_list_view(v@)),
        None => None,
    }
}

fn copy_texts(v: &Vec<String>) -> (r: Vec<String>)
    ensures
        r@ == v@,
{
    let mut out: Vec<String> = Vec::new();
    let mut i: usize = 0;
    while i < v.len()
        invariant
            i <= v.len(),
            out@ == v@.take(i as int),
        decreases v.len() - i,
    {
        out.push(v[i].clone());
        assert(out@ =~= v@.take(i + 1));
        i = i + 1;
    }
    assert(v@.take(v.len() as int) =~= v@);
    out
}

impl RecipientEnvelope {
    /// All recipients: the list `recipients`, then `recipient`.
    pub open spec fn all_recipients(self) -> Seq<String> {
        (match self.recipients {
            Some(v) => v@,
            None => Seq::empty(),
        }) + (match self.recipient {
            Some(r) => seq![r],
            None => Seq::empty(),
        })
    }

    /// The members `m` with the addressing added: `recipient` lists all recipients where
    /// there are any, `group-id` is a one-element list, `username` the list of usernames,
    /// and `note-to-self` and `notify-self` are set where they are asked for.
    pub open spec fn applied(self, m: Map<Seq<char>, JsonView>) -> Map<Seq<char>, JsonView> {
        let recipients = if self.all_recipients().len() > 0 {
            Some(str_list_view(self.all_recipients()))
        } else {
            None
        };
        put_opt(
            put_opt(
                put_opt(
                    put_opt(put_opt(m, "recipient"@, recipients), "group-id"@, opt_one(self.group_id)),
                    "username"@,
                    opt_list(self.username),
                ),
                "note-to-self"@,
                flag(self.note_to_self),
            ),
            "notify-self"@,
            flag(self.notify_self),
        )
    }

    /// Adds the addressing to the call parameters `params`, see `applied`.
    pub fn apply(&self, params: &mut Json)
        requires
            *old(params) is Object,
        ensures
            *final(params) is Object,
            final(params)@ == JsonView::Object(self.applied(fields(old(params)@))),
    {
        let mut recipients: Vec<String> = match &self.recipients {
            Some(list) => copy_texts(list),
            None => Vec::new(),
        };
        if let Some(r) = &self.recipient {
            recipients.push(r.clone());
        }
        assert(recipients@ =~= self.all_recipients());
        if recipients.len() > 0 {
            params.set("recipient", Json::text_list(&recipients));
        }
        if let Some(g) = &self.group_id {
            params.set("group-id", Json::one_text(g.as_str()));
        }
        if let Some(u) = &self.username {
            params.set("username", Json::text_list(u));
        }
        if let Some(true) = self.note_to_self {
            params.set("note-to-self", Json::Bool(true));
        }
        if let Some(true) = self.notify_self {
            params.set("notify-self", Json::Bool(true));
        }
    }
}

/// Who a poll message is addressed to: the `recipient` member lists every entry of
/// `recipients`, in order, followed by `recipient` where one is given; where neither
/// names anybody, the member is left as it was. A list of recipients is addressed
/// whether or not a single recipient is given too.
pub proof fn lemma_poll_recipients(env: RecipientEnvelope, m: Map<Seq<char>, JsonView>)
    ensures
        ({
            let out = env.applied(m);
            let listed: Seq<String> = match env.recipients {
                Some(v) => v@,
                None => Seq::empty(),
            };
            let n = listed.len() + (if env.recipient is Some {
                1int
            } else {
                0int
            });
            &&& n > 0 ==> {
                &&& out.contains_key("recipient"@)
                &&& out["recipient"@] is Array
                &&& out["recipient"@]->Array_0.len() == n
                &&& forall|i: int|
                    0 <= i < listed.len() ==> #[trigger] out["recipient"@]->Array_0[i]
                        == JsonView::Str(listed[i]@)
                &&& env.recipient matches Some(r) ==> out["recipient"@]->Array_0[n - 1]
                    == JsonView::Str(r@)
            }
            &&& n == 0 ==> (out.contains_key("recipient"@) == m.contains_key("recipient"@) && (
            out.contains_key("recipient"@) ==> out["recipient"@] == m["recipient"@]))
        }),
{
    reveal_strlit("recipient");
    reveal_strlit("group-id");
    reveal_strlit("username");
    reveal_strlit("note-to-self");
    reveal_strlit("notify-self");
    assert("recipient"@.len() == 9);
    assert("group-id"@.len() == 8);
    assert("username"@.len() == 8);
    assert("note-to-self"@.len() == 12);
    assert("notify-self"@.len() == 11);
    let listed: Seq<String> = match env.recipients {
        Some(v) => v@,
        None => Seq::empty(),
    };
    let all = env.all_recipients();
    assert forall|i: int| 0 <= i < listed.len() implies #[trigger] all[i] == listed[i] by {}
    if let Some(r) = env.recipient {
        assert(all[all.len() - 1] == r);
    }
}

/// POST /v1/polls/{number}: sends a poll asking `question` with the answers `options`;
/// `allow_multiple` set to false allows one answer only.
pub fn create_poll(
    number: &str,
    to: &RecipientEnvelope,
    question: &str,
    options: &Vec<String>,
    allow_multiple: Option<bool>,
) -> (call: RpcCall)
    ensures
        call.method@ == "sendPollCreate"@,
        call.reply == Reply::Created,
        call.params@ == JsonView::Object(
            put_opt(
                to.applied(
                    map![
                        "account"@ => JsonView::Str(number@),
                        "question"@ => JsonView::Str(question@),
                        "option"@ => str_list_view(options@),
                    ],
                ),
                "no-multi"@,
                flag_off(allow_multiple),
            ),
        ),
{
    let mut params = Json::empty_object();
    params.set("account", Json::text(number));
    params.set("question", Json::text(question));
    params.set("option", Json::text_list(options));
    to.apply(&mut params);
    if let Some(false) = allow_multiple {
        params.set("no-multi", Json::Bool(true));
    }
    RpcCall::new("sendPollCreate", params, Reply::Created)
}

/// POST /v1/polls/{number}/vote: votes for answer `option` of the poll that `poll_author`
/// sent at `poll_timestamp`.
pub fn vote_poll(
    number: &str,
    to: &RecipientEnvelope,
    poll_author: &str,
    poll_timestamp: i64,
    option: i32,
) -> (call: RpcCall)
    ensures
        call.method@ == "sendPollVote"@,
        call.reply == Reply::Success,
        call.params@ == JsonView::Object(
            to.applied(
                map![
                    "account"@ => JsonView::Str(number@),
                    "poll-author"@ => JsonView::Str(poll_author@),
                    "poll-timestamp"@ => JsonView::Int(poll_timestamp as int),
                    "option"@ => JsonView::Int(option as int),
                ],
            ),
        ),
{
    let mut params = Json::empty_object();
    params.set("account", Json::text(number));
    params.set("poll-author", Json::text(poll_author));
    params.set("poll-timestamp", Json::Int(poll_timestamp as i128));
    params.set("option", Json::Int(option as i128));
    to.apply(&mut params);
    RpcCall::new("sendPollVote", params, Reply::Success)
}

/// DELETE /v1/polls/{number}: closes the poll this account sent at `poll_timestamp`.
pub fn close_poll(number: &str, to: &RecipientEnvelope, poll_timestamp: i64) -> (call: RpcCall)
    ensures
        call.method@ == "sendPollTerminate"@,
        call.reply == Reply::Success,
        call.params@ == JsonView::Object(
            to.applied(
                map![
                    "account"@ => JsonView::Str(number@),
                    "poll-timestamp"@ => JsonView::Int(poll_timestamp as int),
                ],
            ),
        ),
{
    let mut params = Json::empty_object();
    params.set("account", Json::text(number));
    params.set("poll-timestamp", Json::Int(poll_timestamp as i128));
    to.apply(&mut params);
    RpcCall::new("sendPollTerminate", params, Reply::Success)
}

} // verus!
