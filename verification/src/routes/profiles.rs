//! Profile updates.

use vstd::prelude::*;

use crate::json::{fields, opt_str, put_opt, Json, JsonView};
use crate::routes::{
    avatar_path_of, is_call, is_refusal, refuses_with, AvatarOutcome, Reply, RpcCall, Step,
};

verus! {

/// The parameters of `updateProfile`: the account, the name as `given-name`, the about
/// text and the avatar's file, each of the last three where given.
pub open spec fn profile_params(
    number: Seq<char>,
    name: Option<String>,
    about: Option<String>,
    avatar_path: Option<String>,
) -> JsonView {
    JsonView::Object(
        put_opt(
            put_opt(
                put_opt(map!["account"@ => JsonView::Str(number)], "given-name"@, opt_str(name)),
                "about"@,
                opt_str(about),
            ),
            "avatar"@,
            opt_str(avatar_path),
        ),
    )
}

/// What an `updateProfile` call carries: the account, and each of the name (as
/// `given-name`), the about text and the avatar file exactly when it is given, with its
/// value.
pub proof fn lemma_profile_params(
    number: Seq<char>,
    name: Option<String>,
    about: Option<String>,
    avatar_path: Option<String>,
)
    ensures
        ({
            let f = fields(profile_params(number, name, about, avatar_path));
            &&& f.contains_key("account"@) && f["account"@] == JsonView::Str(number)
            &&& f.contains_key("given-name"@) == name is Some
            &&& name matches Some(n) ==> f["given-name"@] == JsonView::Str(n@)
            &&& f.contains_key("about"@) == about is Some
            &&& about matches Some(a) ==> f["about"@] == JsonView::Str(a@)
            &&& f.contains_key("avatar"@) == avatar_path is Some
            &&& avatar_path matches Some(a) ==> f["avatar"@] == JsonView::Str(a@)
            &&& !f.contains_key("name"@)
        }),
{
    reveal_strlit("account");
    reveal_strlit("given-name");
    reveal_strlit("about");
    reveal_strlit("avatar");
    reveal_strlit("name");
    assert("account"@.len() == 7 && "given-name"@.len() == 10 && "about"@.len() == 5);
    assert("avatar"@.len() == 6 && "name"@.len() == 4);
}

/// PUT /v1/profiles/{number}: updates the profile; `avatar_path` is the file that the
/// avatar was written to.
pub fn update_profile(
    number: &str,
    name: Option<String>,
    about: Option<String>,
    avatar_path: Option<String>,
) -> (call: RpcCall)
    ensures
        call.method@ == "updateProfile"@,
        call.reply == Reply::Success,
        call.params@ == profile_params(number@, name, about, avatar_path),
{
    let mut params = Json::empty_object();
    params.set("account", Json::text(number));
    if let Some(v) = name {
        params.set("given-name", Json::Str(v));
    }
    if let Some(v) = about {
        params.set("about", Json::Str(v));
    }
    if let Some(v) = avatar_path {
        params.set("avatar", Json::Str(v));
    }
    RpcCall::new("updateProfile", params, Reply::Success)
}

/// PUT /v1/profiles/{number}, given what became of the avatar: an avatar that is not
/// valid base64, or that could not be written to a file, refuses the request with 400
/// before any call; otherwise the `updateProfile` call of `update_profile`, with the
/// avatar's file where one was written.
pub fn update_profile_step(
    number: &str,
    name: Option<String>,
    about: Option<String>,
    avatar: AvatarOutcome,
) -> (step: Step)
    ensures
        avatar is Invalid ==> refuses_with(step, 400),
        avatar matches AvatarOutcome::WriteFailed(m) ==> is_refusal(step, 400, m@),
        (avatar is NotGiven || avatar is Written) ==> is_call(
            step,
            "updateProfile"@,
            Reply::Success,
            profile_params(number@, name, about, avatar_path_of(avatar)),
        ),
{
    match avatar {
        AvatarOutcome::Invalid(e) => Step::Refuse { status: 400, error: e.message() },
        AvatarOutcome::WriteFailed(m) => Step::Refuse { status: 400, error: m },
        AvatarOutcome::NotGiven => Step::Call(update_profile(number, name, about, None)),
        AvatarOutcome::Written(p) => Step::Call(update_profile(number, name, about, Some(p))),
    }
}

} // verus!
