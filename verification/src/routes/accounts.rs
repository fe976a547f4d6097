//! Account endpoints: registration, PIN, username, settings and number changes.

use vstd::prelude::*;

use crate::json::{opt_bool, opt_str, put_opt, Json, JsonView};
use crate::routes::{Reply, RpcCall};

verus! {

/// GET /v1/accounts: the accounts that signal-cli knows.
pub fn list_accounts() -> (call: RpcCall)
    ensures
        call.method@ == "listAccounts"@,
        call.reply == Reply::Success,
        call.params@ == JsonView::Object(Map::empty()),
{
    let params = Json::empty_object();
    RpcCall::new("listAccounts", params, Reply::Success)
}

/// POST /v1/register/{number}: registers the number, by SMS or, asked for, by voice call.
pub fn register(number: &str, captcha: Option<String>, voice: Option<bool>) -> (call: RpcCall)
    ensures
        call.method@ == "register"@,
        call.reply == Reply::NoContent,
        call.params@ == JsonView::Object(
            put_opt(
                put_opt(
                    map!["account"@ => JsonView::Str(number@)],
                    "captcha"@,
                    opt_str(captcha),
                ),
                "voice"@,
                opt_bool(voice),
            ),
        ),
{
    let mut params = Json::empty_object();
    params.set("account", Json::text(number));
    if let Some(v) = captcha {
        params.set("captcha", Json::Str(v));
    }
    if let Some(v) = voice {
        params.set("voice", Json::Bool(v));
    }
    RpcCall::new("register", params, Reply::NoContent)
}

/// POST /v1/register/{number}/verify/{token}: completes a registration with the code received.
pub fn verify(number: &str, token: &str) -> (call: RpcCall)
    ensures
        call.method@ == "verify"@,
        call.reply == Reply::NoContent,
        call.params@ == JsonView::Object(
            map![
                "account"@ => JsonView::Str(number@),
                "verificationCode"@ => JsonView::Str(token@),
            ],
        ),
{
    let mut params = Json::empty_object();
    params.set("account", Json::text(number));
    params.set("verificationCode", Json::text(token));
    RpcCall::new("verify", params, Reply::NoContent)
}

/// POST /v1/unregister/{number}: unregisters the account.
pub fn unregister(number: &str) -> (call: RpcCall)
    ensures
        call.method@ == "unregister"@,
        call.reply == Reply::NoContent,
        call.params@ == JsonView::Object(map!["account"@ => JsonView::Str(number@)]),
{
    let mut params = Json::empty_object();
    params.set("account", Json::text(number));
    RpcCall::new("unregister", params, Reply::NoContent)
}

/// POST /v1/accounts/{number}/rate-limit-challenge: answers a rate-limit challenge.
pub fn rate_limit_challenge(number: &str, challenge: &str, captcha: &str) -> (call: RpcCall)
    ensures
        call.method@ == "submitRateLimitChallenge"@,
        call.reply == Reply::NoContent,
        call.params@ == JsonView::Object(
            map![
                "account"@ => JsonView::Str(number@),
                "challenge"@ => JsonView::Str(challenge@),
                "captcha"@ => JsonView::Str(captcha@),
            ],
        ),
{
    let mut params = Json::empty_object();
    params.set("account", Json::text(number));
    params.set("challenge", Json::text(challenge));
    params.set("captcha", Json::text(captcha));
    RpcCall::new("submitRateLimitChallenge", params, Reply::NoContent)
}

/// PUT /v1/accounts/{number}/settings: updates the account attributes that signal-cli
/// lets change at run time, through `updateAccount`; only those given are sent.
pub fn update_settings(
    number: &str,
    device_name: Option<String>,
    unrestricted_unidentified_sender: Option<bool>,
    discoverable_by_number: Option<bool>,
    number_sharing: Option<bool>,
) -> (call: RpcCall)
    ensures
        call.method@ == "updateAccount"@,
        call.reply == Reply::NoContent,
        call.params@ == JsonView::Object(
            put_opt(
                put_opt(
                    put_opt(
                        put_opt(
                            map!["account"@ => JsonView::Str(number@)],
                            "device-name"@,
                            opt_str(device_name),
                        ),
                        "unrestricted-unidentified-sender"@,
                        opt_bool(unrestricted_unidentified_sender),
                    ),
                    "discoverable-by-number"@,
                    opt_bool(discoverable_by_number),
                ),
                "number-sharing"@,
                opt_bool(number_sharing),
            ),
        ),
{
    let mut params = Json::empty_object();
    params.set("account", Json::text(number));
    if let Some(v) = device_name {
        params.set("device-name", Json::Str(v));
    }
    if let Some(v) = unrestricted_unidentified_sender {
        params.set("unrestricted-unidentified-sender", Json::Bool(v));
    }
    if let Some(v) = discoverable_by_number {
        params.set("discoverable-by-number", Json::Bool(v));
    }
    if let Some(v) = number_sharing {
        params.set("number-sharing", Json::Bool(v));
    }
    RpcCall::new("updateAccount", params, Reply::NoContent)
}

/// POST /v1/accounts/{number}/pin: sets the registration lock PIN.
pub fn set_pin(number: &str, pin: &str) -> (call: RpcCall)
    ensures
        call.method@ == "setPin"@,
        call.reply == Reply::NoContent,
        call.params@ == JsonView::Object(
            map!["account"@ => JsonView::Str(number@), "pin"@ => JsonView::Str(pin@)],
        ),
{
    let mut params = Json::empty_object();
    params.set("account", Json::text(number));
    params.set("pin", Json::text(pin));
    RpcCall::new("setPin", params, Reply::NoContent)
}

/// DELETE /v1/accounts/{number}/pin: removes the registration lock PIN.
pub fn remove_pin(number: &str) -> (call: RpcCall)
    ensures
        call.method@ == "removePin"@,
        call.reply == Reply::NoContent,
        call.params@ == JsonView::Object(map!["account"@ => JsonView::Str(number@)]),
{
    let mut params = Json::empty_object();
    params.set("account", Json::text(number));
    RpcCall::new("removePin", params, Reply::NoContent)
}

/// POST /v1/accounts/{number}/username: sets the username, through `updateAccount`.
pub fn set_username(number: &str, username: &str) -> (call: RpcCall)
    ensures
        call.method@ == "updateAccount"@,
        call.reply == Reply::NoContent,
        call.params@ == JsonView::Object(
            map!["account"@ => JsonView::Str(number@), "username"@ => JsonView::Str(username@)],
        ),
{
    let mut params = Json::empty_object();
    params.set("account", Json::text(number));
    params.set("username", Json::text(username));
    RpcCall::new("updateAccount", params, Reply::NoContent)
}

/// DELETE /v1/accounts/{number}/username: deletes the username, through `updateAccount`.
pub fn remove_username(number: &str) -> (call: RpcCall)
    ensures
        call.method@ == "updateAccount"@,
        call.reply == Reply::NoContent,
        call.params@ == JsonView::Object(
            map![
                "account"@ => JsonView::Str(number@),
                "delete-username"@ => JsonView::Bool(true),
            ],
        ),
{
    let mut params = Json::empty_object();
    params.set("account", Json::text(number));
    params.set("delete-username", Json::Bool(true));
    RpcCall::new("updateAccount", params, Reply::NoContent)
}

/// POST /v1/accounts/{number}/sync-request: asks the primary device to send its data again.
pub fn sync_request(number: &str) -> (call: RpcCall)
    ensures
        call.method@ == "sendSyncRequest"@,
        call.reply == Reply::NoContent,
        call.params@ == JsonView::Object(map!["account"@ => JsonView::Str(number@)]),
{
    let mut params = Json::empty_object();
    params.set("account", Json::text(number));
    RpcCall::new("sendSyncRequest", params, Reply::NoContent)
}

/// POST /v1/accounts/{number}/number: starts moving the account to the number `new_number`.
pub fn start_change_number(
    number: &str,
    new_number: &str,
    voice: Option<bool>,
    captcha: Option<String>,
) -> (call: RpcCall)
    ensures
        call.method@ == "startChangeNumber"@,
        call.reply == Reply::NoContent,
        call.params@ == JsonView::Object(
            put_opt(
                put_opt(
                    map![
                        "account"@ => JsonView::Str(number@),
                        "number"@ => JsonView::Str(new_number@),
                    ],
                    "voice"@,
                    opt_bool(voice),
                ),
                "captcha"@,
                opt_str(captcha),
            ),
        ),
{
    let mut params = Json::empty_object();
    params.set("account", Json::text(number));
    params.set("number", Json::text(new_number));
    if let Some(v) = voice {
        params.set("voice", Json::Bool(v));
    }
    if let Some(v) = captcha {
        params.set("captcha", Json::Str(v));
    }
    RpcCall::new("startChangeNumber", params, Reply::NoContent)
}

/// POST /v1/accounts/{number}/number/verify: completes the move with the code received.
pub fn finish_change_number(
    number: &str,
    new_number: &str,
    verification_code: &str,
    pin: Option<String>,
) -> (call: RpcCall)
    ensures
        call.method@ == "finishChangeNumber"@,
        call.reply == Reply::NoContent,
        call.params@ == JsonView::Object(
            put_opt(
                map![
                    "account"@ => JsonView::Str(number@),
                    "number"@ => JsonView::Str(new_number@),
                    "verification-code"@ => JsonView::Str(verification_code@),
                ],
                "pin"@,
                opt_str(pin),
            ),
        ),
{
    let mut params = Json::empty_object();
    params.set("account", Json::text(number));
    params.set("number", Json::text(new_number));
    params.set("verification-code", Json::text(verification_code));
    if let Some(v) = pin {
        params.set("pin", Json::Str(v));
    }
    RpcCall::new("finishChangeNumber", params, Reply::NoContent)
}

} // verus!
