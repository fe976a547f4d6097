//! Payment notifications.

use vstd::prelude::*;

use crate::json::{opt_str, put_opt, Json, JsonView};
use crate::routes::{Reply, RpcCall};

verus! {

/// POST /v1/payments/{number}: sends a payment notification with a MobileCoin receipt.
pub fn send_payment_notification(
    number: &str,
    recipient: &str,
    receipt: &str,
    note: Option<String>,
) -> (call: RpcCall)
    ensures
        call.method@ == "sendPaymentNotification"@,
        call.reply == Reply::Created,
        call.params@ == JsonView::Object(
            put_opt(
                map![
                    "account"@ => JsonView::Str(number@),
                    "recipient"@ => JsonView::Str(recipient@),
                    "receipt"@ => JsonView::Str(receipt@),
                ],
                "note"@,
                opt_str(note),
            ),
        ),
{
    let mut params = Json::empty_object();
    params.set("account", Json::text(number));
    params.set("recipient", Json::text(recipient));
    params.set("receipt", Json::text(receipt));
    if let Some(v) = note {
        params.set("note", Json::Str(v));
    }
    RpcCall::new("sendPaymentNotification", params, Reply::Created)
}

} // verus!
