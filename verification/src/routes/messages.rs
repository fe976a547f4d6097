//! Sending messages and deleting them remotely.

use vstd::prelude::*;

use crate::json::{fields, Json, JsonView};
use crate::routes::{is_call, is_refusal, refuses_with, Reply, RpcCall, Step};
use crate::spill::{body_decodes, finish_spill, plan_fits, spilled_view, SpillError, SpillPlan};

verus! {

/// POST /v1/send: `send` with the request body as it stands once its data URIs were
/// written to files.
pub fn send_v1(body: Json) -> (call: RpcCall)
    ensures
        call.method@ == "send"@,
        call.reply == Reply::Created,
        call.params == body,
        !call.counts_send,
{
    RpcCall::new("send", body, Reply::Created)
}

/// POST /v2/send: the same call as `send_v1`, except that its success is counted as a
/// sent message.
pub fn send_v2(body: Json) -> (call: RpcCall)
    ensures
        call.method@ == "send"@,
        call.reply == Reply::Created,
        call.params == body,
        call.counts_send,
{
    let mut call = RpcCall::new("send", body, Reply::Created);
    call.counts_send = true;
    call
}

/// The status with which a send is refused when its attachments cannot be written.
pub const SPILL_FAILURE_STATUS: u16 = 500;

fn send_step(
    body: Json,
    plan: Result<SpillPlan, SpillError>,
    written: Result<Vec<String>, String>,
    counts_send: bool,
) -> (step: Step)
    requires
        plan_fits(body@, plan),
        plan matches Ok(p) ==> (written matches Ok(paths) ==> paths.len() == p.files.len()),
    ensures
        !body_decodes(body@) ==> refuses_with(step, 500),
        plan is Ok ==> (written matches Err(m) ==> is_refusal(step, 500, m@)),
        plan matches Ok(p) ==> (written matches Ok(paths) ==> is_call(
            step,
            "send"@,
            Reply::Created,
            spilled_view(body@, p.files@, paths@),
        )),
        step matches Step::Call(c) ==> c.counts_send == counts_send,
{
    match finish_spill(body, plan, written) {
        Ok(out) => Step::Call(
            if counts_send {
                send_v2(out)
            } else {
                send_v1(out)
            },
        ),
        Err(error) => Step::Refuse { status: SPILL_FAILURE_STATUS, error },
    }
}

/// POST /v1/send, from the request body, the plan that `plan_spill` made for it, and
/// the paths its files were written to (or why they could not be): refused with 500
/// where a data URI is not valid base64 or a file could not be written, and otherwise
/// the `send` call of `send_v1` with the body as it stands with those paths.
pub fn send_v1_step(
    body: Json,
    plan: Result<SpillPlan, SpillError>,
    written: Result<Vec<String>, String>,
) -> (step: Step)
    requires
        plan_fits(body@, plan),
        plan matches Ok(p) ==> (written matches Ok(paths) ==> paths.len() == p.files.len()),
    ensures
        !body_decodes(body@) ==> refuses_with(step, 500),
        plan is Ok ==> (written matches Err(m) ==> is_refusal(step, 500, m@)),
        plan matches Ok(p) ==> (written matches Ok(paths) ==> is_call(
            step,
            "send"@,
            Reply::Created,
            spilled_view(body@, p.files@, paths@),
        )),
        step matches Step::Call(c) ==> !c.counts_send,
{
    send_step(body, plan, written, false)
}

/// POST /v2/send, decided as `send_v1_step` decides POST /v1/send, except that the
/// call's success is counted as a sent message.
pub fn send_v2_step(
    body: Json,
    plan: Result<SpillPlan, SpillError>,
    written: Result<Vec<String>, String>,
) -> (step: Step)
    requires
        plan_fits(body@, plan),
        plan matches Ok(p) ==> (written matches Ok(paths) ==> paths.len() == p.files.len()),
    ensures
        !body_decodes(body@) ==> refuses_with(step, 500),
        plan is Ok ==> (written matches Err(m) ==> is_refusal(step, 500, m@)),
        plan matches Ok(p) ==> (written matches Ok(paths) ==> is_call(
            step,
            "send"@,
            Reply::Created,
            spilled_view(body@, p.files@, paths@),
        )),
        step matches Step::Call(c) ==> c.counts_send,
{
    send_step(body, plan, written, true)
}

/// DELETE /v1/remote-delete/{number}: `remoteDelete` with the request body and the account
/// in it. The body is an object, or `null`, which stands for an empty one.
pub fn remote_delete(number: &str, body: Json) -> (call: RpcCall)
    requires
        body is Object || body is Null,
    ensures
        call.method@ == "remoteDelete"@,
        call.reply == Reply::Success,
        call.params@ == JsonView::Object(fields(body@).insert("account"@, JsonView::Str(number@))),
{
    let mut params = body;
    params.set("account", Json::text(number));
    RpcCall::new("remoteDelete", params, Reply::Success)
}

/// What happened while a WebSocket client is being served.
#[derive(Debug)]
pub enum WsEvent {
    /// An incoming message was broadcast.
    Broadcast(String),
    /// The client fell behind and broadcast messages were dropped for it.
    Lagged,
    /// The broadcast channel closed.
    BroadcastClosed,
    /// The client sent a close frame.
    ClientClosed,
    /// The client's connection ended.
    ClientGone,
    /// The client sent some other frame.
    ClientFrame,
    /// Sending to the client failed.
    SendFailed,
}

/// What to do next for a WebSocket client.
#[derive(Debug)]
pub enum WsAction {
    /// Send this text to the client, then wait for the next event.
    Send(String),
    /// Wait for the next event.
    Wait,
    /// Stop serving the client.
    Stop,
}

/// The action that answers one event, see `ws_next`.
pub open spec fn ws_action(event: WsEvent) -> WsAction {
    match event {
        WsEvent::Broadcast(text) => WsAction::Send(text),
        WsEvent::Lagged | WsEvent::ClientFrame => WsAction::Wait,
        _ => WsAction::Stop,
    }
}

/// The texts a client is sent over a run of events: each step's action in turn, up to
/// the first that stops.
pub open spec fn ws_session_output(events: Seq<WsEvent>) -> Seq<Seq<char>>
    decreases events.len(),
{
    if events.len() == 0 {
        Seq::empty()
    } else {
        match ws_action(events[0]) {
            WsAction::Send(text) => seq![text@] + ws_session_output(events.drop_first()),
            WsAction::Wait => ws_session_output(events.drop_first()),
            WsAction::Stop => Seq::empty(),
        }
    }
}

/// Whether an event ends the session.
pub open spec fn ends_session(event: WsEvent) -> bool {
    !(event is Broadcast || event is Lagged || event is ClientFrame)
}

/// The texts of the broadcast messages among `events`, in order.
pub open spec fn broadcast_texts(events: Seq<WsEvent>) -> Seq<Seq<char>>
    decreases events.len(),
{
    if events.len() == 0 {
        Seq::empty()
    } else {
        match events[0] {
            WsEvent::Broadcast(text) => seq![text@] + broadcast_texts(events.drop_first()),
            _ => broadcast_texts(events.drop_first()),
        }
    }
}

/// A WebSocket session forwards the broadcast messages in the order they came, each
/// exactly once: while neither side closes and no send fails, what the client is sent
/// is the sequence of broadcast texts; frames from the client and a client that fell
/// behind are passed over without ending the session.
pub proof fn lemma_ws_session_forwards_in_order(events: Seq<WsEvent>)
    requires
        forall|i: int| 0 <= i < events.len() ==> !ends_session(#[trigger] events[i]),
    ensures
        ws_session_output(events) == broadcast_texts(events),
    decreases events.len(),
{
    if events.len() > 0 {
        let rest = events.drop_first();
        assert forall|i: int| 0 <= i < rest.len() implies !ends_session(#[trigger] rest[i]) by {
            assert(rest[i] == events[i + 1]);
        }
        lemma_ws_session_forwards_in_order(rest);
        assert(!ends_session(events[0]));
    }
}

/// The next step of serving a WebSocket client: broadcast messages are forwarded, frames
/// from the client are ignored, a client that fell behind goes on with the next message,
/// and the stream stops when either side closes or a send fails.
pub fn ws_next(event: WsEvent) -> (action: WsAction)
    ensures
        action == ws_action(event),
        match event {
            WsEvent::Broadcast(text) => action == WsAction::Send(text),
            WsEvent::Lagged | WsEvent::ClientFrame => action == WsAction::Wait,
            _ => action == WsAction::Stop,
        },
{
    match event {
        WsEvent::Broadcast(text) => WsAction::Send(text),
        WsEvent::Lagged | WsEvent::ClientFrame => WsAction::Wait,
        WsEvent::BroadcastClosed | WsEvent::ClientClosed | WsEvent::ClientGone | WsEvent::SendFailed => {
            WsAction::Stop
        },
    }
}

} // verus!
