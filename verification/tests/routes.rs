use signal_cli_api::json::Json;
use signal_cli_api::routes::contacts::MessageRequestResponseType;
use signal_cli_api::routes::groups::GroupPermissions;
use signal_cli_api::routes::messages::{ws_next, WsAction, WsEvent};
use signal_cli_api::routes::openapi::openapi_spec;
use signal_cli_api::routes::{
    accounts, attachments, calls, config, contacts, devices, finish_call, groups, messages,
    payments, pinned_messages, polls, profiles, search, stickers, stories, system, AvatarOutcome,
    Reply, RpcCall, Step,
};
use signal_cli_api::spill::{attachment_file_path, avatar_file_path, decode_avatar, plan_spill};
use signal_cli_api::state::Metrics;

/// Canonical JSON text of a value: object members sorted by key, the last member with a
/// key counting.
fn render(j: &Json) -> String {
    match j {
        Json::Null => "null".to_string(),
        Json::Bool(b) => b.to_string(),
        Json::Int(n) => n.to_string(),
        Json::Decimal(d) => d.clone(),
        Json::Str(s) => format!("{:?}", s),
        Json::Array(items) => {
            let parts: Vec<String> = items.iter().map(render).collect();
            format!("[{}]", parts.join(","))
        }
        Json::Object(entries) => {
            let mut map = std::collections::BTreeMap::new();
            for (k, v) in entries {
                map.insert(k.clone(), render(v));
            }
            let parts: Vec<String> = map.iter().map(|(k, v)| format!("{:?}:{}", k, v)).collect();
            format!("{{{}}}", parts.join(","))
        }
    }
}

fn check(call: RpcCall, method: &str, reply: Reply, params: &str) {
    assert_eq!(call.method, method);
    assert_eq!(call.reply, reply);
    assert_eq!(render(&call.params), params);
}

fn s(x: &str) -> String {
    x.to_string()
}

fn obj(members: Vec<(&str, Json)>) -> Json {
    let mut j = Json::empty_object();
    for (k, v) in members {
        j.set(k, v);
    }
    j
}

#[test]
fn test_accounts_list() {
    check(accounts::list_accounts(), "listAccounts", Reply::Success, "{}");
}

#[test]
fn test_accounts_register() {
    check(accounts::register("+1234567890", None, None), "register", Reply::NoContent, r#"{"account":"+1234567890"}"#);
}

#[test]
fn test_accounts_register_with_captcha() {
    check(
        accounts::register("+1234567890", Some(s("signalcaptcha://signal-recaptcha-v2.abc123")), None),
        "register",
        Reply::NoContent,
        r#"{"account":"+1234567890","captcha":"signalcaptcha://signal-recaptcha-v2.abc123"}"#,
    );
}

#[test]
fn test_accounts_register_voice() {
    check(accounts::register("+1234567890", None, Some(true)), "register", Reply::NoContent, r#"{"account":"+1234567890","voice":true}"#);
}

#[test]
fn test_accounts_verify() {
    check(accounts::verify("+1234567890", "123456"), "verify", Reply::NoContent, r#"{"account":"+1234567890","verificationCode":"123456"}"#);
}

#[test]
fn test_accounts_unregister() {
    check(accounts::unregister("+1234567890"), "unregister", Reply::NoContent, r#"{"account":"+1234567890"}"#);
}

#[test]
fn test_accounts_rate_limit_challenge() {
    check(
        accounts::rate_limit_challenge("+1234567890", "challenge-token", "captcha-solution"),
        "submitRateLimitChallenge",
        Reply::NoContent,
        r#"{"account":"+1234567890","captcha":"captcha-solution","challenge":"challenge-token"}"#,
    );
}

#[test]
fn test_accounts_update_settings() {
    // Unknown fields such as `trust_mode` are not sent at all.
    check(accounts::update_settings("+1234567890", None, None, None, None), "updateAccount", Reply::NoContent, r#"{"account":"+1234567890"}"#);
}

#[test]
fn test_accounts_update_settings_real_fields() {
    check(
        accounts::update_settings("+123", Some(s("My Bot")), None, Some(false), None),
        "updateAccount",
        Reply::NoContent,
        r#"{"account":"+123","device-name":"My Bot","discoverable-by-number":false}"#,
    );
    check(
        accounts::update_settings("+123", None, Some(true), None, Some(true)),
        "updateAccount",
        Reply::NoContent,
        r#"{"account":"+123","number-sharing":true,"unrestricted-unidentified-sender":true}"#,
    );
}

#[test]
fn test_accounts_set_pin() {
    check(accounts::set_pin("+1234567890", "123456"), "setPin", Reply::NoContent, r#"{"account":"+1234567890","pin":"123456"}"#);
}

#[test]
fn test_accounts_remove_pin() {
    check(accounts::remove_pin("+1234567890"), "removePin", Reply::NoContent, r#"{"account":"+1234567890"}"#);
}

#[test]
fn test_accounts_set_username() {
    check(accounts::set_username("+1234567890", "testuser.42"), "updateAccount", Reply::NoContent, r#"{"account":"+1234567890","username":"testuser.42"}"#);
}

#[test]
fn test_accounts_remove_username() {
    check(accounts::remove_username("+1234567890"), "updateAccount", Reply::NoContent, r#"{"account":"+1234567890","delete-username":true}"#);
}

#[test]
fn test_accounts_sync_request() {
    check(accounts::sync_request("+123"), "sendSyncRequest", Reply::NoContent, r#"{"account":"+123"}"#);
}

#[test]
fn test_accounts_start_change_number() {
    check(accounts::start_change_number("+123", "+19995551234", None, None), "startChangeNumber", Reply::NoContent, r#"{"account":"+123","number":"+19995551234"}"#);
}

#[test]
fn test_accounts_start_change_number_voice() {
    check(
        accounts::start_change_number("+123", "+19995551234", Some(true), Some(s("cap"))),
        "startChangeNumber",
        Reply::NoContent,
        r#"{"account":"+123","captcha":"cap","number":"+19995551234","voice":true}"#,
    );
}

#[test]
fn test_accounts_finish_change_number() {
    check(
        accounts::finish_change_number("+123", "+19995551234", "123456", None),
        "finishChangeNumber",
        Reply::NoContent,
        r#"{"account":"+123","number":"+19995551234","verification-code":"123456"}"#,
    );
    check(
        accounts::finish_change_number("+123", "+19995551234", "123456", Some(s("4321"))),
        "finishChangeNumber",
        Reply::NoContent,
        r#"{"account":"+123","number":"+19995551234","pin":"4321","verification-code":"123456"}"#,
    );
}

#[test]
fn test_attachments_list() {
    check(attachments::list_attachments(), "listAttachments", Reply::Success, "{}");
}

#[test]
fn test_attachments_get() {
    check(attachments::get_attachment("att1"), "getAttachment", Reply::Success, r#"{"id":"att1"}"#);
}

#[test]
fn test_attachments_delete() {
    check(attachments::delete_attachment("att1"), "deleteAttachment", Reply::NoContent, r#"{"id":"att1"}"#);
}

#[test]
fn test_calls_list_empty() {
    check(calls::list_calls("+123"), "listCalls", Reply::Success, r#"{"account":"+123"}"#);
}

#[test]
fn test_calls_start_accept_reject_hangup() {
    check(calls::start_call("+123", "+9999"), "startCall", Reply::Created, r#"{"account":"+123","recipient":"+9999"}"#);
    check(calls::accept_call("+123", 1), "acceptCall", Reply::Success, r#"{"account":"+123","call-id":1}"#);
    check(calls::reject_call("+123", 1), "rejectCall", Reply::Success, r#"{"account":"+123","call-id":1}"#);
    check(calls::hangup_call("+123", -7), "hangupCall", Reply::Success, r#"{"account":"+123","call-id":-7}"#);
}

#[test]
fn test_config_get_global() {
    check(config::get_global_config(), "getConfiguration", Reply::Success, "{}");
}

#[test]
fn test_config_set_global() {
    let body = obj(vec![("trustMode", Json::text("always"))]);
    check(config::set_global_config(body), "setConfiguration", Reply::NoContent, r#"{"trustMode":"always"}"#);
}

#[test]
fn test_config_get_account() {
    check(config::get_account_config("+123"), "getAccountSettings", Reply::Success, r#"{"account":"+123"}"#);
}

#[test]
fn test_config_set_account() {
    let body = obj(vec![("trustMode", Json::text("always"))]);
    check(config::set_account_config("+123", body), "setAccountSettings", Reply::NoContent, r#"{"account":"+123","trustMode":"always"}"#);
}

#[test]
fn test_config_set_account_overrides_account_in_body() {
    let body = obj(vec![("account", Json::text("+other")), ("x", Json::Int(1))]);
    check(config::set_account_config("+123", body), "setAccountSettings", Reply::NoContent, r#"{"account":"+123","x":1}"#);
    check(config::set_account_config("+123", Json::Null), "setAccountSettings", Reply::NoContent, r#"{"account":"+123"}"#);
}

#[test]
fn test_contacts_list() {
    check(contacts::list_contacts("+123"), "listContacts", Reply::Success, r#"{"account":"+123"}"#);
}

#[test]
fn test_contacts_get_single() {
    check(contacts::get_contact("+123", "+1111"), "listContacts", Reply::Success, r#"{"account":"+123","recipient":["+1111"]}"#);
}

#[test]
fn test_contacts_update() {
    check(
        contacts::update_contact("+123", Some(s("Bob")), None, Some(s("+9999"))),
        "updateContact",
        Reply::Success,
        r#"{"account":"+123","name":"Bob","recipient":["+9999"]}"#,
    );
}

#[test]
fn test_contacts_update_with_expiration() {
    check(
        contacts::update_contact("+123", Some(s("Bob")), Some(3600), Some(s("+9999"))),
        "updateContact",
        Reply::Success,
        r#"{"account":"+123","expiration":3600,"name":"Bob","recipient":["+9999"]}"#,
    );
}

#[test]
fn test_contacts_update_expiration_only() {
    check(contacts::update_contact("+123", None, Some(7200), None), "updateContact", Reply::Success, r#"{"account":"+123","expiration":7200}"#);
}

#[test]
fn test_contacts_remove() {
    check(contacts::remove_contact("+123", "+1111", None, None), "removeContact", Reply::Success, r#"{"account":"+123","recipient":"+1111"}"#);
}

#[test]
fn test_contacts_remove_with_forget() {
    check(contacts::remove_contact("+123", "+1111", None, Some(true)), "removeContact", Reply::Success, r#"{"account":"+123","forget":true,"recipient":"+1111"}"#);
    // Only `true` adds the flag.
    check(contacts::remove_contact("+123", "+1111", Some(false), Some(false)), "removeContact", Reply::Success, r#"{"account":"+123","recipient":"+1111"}"#);
}

#[test]
fn test_contacts_sync() {
    check(contacts::sync_contacts("+123"), "sendContacts", Reply::Success, r#"{"account":"+123"}"#);
}

#[test]
fn test_contacts_avatar() {
    check(contacts::get_avatar("+123", "+1111"), "getAvatar", Reply::Success, r#"{"account":"+123","contact":"+1111"}"#);
}

#[test]
fn test_contacts_block_and_unblock() {
    check(contacts::block_contact("+123", "+1111"), "block", Reply::Success, r#"{"account":"+123","recipient":["+1111"]}"#);
    check(contacts::unblock_contact("+123", "+1111"), "unblock", Reply::Success, r#"{"account":"+123","recipient":["+1111"]}"#);
}

#[test]
fn test_contacts_message_request_accept() {
    check(
        contacts::message_request_response("+123", Some(s("+9999")), None, MessageRequestResponseType::Accept),
        "sendMessageRequestResponse",
        Reply::NoContent,
        r#"{"account":"+123","recipient":["+9999"],"type":"accept"}"#,
    );
    check(
        contacts::message_request_response("+123", None, Some(s("g1")), MessageRequestResponseType::Delete),
        "sendMessageRequestResponse",
        Reply::NoContent,
        r#"{"account":"+123","group-id":["g1"],"type":"delete"}"#,
    );
}

#[test]
fn test_devices_list() {
    check(devices::list_devices("+123"), "listDevices", Reply::Success, r#"{"account":"+123"}"#);
}

#[test]
fn test_devices_qrcodelink() {
    check(devices::qrcodelink(None), "startLink", Reply::Success, "{}");
}

#[test]
fn test_devices_qrcodelink_with_name() {
    check(devices::qrcodelink(Some(s("MyDesktop"))), "startLink", Reply::Success, r#"{"deviceName":"MyDesktop"}"#);
    check(devices::qrcodelink_raw(Some(s("MyDesktop"))), "startLink", Reply::Success, r#"{"deviceName":"MyDesktop"}"#);
}

#[test]
fn test_qrcodelink_raw_contains_sgnl_uri() {
    let result = obj(vec![("deviceLinkUri", Json::text("sgnl://linkdevice?uuid=test&pub_key=abc"))]);
    assert_eq!(devices::raw_link_uri(&result), "sgnl://linkdevice?uuid=test&pub_key=abc");
    assert_eq!(devices::raw_link_uri(&Json::text("sgnl://direct")), "sgnl://direct");
    assert_eq!(devices::raw_link_uri(&obj(vec![("deviceLinkUri", Json::Int(3))])), "");
    assert_eq!(devices::raw_link_uri(&Json::Null), "");
}

#[test]
fn test_devices_link() {
    check(devices::link_device("+123", "sgnl://linkdevice?uuid=test&pub_key=abc", None), "finishLink", Reply::NoContent, r#"{"account":"+123","uri":"sgnl://linkdevice?uuid=test&pub_key=abc"}"#);
}

#[test]
fn test_devices_link_with_name() {
    check(
        devices::link_device("+123", "sgnl://x", Some(s("My Laptop"))),
        "finishLink",
        Reply::NoContent,
        r#"{"account":"+123","deviceName":"My Laptop","uri":"sgnl://x"}"#,
    );
}

#[test]
fn test_devices_remove() {
    check(devices::remove_device("+123", 2), "removeDevice", Reply::NoContent, r#"{"account":"+123","deviceId":2}"#);
}

#[test]
fn test_devices_delete_local_data() {
    check(devices::delete_local_data("+123"), "deleteLocalAccountData", Reply::NoContent, r#"{"account":"+123"}"#);
}

#[test]
fn test_devices_update_name() {
    check(devices::update_device("+123", 2, "Renamed"), "updateDevice", Reply::NoContent, r#"{"account":"+123","deviceId":2,"deviceName":"Renamed"}"#);
}

#[test]
fn test_devices_add() {
    check(devices::add_device("+123", "sgnl://linkdevice?uuid=test&pub_key=abc"), "addDevice", Reply::NoContent, r#"{"account":"+123","uri":"sgnl://linkdevice?uuid=test&pub_key=abc"}"#);
}

#[test]
fn test_groups_list() {
    check(groups::list_groups("+123"), "listGroups", Reply::Success, r#"{"account":"+123"}"#);
}

#[test]
fn test_groups_get_single() {
    check(groups::get_group("+123", "g1"), "listGroups", Reply::Success, r#"{"account":"+123","group-id":"g1"}"#);
}

#[test]
fn test_groups_create() {
    check(
        groups::create_group("+123", "New Group", &vec![s("+9999")], None, None),
        "updateGroup",
        Reply::Created,
        r#"{"account":"+123","member":["+9999"],"name":"New Group"}"#,
    );
}

#[test]
fn test_groups_create_with_description() {
    check(
        groups::create_group("+123", "Described Group", &vec![s("+9999")], Some(s("A test group with description")), None),
        "updateGroup",
        Reply::Created,
        r#"{"account":"+123","description":"A test group with description","member":["+9999"],"name":"Described Group"}"#,
    );
}

#[test]
fn test_groups_create_with_permissions() {
    let perms = GroupPermissions { add_members: Some(s("only-admins")), edit_details: Some(s("every-member")) };
    check(
        groups::create_group("+123", "G", &vec![], None, Some(perms)),
        "updateGroup",
        Reply::Created,
        r#"{"account":"+123","member":[],"name":"G","set-permission-add-member":"only-admins","set-permission-edit-details":"every-member"}"#,
    );
}

#[test]
fn test_groups_update() {
    check(groups::update_group("+123", "g1", Some(s("Renamed Group")), None, None, None, None), "updateGroup", Reply::Success, r#"{"account":"+123","group-id":"g1","name":"Renamed Group"}"#);
}

#[test]
fn test_groups_update_expiration() {
    check(groups::update_group("+123", "g1", None, None, None, Some(86400), None), "updateGroup", Reply::Success, r#"{"account":"+123","expiration":86400,"group-id":"g1"}"#);
}

#[test]
fn test_groups_update_all_fields() {
    let perms = GroupPermissions { add_members: None, edit_details: Some(s("only-admins")) };
    check(
        groups::update_group(
            "+123",
            "g1",
            Some(s("N")),
            Some(s("D")),
            Some(s("outgoing-attachments/avatar-1-0.jpg")),
            Some(60),
            Some(perms),
        ),
        "updateGroup",
        Reply::Success,
        r#"{"account":"+123","avatar":"outgoing-attachments/avatar-1-0.jpg","description":"D","expiration":60,"group-id":"g1","name":"N","set-permission-edit-details":"only-admins"}"#,
    );
}

#[test]
fn test_groups_delete() {
    check(groups::delete_group("+123", "g1"), "quitGroup", Reply::Success, r#"{"account":"+123","delete":true,"group-id":"g1"}"#);
}

#[test]
fn test_groups_add_and_remove_members() {
    let members = vec![s("+2222"), s("+3333")];
    check(groups::add_members("+123", "g1", &members), "updateGroup", Reply::Success, r#"{"account":"+123","addMember":["+2222","+3333"],"group-id":"g1"}"#);
    check(groups::remove_members("+123", "g1", &members), "updateGroup", Reply::Success, r#"{"account":"+123","group-id":"g1","removeMember":["+2222","+3333"]}"#);
}

#[test]
fn test_groups_add_admins() {
    check(groups::add_admins("+123", "g1", &vec![s("+2222")]), "updateGroup", Reply::Success, r#"{"account":"+123","addAdmin":["+2222"],"group-id":"g1"}"#);
    check(groups::remove_admins("+123", "g1", &vec![s("+2222")]), "updateGroup", Reply::Success, r#"{"account":"+123","group-id":"g1","removeAdmin":["+2222"]}"#);
}

#[test]
fn test_groups_join_then_quit() {
    check(groups::join_group("+123", "g1"), "joinGroup", Reply::Success, r#"{"account":"+123","group-id":"g1"}"#);
    check(groups::quit_group("+123", "g1"), "quitGroup", Reply::Success, r#"{"account":"+123","group-id":"g1"}"#);
}

#[test]
fn test_groups_block() {
    check(groups::block_group("+123", "g1"), "block", Reply::Success, r#"{"account":"+123","group-id":"g1"}"#);
}

#[test]
fn test_send_passthrough_forwards_undocumented_fields_verbatim() {
    let body = obj(vec![
        ("account", Json::text("+1234567890")),
        ("editTimestamp", Json::Int(1111111111)),
        ("noUrgent", Json::Bool(true)),
        ("textStyle", Json::one_text("0:6:BOLD")),
        ("somethingSignalCliMightAddTomorrow", Json::text("unknown-but-still-forwarded")),
    ]);
    let expected = render(&body);
    let call = messages::send_v2(body);
    assert_eq!(call.method, "send");
    assert_eq!(call.reply, Reply::Created);
    assert_eq!(render(&call.params), expected);
}

#[test]
fn test_send_v1_deprecated() {
    let body = obj(vec![("message", Json::text("hello")), ("number", Json::text("+1234567890"))]);
    check(messages::send_v1(body), "send", Reply::Created, r#"{"message":"hello","number":"+1234567890"}"#);
}

#[test]
fn test_remote_delete() {
    let body = obj(vec![("recipient", Json::text("+9999")), ("timestamp", Json::Int(12345))]);
    check(messages::remote_delete("+123", body), "remoteDelete", Reply::Success, r#"{"account":"+123","recipient":"+9999","timestamp":12345}"#);
}

#[test]
fn test_send_payment_notification() {
    check(
        payments::send_payment_notification("+123", "+9999", "aGVsbG8=", Some(s("thanks!"))),
        "sendPaymentNotification",
        Reply::Created,
        r#"{"account":"+123","note":"thanks!","receipt":"aGVsbG8=","recipient":"+9999"}"#,
    );
}

#[test]
fn test_pin_message() {
    let to = pinned_messages::RecipientEnvelope { recipient: Some(s("+9999")), group_id: None };
    check(
        pinned_messages::pin_message("+123", &to, "+9999", 12345, None, None),
        "sendPinMessage",
        Reply::Success,
        r#"{"account":"+123","recipient":["+9999"],"target-author":"+9999","target-timestamp":12345}"#,
    );
    let to = pinned_messages::RecipientEnvelope { recipient: None, group_id: Some(s("g1")) };
    check(
        pinned_messages::pin_message("+123", &to, "+9999", 12345, Some(3600), Some(true)),
        "sendPinMessage",
        Reply::Success,
        r#"{"account":"+123","group-id":["g1"],"pin-duration":3600,"story":true,"target-author":"+9999","target-timestamp":12345}"#,
    );
}

#[test]
fn test_unpin_message() {
    let to = pinned_messages::RecipientEnvelope { recipient: Some(s("+9999")), group_id: None };
    check(
        pinned_messages::unpin_message("+123", &to, "+9999", 12345, Some(false)),
        "sendUnpinMessage",
        Reply::Success,
        r#"{"account":"+123","recipient":["+9999"],"target-author":"+9999","target-timestamp":12345}"#,
    );
}

#[test]
fn test_polls_create() {
    let to = polls::RecipientEnvelope { recipient: Some(s("+9999")), ..Default::default() };
    let options = vec![s("Rust"), s("Python"), s("Go")];
    check(
        polls::create_poll("+123", &to, "Favorite language?", &options, None),
        "sendPollCreate",
        Reply::Created,
        r#"{"account":"+123","option":["Rust","Python","Go"],"question":"Favorite language?","recipient":["+9999"]}"#,
    );
}

#[test]
fn test_polls_create_single_answer_and_full_addressing() {
    let to = polls::RecipientEnvelope {
        recipient: Some(s("+3")),
        recipients: Some(vec![s("+1"), s("+2")]),
        group_id: Some(s("g1")),
        username: Some(vec![s("u.1")]),
        note_to_self: Some(true),
        notify_self: Some(false),
    };
    check(
        polls::create_poll("+123", &to, "Q", &vec![s("A")], Some(false)),
        "sendPollCreate",
        Reply::Created,
        r#"{"account":"+123","group-id":["g1"],"no-multi":true,"note-to-self":true,"option":["A"],"question":"Q","recipient":["+1","+2","+3"],"username":["u.1"]}"#,
    );
    // Allowing several answers sends nothing extra; no recipient at all sends no list.
    check(
        polls::create_poll("+123", &Default::default(), "Q", &vec![], Some(true)),
        "sendPollCreate",
        Reply::Created,
        r#"{"account":"+123","option":[],"question":"Q"}"#,
    );
}

#[test]
fn test_polls_vote() {
    let to = polls::RecipientEnvelope { recipient: Some(s("+9999")), ..Default::default() };
    check(
        polls::vote_poll("+123", &to, "+9999", 12345, 0),
        "sendPollVote",
        Reply::Success,
        r#"{"account":"+123","option":0,"poll-author":"+9999","poll-timestamp":12345,"recipient":["+9999"]}"#,
    );
}

#[test]
fn test_polls_close() {
    let to = polls::RecipientEnvelope { recipient: Some(s("+9999")), ..Default::default() };
    check(polls::close_poll("+123", &to, 12345), "sendPollTerminate", Reply::Success, r#"{"account":"+123","poll-timestamp":12345,"recipient":["+9999"]}"#);
}

#[test]
fn test_profiles_update() {
    check(profiles::update_profile("+123", Some(s("My Name")), None, None), "updateProfile", Reply::Success, r#"{"account":"+123","given-name":"My Name"}"#);
}

#[test]
fn test_profiles_update_all_fields() {
    check(
        profiles::update_profile("+123", Some(s("Full Profile")), Some(s("Security enthusiast")), Some(s("outgoing-attachments/avatar-9-1.jpg"))),
        "updateProfile",
        Reply::Success,
        r#"{"about":"Security enthusiast","account":"+123","avatar":"outgoing-attachments/avatar-9-1.jpg","given-name":"Full Profile"}"#,
    );
}

#[test]
fn test_search() {
    check(search::search_numbers("+123", "+1111", ""), "getUserStatus", Reply::Success, r#"{"account":"+123","recipient":["+1111"],"username":[]}"#);
}

#[test]
fn test_search_multiple_numbers() {
    check(
        search::search_numbers("+123", "+1111,+2222,+3333", "alice.01,bob.02"),
        "getUserStatus",
        Reply::Success,
        r#"{"account":"+123","recipient":["+1111","+2222","+3333"],"username":["alice.01","bob.02"]}"#,
    );
}

#[test]
fn test_search_empty_query() {
    check(search::search_numbers("+123", "", ""), "getUserStatus", Reply::Success, r#"{"account":"+123","recipient":[],"username":[]}"#);
}

#[test]
fn test_search_drops_empty_pieces() {
    check(search::search_numbers("+123", ",+1,,+2,", ",,"), "getUserStatus", Reply::Success, r#"{"account":"+123","recipient":["+1","+2"],"username":[]}"#);
}

#[test]
fn test_stickers_list() {
    check(stickers::list_sticker_packs("+123"), "listStickerPacks", Reply::Success, r#"{"account":"+123"}"#);
}

#[test]
fn test_stickers_install() {
    let call = stickers::install_sticker_pack("+123", None, Some(s("abc123")), Some(s("key456"))).unwrap();
    check(call, "addStickerPack", Reply::Created, r#"{"account":"+123","uri":["https://signal.art/addstickers/#pack_id=abc123&pack_key=key456"]}"#);
}

#[test]
fn test_stickers_install_by_uri() {
    let call = stickers::install_sticker_pack("+123", Some(s("https://signal.art/addstickers/#pack_id=abc123&pack_key=key456")), None, None).unwrap();
    check(call, "addStickerPack", Reply::Created, r#"{"account":"+123","uri":["https://signal.art/addstickers/#pack_id=abc123&pack_key=key456"]}"#);
}

#[test]
fn test_stickers_install_uri_wins_over_pack_id() {
    let call = stickers::install_sticker_pack("+123", Some(s("https://signal.art/addstickers/#pack_id=x&pack_key=y")), Some(s("ignored")), None).unwrap();
    check(call, "addStickerPack", Reply::Created, r#"{"account":"+123","uri":["https://signal.art/addstickers/#pack_id=x&pack_key=y"]}"#);
}

#[test]
fn test_stickers_install_missing_fields() {
    let err = stickers::install_sticker_pack("+123", None, None, None).unwrap_err();
    assert_eq!(err, stickers::StickerPackError::NoPackGiven);
    assert_eq!(err.message(), "provide either `uri`, or both `pack_id` and `pack_key`");
    assert_eq!(err.status(), 400);
    assert!(stickers::install_sticker_pack("+123", None, Some(s("id-only")), None).is_err());
    assert!(stickers::install_sticker_pack("+123", None, None, Some(s("key-only"))).is_err());
}

#[test]
fn test_sticker_get() {
    check(stickers::get_sticker("+123", "pack1", 0), "getSticker", Reply::Success, r#"{"account":"+123","pack-id":"pack1","sticker-id":0}"#);
}

#[test]
fn test_send_story_to_group() {
    let attachment = "data:image/png;filename=pic.png;base64,aGVsbG8=";
    let body = stories::send_story_body("+123", attachment);
    assert_eq!(render(&body), r#"{"account":"+123","attachment":["data:image/png;filename=pic.png;base64,aGVsbG8="]}"#);
    let plan = plan_spill(&body);
    let call = expect_call(stories::send_story_step(
        "+123",
        attachment,
        plan,
        Ok(vec![s("outgoing-attachments/1-0.png")]),
        Some(s("g1")),
        Some(true),
    ));
    check(call, "sendStory", Reply::Created, r#"{"account":"+123","attachment":"outgoing-attachments/1-0.png","group-id":"g1","no-replies":true}"#);
}

fn get<'a>(j: &'a Json, key: &str) -> Option<&'a Json> {
    match j {
        Json::Object(entries) => entries.iter().rev().find(|(k, _)| k == key).map(|(_, v)| v),
        _ => None,
    }
}

fn expect_call(step: Step) -> RpcCall {
    match step {
        Step::Call(call) => call,
        Step::Refuse { status, error } => panic!("refused with {status}: {error}"),
    }
}

fn expect_refusal(step: Step) -> (u16, String) {
    match step {
        Step::Refuse { status, error } => (status, error),
        Step::Call(call) => panic!("expected a refusal, got a call of {}", call.method),
    }
}

#[test]
fn test_send_story() {
    let attachment = "data:image/png;filename=pic.png;base64,aGVsbG8=";
    let body = stories::send_story_body("+123", attachment);
    let plan = plan_spill(&body);
    let files = &plan.as_ref().unwrap().files;
    assert_eq!(files.len(), 1);
    assert_eq!(files[0].bytes, b"hello".to_vec());
    assert_eq!(files[0].extension, "png");
    let path = attachment_file_path(4242, 0, &files[0].extension);
    assert!(path.ends_with(".png"));
    let call = expect_call(stories::send_story_step("+123", attachment, plan, Ok(vec![path.clone()]), None, None));
    check(call, "sendStory", Reply::Created, r#"{"account":"+123","attachment":"outgoing-attachments/4242-0.png"}"#);
    let mut m = Metrics::new();
    let answer = finish_call(&mut m, Reply::Created, false, Ok(Json::Object(vec![(s("timestamp"), Json::Int(1234567890))])));
    assert_eq!(answer.status, 201);
    assert!(matches!(get(answer.body.as_ref().unwrap(), "timestamp"), Some(Json::Int(1234567890))));
}

#[test]
fn test_send_story_path_attachment() {
    let body = stories::send_story_body("+123", "/tmp/pic.png");
    check(stories::send_story(body, None, Some(false)), "sendStory", Reply::Created, r#"{"account":"+123","attachment":"/tmp/pic.png"}"#);
}

#[test]
fn test_send_story_invalid_base64_refused_with_400() {
    let attachment = "data:image/png;filename=pic.png;base64,***";
    let plan = plan_spill(&stories::send_story_body("+123", attachment));
    assert!(plan.is_err());
    let (status, error) = expect_refusal(stories::send_story_step("+123", attachment, plan, Ok(Vec::new()), None, None));
    assert_eq!(status, 400);
    assert!(!error.is_empty());
}

#[test]
fn test_send_story_write_failure_refused_with_400() {
    let attachment = "data:image/png;base64,aGVsbG8=";
    let plan = plan_spill(&stories::send_story_body("+123", attachment));
    let (status, error) = expect_refusal(stories::send_story_step("+123", attachment, plan, Err(s("disk full")), None, None));
    assert_eq!((status, error.as_str()), (400, "disk full"));
}

#[test]
fn test_profiles_update_with_avatar() {
    let bytes = decode_avatar("aGVsbG8=").unwrap();
    assert_eq!(bytes, b"hello".to_vec());
    let path = avatar_file_path(9, 1);
    let call = expect_call(profiles::update_profile_step("+123", Some(s("My Name")), None, AvatarOutcome::Written(path)));
    check(call, "updateProfile", Reply::Success, r#"{"account":"+123","avatar":"outgoing-attachments/avatar-9-1.jpg","given-name":"My Name"}"#);
}

#[test]
fn test_profiles_update_invalid_avatar_refused_with_400() {
    let err = decode_avatar("not base64!").unwrap_err();
    let (status, error) = expect_refusal(profiles::update_profile_step("+123", Some(s("My Name")), None, AvatarOutcome::Invalid(err)));
    assert_eq!(status, 400);
    assert!(!error.is_empty());
    let (status, error) = expect_refusal(profiles::update_profile_step("+123", None, None, AvatarOutcome::WriteFailed(s("read-only file system"))));
    assert_eq!((status, error.as_str()), (400, "read-only file system"));
}

#[test]
fn test_profiles_update_without_avatar_step() {
    let call = expect_call(profiles::update_profile_step("+123", None, Some(s("hi")), AvatarOutcome::NotGiven));
    check(call, "updateProfile", Reply::Success, r#"{"about":"hi","account":"+123"}"#);
}

#[test]
fn test_groups_update_with_avatar_step() {
    let call = expect_call(groups::update_group_step("+123", "g1", None, None, AvatarOutcome::Written(avatar_file_path(3, 4)), None, None));
    check(call, "updateGroup", Reply::Success, r#"{"account":"+123","avatar":"outgoing-attachments/avatar-3-4.jpg","group-id":"g1"}"#);
    let err = decode_avatar("%%%").unwrap_err();
    let (status, _) = expect_refusal(groups::update_group_step("+123", "g1", Some(s("N")), None, AvatarOutcome::Invalid(err), None, None));
    assert_eq!(status, 400);
}

#[test]
fn test_groups_avatar() {
    check(groups::get_group_avatar("+123", "g1"), "getAvatar", Reply::Success, r#"{"account":"+123","group-id":"g1"}"#);
}

#[test]
fn test_groups_admin_delete_message() {
    check(
        groups::admin_delete_message("+123", "g1", "+9999", 12345),
        "sendAdminDelete",
        Reply::Success,
        r#"{"account":"+123","group-id":"g1","target-author":"+9999","target-timestamp":12345}"#,
    );
}

fn members(j: &Json) -> Vec<String> {
    match j {
        Json::Object(entries) => entries.iter().map(|(k, _)| k.clone()).collect(),
        other => panic!("not an object: {:?}", other),
    }
}

#[test]
fn test_openapi() {
    let doc = openapi_spec("0.1.0");
    assert!(matches!(get(&doc, "openapi"), Some(Json::Str(v)) if v == "3.0.3"));
    assert!(get(&doc, "info").is_some());
    assert!(get(&doc, "paths").is_some());
    assert!(get(&doc, "components").is_some());
}

#[test]
fn test_openapi_has_required_paths() {
    let doc = openapi_spec("0.1.0");
    let paths = members(get(&doc, "paths").unwrap());
    for p in ["/v2/send", "/v1/health", "/v1/about", "/v1/webhooks", "/metrics"] {
        assert!(paths.iter().any(|x| x == p), "missing {p}");
    }
}

#[test]
fn test_openapi_info_metadata() {
    let doc = openapi_spec("2.5.1");
    let info = get(&doc, "info").unwrap();
    assert!(matches!(get(info, "title"), Some(Json::Str(_))));
    assert!(matches!(get(info, "version"), Some(Json::Str(v)) if v == "2.5.1"));
}

#[test]
fn test_openapi_paths_have_methods() {
    let doc = openapi_spec("0.1.0");
    let paths = get(&doc, "paths").unwrap();
    let names = members(paths);
    assert_eq!(names.len(), 35);
    for p in names {
        let ops = members(get(paths, &p).unwrap());
        assert!(!ops.is_empty(), "Path {p} has no HTTP methods defined");
        assert!(ops.iter().any(|o| ["get", "post", "put", "delete"].contains(&o.as_str())));
    }
}

#[test]
fn test_system_version() {
    check(system::version(), "version", Reply::Success, "{}");
}

#[test]
fn test_about() {
    let info = system::about("0.1.0", "x86_64", "linux");
    assert_eq!(render(&info), r#"{"build":{"os":"linux","target":"x86_64"},"versions":{"signal-cli-api":"0.1.0"}}"#);
}

#[test]
fn test_reply_statuses() {
    assert_eq!(Reply::Success.status(), 200);
    assert_eq!(Reply::Created.status(), 201);
    assert_eq!(Reply::NoContent.status(), 204);
}

#[test]
fn test_websocket_steps() {
    match ws_next(WsEvent::Broadcast("{\"envelope\":{}}".to_string())) {
        WsAction::Send(text) => assert_eq!(text, "{\"envelope\":{}}"),
        other => panic!("expected a send, got {:?}", other),
    }
    assert!(matches!(ws_next(WsEvent::Lagged), WsAction::Wait));
    assert!(matches!(ws_next(WsEvent::ClientFrame), WsAction::Wait));
    assert!(matches!(ws_next(WsEvent::ClientClosed), WsAction::Stop));
    assert!(matches!(ws_next(WsEvent::ClientGone), WsAction::Stop));
    assert!(matches!(ws_next(WsEvent::BroadcastClosed), WsAction::Stop));
    assert!(matches!(ws_next(WsEvent::SendFailed), WsAction::Stop));
}

#[test]
fn test_websocket_rapid_broadcast() {
    let mut events: Vec<WsEvent> = Vec::new();
    for i in 0..50 {
        events.push(WsEvent::Broadcast(format!("{{\"seq\":{i}}}")));
        if i % 7 == 0 {
            events.push(WsEvent::ClientFrame);
        }
        if i % 11 == 0 {
            events.push(WsEvent::Lagged);
        }
    }
    events.push(WsEvent::ClientClosed);
    events.push(WsEvent::Broadcast("after close".to_string()));
    let mut sent: Vec<String> = Vec::new();
    for e in events {
        match ws_next(e) {
            WsAction::Send(t) => sent.push(t),
            WsAction::Wait => {}
            WsAction::Stop => break,
        }
    }
    let expected: Vec<String> = (0..50).map(|i| format!("{{\"seq\":{i}}}")).collect();
    assert_eq!(sent, expected);
}
