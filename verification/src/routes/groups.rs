//! Group endpoints.

use vstd::prelude::*;

use crate::json::{fields, opt_str, opt_u64, put_opt, str_list_view, Json, JsonView};
use crate::routes::{
    avatar_path_of, is_call, is_refusal, refuses_with, AvatarOutcome, Reply, RpcCall, Step,
};

verus! {

/// GET /v1/groups/{number}: the groups of the account.
pub fn list_groups(number: &str) -> (call: RpcCall)
    ensures
        call.method@ == "listGroups"@,
        call.reply == Reply::Success,
        call.params@ == JsonView::Object(map!["account"@ => JsonView::Str(number@)]),
{
    let mut params = Json::empty_object();
    params.set("account", Json::text(number));
    RpcCall::new("listGroups", params, Reply::Success)
}

/// GET /v1/groups/{number}/{groupid}: one group.
pub fn get_group(number: &str, groupid: &str) -> (call: RpcCall)
    ensures
        call.method@ == "listGroups"@,
        call.reply == Reply::Success,
        call.params@ == JsonView::Object(
            map!["account"@ => JsonView::Str(number@), "group-id"@ => JsonView::Str(groupid@)],
        ),
{
    let mut params = Json::empty_object();
    params.set("account", Json::text(number));
    params.set("group-id", Json::text(groupid));
    RpcCall::new("listGroups", params, Reply::Success)
}

/// DELETE /v1/groups/{number}/{groupid}: leaves the group and deletes it locally.
pub fn delete_group(number: &str, groupid: &str) -> (call: RpcCall)
    ensures
        call.method@ == "quitGroup"@,
        call.reply == Reply::Success,
        call.params@ == JsonView::Object(
            map![
                "account"@ => JsonView::Str(number@),
                "group-id"@ => JsonView::Str(groupid@),
                "delete"@ => JsonView::Bool(true),
            ],
        ),
{
    let mut params = Json::empty_object();
    params.set("account", Json::text(number));
    params.set("group-id", Json::text(groupid));
    params.set("delete", Json::Bool(true));
    RpcCall::new("quitGroup", params, Reply::Success)
}

/// POST /v1/groups/{number}/{groupid}/members: adds members.
pub fn add_members(number: &str, groupid: &str, members: &Vec<String>) -> (call: RpcCall)
    ensures
        call.method@ == "updateGroup"@,
        call.reply == Reply::Success,
        call.params@ == JsonView::Object(
            map![
                "account"@ => JsonView::Str(number@),
                "group-id"@ => JsonView::Str(groupid@),
                "addMember"@ => str_list_view(members@),
            ],
        ),
{
    let mut params = Json::empty_object();
    params.set("account", Json::text(number));
    params.set("group-id", Json::text(groupid));
    params.set("addMember", Json::text_list(members));
    RpcCall::new("updateGroup", params, Reply::Success)
}

/// DELETE /v1/groups/{number}/{groupid}/members: removes members.
pub fn remove_members(number: &str, groupid: &str, members: &Vec<String>) -> (call: RpcCall)
    ensures
        call.method@ == "updateGroup"@,
        call.reply == Reply::Success,
        call.params@ == JsonView::Object(
            map![
                "account"@ => JsonView::Str(number@),
                "group-id"@ => JsonView::Str(groupid@),
                "removeMember"@ => str_list_view(members@),
            ],
        ),
{
    let mut params = Json::empty_object();
    params.set("account", Json::text(number));
    params.set("group-id", Json::text(groupid));
    params.set("removeMember", Json::text_list(members));
    RpcCall::new("updateGroup", params, Reply::Success)
}

/// POST /v1/groups/{number}/{groupid}/admins: makes members admins.
pub fn add_admins(number: &str, groupid: &str, admins: &Vec<String>) -> (call: RpcCall)
    ensures
        call.method@ == "updateGroup"@,
        call.reply == Reply::Success,
        call.params@ == JsonView::Object(
            map![
                "account"@ => JsonView::Str(number@),
                "group-id"@ => JsonView::Str(groupid@),
                "addAdmin"@ => str_list_view(admins@),
            ],
        ),
{
    let mut params = Json::empty_object();
    params.set("account", Json::text(number));
    params.set("group-id", Json::text(groupid));
    params.set("addAdmin", Json::text_list(admins));
    RpcCall::new("updateGroup", params, Reply::Success)
}

/// DELETE /v1/groups/{number}/{groupid}/admins: takes admin rights away.
pub fn remove_admins(number: &str, groupid: &str, admins: &Vec<String>) -> (call: RpcCall)
    ensures
        call.method@ == "updateGroup"@,
        call.reply == Reply::Success,
        call.params@ == JsonView::Object(
            map![
                "account"@ => JsonView::Str(number@),
                "group-id"@ => JsonView::Str(groupid@),
                "removeAdmin"@ => str_list_view(admins@),
            ],
        ),
{
    let mut params = Json::empty_object();
    params.set("account", Json::text(number));
    params.set("group-id", Json::text(groupid));
    params.set("removeAdmin", Json::text_list(admins));
    RpcCall::new("updateGroup", params, Reply::Success)
}

/// POST /v1/groups/{number}/{groupid}/join: joins a group.
pub fn join_group(number: &str, groupid: &str) -> (call: RpcCall)
    ensures
        call.method@ == "joinGroup"@,
        call.reply == Reply::Success,
        call.params@ == JsonView::Object(
            map!["account"@ => JsonView::Str(number@), "group-id"@ => JsonView::Str(groupid@)],
        ),
{
    let mut params = Json::empty_object();
    params.set("account", Json::text(number));
    params.set("group-id", Json::text(groupid));
    RpcCall::new("joinGroup", params, Reply::Success)
}

/// POST /v1/groups/{number}/{groupid}/quit: leaves a group.
pub fn quit_group(number: &str, groupid: &str) -> (call: RpcCall)
    ensures
        call.method@ == "quitGroup"@,
        call.reply == Reply::Success,
        call.params@ == JsonView::Object(
            map!["account"@ => JsonView::Str(number@), "group-id"@ => JsonView::Str(groupid@)],
        ),
{
    let mut params = Json::empty_object();
    params.set("account", Json::text(number));
    params.set("group-id", Json::text(groupid));
    RpcCall::new("quitGroup", params, Reply::Success)
}

/// POST /v1/groups/{number}/{groupid}/block: blocks a group.
pub fn block_group(number: &str, groupid: &str) -> (call: RpcCall)
    ensures
        call.method@ == "block"@,
        call.reply == Reply::Success,
        call.params@ == JsonView::Object(
            map!["account"@ => JsonView::Str(number@), "group-id"@ => JsonView::Str(groupid@)],
        ),
{
    let mut params = Json::empty_object();
    params.set("account", Json::text(number));
    params.set("group-id", Json::text(groupid));
    RpcCall::new("block", params, Reply::Success)
}

/// Who may add members and who may edit a group's details.
#[derive(Clone, Debug)]
pub struct GroupPermissions {
    pub add_members: Option<String>,
    pub edit_details: Option<String>,
}

/// The add-members permission, where one is given.
pub open spec fn permission_add(p: Option<GroupPermissions>) -> Option<JsonView> {
    match p {
        Some(g) => opt_str(g.add_members),
        None => None,
    }
}

/// The edit-details permission, where one is given.
pub open spec fn permission_edit(p: Option<GroupPermissions>) -> Option<JsonView> {
    match p {
        Some(g) => opt_str(g.edit_details),
        None => None,
    }
}

fn set_permissions(params: &mut Json, permissions: Option<GroupPermissions>)
    requires
        *old(params) is Object,
    ensures
        *final(params) is Object,
        final(params)@ == JsonView::Object(
            put_opt(
                put_opt(fields(old(params)@), "set-permission-add-member"@, permission_add(permissions)),
                "set-permission-edit-details"@,
                permission_edit(permissions),
            ),
        ),
{
    if let Some(perms) = permissions {
        let GroupPermissions { add_members, edit_details } = perms;
        if let Some(add) = add_members {
            params.set("set-permission-add-member", Json::Str(add));
        }
        if let Some(edit) = edit_details {
            params.set("set-permission-edit-details", Json::Str(edit));
        }
    }
}

/// POST /v1/groups/{number}: creates a group with `members`.
pub fn create_group(
    number: &str,
    name: &str,
    members: &Vec<String>,
    description: Option<String>,
    permissions: Option<GroupPermissions>,
) -> (call: RpcCall)
    ensures
        call.method@ == "updateGroup"@,
        call.reply == Reply::Created,
        call.params@ == JsonView::Object(
            put_opt(
                put_opt(
                    put_opt(
                        map![
                            "account"@ => JsonView::Str(number@),
                            "name"@ => JsonView::Str(name@),
                            "member"@ => str_list_view(members@),
                        ],
                        "description"@,
                        opt_str(description),
                    ),
                    "set-permission-add-member"@,
                    permission_add(permissions),
                ),
                "set-permission-edit-details"@,
                permission_edit(permissions),
            ),
        ),
{
    let mut params = Json::empty_object();
    params.set("account", Json::text(number));
    params.set("name", Json::text(name));
    params.set("member", Json::text_list(members));
    if let Some(desc) = description {
        params.set("description", Json::Str(desc));
    }
    set_permissions(&mut params, permissions);
    RpcCall::new("updateGroup", params, Reply::Created)
}

/// The parameters of `updateGroup` for a group update: the account and the group, then
/// the name, description, avatar file, expiration and permissions where given.
pub open spec fn group_update_params(
    number: Seq<char>,
    groupid: Seq<char>,
    name: Option<String>,
    description: Option<String>,
    avatar_path: Option<String>,
    expiration: Option<u64>,
    permissions: Option<GroupPermissions>,
) -> JsonView {
    JsonView::Object(
        put_opt(
            put_opt(
                put_opt(
                    put_opt(
                        put_opt(
                            put_opt(
                                map![
                                    "account"@ => JsonView::Str(number),
                                    "group-id"@ => JsonView::Str(groupid),
                                ],
                                "name"@,
                                opt_str(name),
                            ),
                            "description"@,
                            opt_str(description),
                        ),
                        "avatar"@,
                        opt_str(avatar_path),
                    ),
                    "expiration"@,
                    opt_u64(expiration),
                ),
                "set-permission-add-member"@,
                permission_add(permissions),
            ),
            "set-permission-edit-details"@,
            permission_edit(permissions),
        ),
    )
}

/// PUT /v1/groups/{number}/{groupid}: updates a group; `avatar_path` is the file that the
/// avatar was written to.
pub fn update_group(
    number: &str,
    groupid: &str,
    name: Option<String>,
    description: Option<String>,
    avatar_path: Option<String>,
    expiration: Option<u64>,
    permissions: Option<GroupPermissions>,
) -> (call: RpcCall)
    ensures
        call.method@ == "updateGroup"@,
        call.reply == Reply::Success,
        call.params@ == group_update_params(
            number@,
            groupid@,
            name,
            description,
            avatar_path,
            expiration,
            permissions,
        ),
{
    let mut params = Json::empty_object();
    params.set("account", Json::text(number));
    params.set("group-id", Json::text(groupid));
    if let Some(v) = name {
        params.set("name", Json::Str(v));
    }
    if let Some(v) = description {
        params.set("description", Json::Str(v));
    }
    if let Some(v) = avatar_path {
        params.set("avatar", Json::Str(v));
    }
    if let Some(v) = expiration {
        params.set("expiration", Json::Int(v as i128));
    }
    set_permissions(&mut params, permissions);
    RpcCall::new("updateGroup", params, Reply::Success)
}

/// What an `updateGroup` call for a group update carries: the account and the group, and
/// each of the name, description, avatar file, expiration, add-members permission and
/// edit-details permission exactly when it is given, with its value.
pub proof fn lemma_group_update_params(
    number: Seq<char>,
    groupid: Seq<char>,
    name: Option<String>,
    description: Option<String>,
    avatar_path: Option<String>,
    expiration: Option<u64>,
    permissions: Option<GroupPermissions>,
)
    ensures
        ({
            let f = fields(
                group_update_params(
                    number,
                    groupid,
                    name,
                    description,
                    avatar_path,
                    expiration,
                    permissions,
                ),
            );
            &&& f.contains_key("account"@) && f["account"@] == JsonView::Str(number)
            &&& f.contains_key("group-id"@) && f["group-id"@] == JsonView::Str(groupid)
            &&& f.contains_key("name"@) == name is Some
            &&& name matches Some(n) ==> f["name"@] == JsonView::Str(n@)
            &&& f.contains_key("description"@) == description is Some
            &&& description matches Some(d) ==> f["description"@] == JsonView::Str(d@)
            &&& f.contains_key("avatar"@) == avatar_path is Some
            &&& avatar_path matches Some(a) ==> f["avatar"@] == JsonView::Str(a@)
            &&& f.contains_key("expiration"@) == expiration is Some
            &&& expiration matches Some(e) ==> f["expiration"@] == JsonView::Int(e as int)
            &&& f.contains_key("set-permission-add-member"@) == (permissions matches Some(p)
                && p.add_members is Some)
            &&& permissions matches Some(p) ==> (p.add_members matches Some(a) ==> f["set-permission-add-member"@]
                == JsonView::Str(a@))
            &&& f.contains_key("set-permission-edit-details"@) == (permissions matches Some(p)
                && p.edit_details is Some)
            &&& permissions matches Some(p) ==> (p.edit_details matches Some(e) ==> f["set-permission-edit-details"@]
                == JsonView::Str(e@))
        }),
{
    reveal_strlit("account");
    reveal_strlit("group-id");
    reveal_strlit("name");
    reveal_strlit("description");
    reveal_strlit("avatar");
    reveal_strlit("expiration");
    reveal_strlit("set-permission-add-member");
    reveal_strlit("set-permission-edit-details");
    let keys = seq![
        "account"@,
        "group-id"@,
        "name"@,
        "description"@,
        "avatar"@,
        "expiration"@,
        "set-permission-add-member"@,
        "set-permission-edit-details"@,
    ];
    assert(keys[0].len() == 7 && keys[1].len() == 8 && keys[2].len() == 4 && keys[3].len() == 11);
    assert(keys[4].len() == 6 && keys[5].len() == 10 && keys[6].len() == 25 && keys[7].len() == 27);
}

/// PUT /v1/groups/{number}/{groupid}, given what became of the avatar: an avatar that is
/// not valid base64, or that could not be written to a file, refuses the request with
/// 400 before any call; otherwise the `updateGroup` call of `update_group`, with the
/// avatar's file where one was written.
pub fn update_group_step(
    number: &str,
    groupid: &str,
    name: Option<String>,
    description: Option<String>,
    avatar: AvatarOutcome,
    expiration: Option<u64>,
    permissions: Option<GroupPermissions>,
) -> (step: Step)
    ensures
        avatar is Invalid ==> refuses_with(step, 400),
        avatar matches AvatarOutcome::WriteFailed(m) ==> is_refusal(step, 400, m@),
        (avatar is NotGiven || avatar is Written) ==> is_call(
            step,
            "updateGroup"@,
            Reply::Success,
            group_update_params(
                number@,
                groupid@,
                name,
                description,
                avatar_path_of(avatar),
                expiration,
                permissions,
            ),
        ),
{
    match avatar {
        AvatarOutcome::Invalid(e) => Step::Refuse { status: 400, error: e.message() },
        AvatarOutcome::WriteFailed(m) => Step::Refuse { status: 400, error: m },
        AvatarOutcome::NotGiven => Step::Call(
            update_group(number, groupid, name, description, None, expiration, permissions),
        ),
        AvatarOutcome::Written(p) => Step::Call(
            update_group(number, groupid, name, description, Some(p), expiration, permissions),
        ),
    }
}

/// GET /v1/groups/{number}/{groupid}/avatar: `getAvatar` for the group.
pub fn get_group_avatar(number: &str, groupid: &str) -> (call: RpcCall)
    ensures
        call.method@ == "getAvatar"@,
        call.reply == Reply::Success,
        call.params@ == JsonView::Object(
            map!["account"@ => JsonView::Str(number@), "group-id"@ => JsonView::Str(groupid@)],
        ),
{
    let mut params = Json::empty_object();
    params.set("account", Json::text(number));
    params.set("group-id", Json::text(groupid));
    RpcCall::new("getAvatar", params, Reply::Success)
}

/// DELETE /v1/groups/{number}/{groupid}/messages: `sendAdminDelete`, deleting for the
/// whole group the message that `target_author` sent at `target_timestamp`.
pub fn admin_delete_message(
    number: &str,
    groupid: &str,
    target_author: &str,
    target_timestamp: u64,
) -> (call: RpcCall)
    ensures
        call.method@ == "sendAdminDelete"@,
        call.reply == Reply::Success,
        call.params@ == JsonView::Object(
            map![
                "account"@ => JsonView::Str(number@),
                "group-id"@ => JsonView::Str(groupid@),
                "target-author"@ => JsonView::Str(target_author@),
                "target-timestamp"@ => JsonView::Int(target_timestamp as int),
            ],
        ),
{
    let mut params = Json::empty_object();
    params.set("account", Json::text(number));
    params.set("group-id", Json::text(groupid));
    params.set("target-author", Json::text(target_author));
    params.set("target-timestamp", Json::Int(target_timestamp as i128));
    RpcCall::new("sendAdminDelete", params, Reply::Success)
}

} // verus!
