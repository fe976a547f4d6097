//! GET /v1/openapi.json: the OpenAPI description of this API.

use vstd::prelude::*;

use crate::json::{fields, Json, JsonView};

verus! {

/// The operations of `/v2/send`.
pub open spec fn openapi_path_v2_send() -> JsonView {
    JsonView::Object(
        map![
            "post"@ => JsonView::Object(
                map![
                    "tags"@ => JsonView::Array(
                        Seq::empty()
                            .push(JsonView::Str("Messages"@))
                    ),
                    "summary"@ => JsonView::Str("Send a message"@),
                    "description"@ => JsonView::Str("Pure passthrough to signal-cli's `send` JSON-RPC method - the request body is forwarded almost verbatim (attachments are the one exception: large base64 data URIs are spilled to disk first). Any field signal-cli's `send` accepts works here, documented or not; see the README's \"The `send` contract\" section for the full list of confirmed-working fields and why this is a deliberate design choice, not an oversight."@),
                    "operationId"@ => JsonView::Str("send"@),
                    "requestBody"@ => JsonView::Object(
                        map![
                            "required"@ => JsonView::Bool(true),
                            "content"@ => JsonView::Object(
                                map![
                                    "application/json"@ => JsonView::Object(
                                        map![
                                            "schema"@ => JsonView::Object(
                                                map![
                                                    "$ref"@ => JsonView::Str("#/components/schemas/SendPayload"@),
                                                ],
                                            ),
                                        ],
                                    ),
                                ],
                            ),
                        ],
                    ),
                    "responses"@ => JsonView::Object(
                        map![
                            "201"@ => JsonView::Object(
                                map![
                                    "description"@ => JsonView::Str("Message sent"@),
                                ],
                            ),
                            "400"@ => JsonView::Object(
                                map![
                                    "description"@ => JsonView::Str("Invalid request"@),
                                ],
                            ),
                        ],
                    ),
                ],
            ),
        ],
    )
}

fn path_v2_send() -> (r: Json)
    ensures
        r@ == openapi_path_v2_send(),
{
    let mut tags = Json::empty_array();
    tags.push_item(Json::text("Messages"));
    let mut schema = Json::empty_object();
    schema.set("$ref", Json::text("#/components/schemas/SendPayload"));
    let mut application_json = Json::empty_object();
    application_json.set("schema", schema);
    let mut content = Json::empty_object();
    content.set("application/json", application_json);
    let mut requestbody = Json::empty_object();
    requestbody.set("required", Json::Bool(true));
    requestbody.set("content", content);
    let mut status_201 = Json::empty_object();
    status_201.set("description", Json::text("Message sent"));
    let mut status_400 = Json::empty_object();
    status_400.set("description", Json::text("Invalid request"));
    let mut responses = Json::empty_object();
    responses.set("201", status_201);
    responses.set("400", status_400);
    let mut post = Json::empty_object();
    post.set("tags", tags);
    post.set("summary", Json::text("Send a message"));
    post.set("description", Json::text("Pure passthrough to signal-cli's `send` JSON-RPC method - the request body is forwarded almost verbatim (attachments are the one exception: large base64 data URIs are spilled to disk first). Any field signal-cli's `send` accepts works here, documented or not; see the README's \"The `send` contract\" section for the full list of confirmed-working fields and why this is a deliberate design choice, not an oversight."));
    post.set("operationId", Json::text("send"));
    post.set("requestBody", requestbody);
    post.set("responses", responses);
    let mut item = Json::empty_object();
    item.set("post", post);
    item
}

/// The operations of `/v1/send`.
pub open spec fn openapi_path_v1_send() -> JsonView {
    JsonView::Object(
        map![
            "post"@ => JsonView::Object(
                map![
                    "tags"@ => JsonView::Array(
                        Seq::empty()
                            .push(JsonView::Str("Messages"@))
                    ),
                    "summary"@ => JsonView::Str("Send a message (deprecated alias of /v2/send)"@),
                    "description"@ => JsonView::Str("Identical passthrough behavior to /v2/send. Kept for backward compatibility."@),
                    "operationId"@ => JsonView::Str("sendV1"@),
                    "requestBody"@ => JsonView::Object(
                        map![
                            "required"@ => JsonView::Bool(true),
                            "content"@ => JsonView::Object(
                                map![
                                    "application/json"@ => JsonView::Object(
                                        map![
                                            "schema"@ => JsonView::Object(
                                                map![
                                                    "$ref"@ => JsonView::Str("#/components/schemas/SendPayload"@),
                                                ],
                                            ),
                                        ],
                                    ),
                                ],
                            ),
                        ],
                    ),
                    "responses"@ => JsonView::Object(
                        map![
                            "201"@ => JsonView::Object(
                                map![
                                    "description"@ => JsonView::Str("Message sent"@),
                                ],
                            ),
                            "400"@ => JsonView::Object(
                                map![
                                    "description"@ => JsonView::Str("Invalid request"@),
                                ],
                            ),
                        ],
                    ),
                ],
            ),
        ],
    )
}

fn path_v1_send() -> (r: Json)
    ensures
        r@ == openapi_path_v1_send(),
{
    let mut tags = Json::empty_array();
    tags.push_item(Json::text("Messages"));
    let mut schema = Json::empty_object();
    schema.set("$ref", Json::text("#/components/schemas/SendPayload"));
    let mut application_json = Json::empty_object();
    application_json.set("schema", schema);
    let mut content = Json::empty_object();
    content.set("application/json", application_json);
    let mut requestbody = Json::empty_object();
    requestbody.set("required", Json::Bool(true));
    requestbody.set("content", content);
    let mut status_201 = Json::empty_object();
    status_201.set("description", Json::text("Message sent"));
    let mut status_400 = Json::empty_object();
    status_400.set("description", Json::text("Invalid request"));
    let mut responses = Json::empty_object();
    responses.set("201", status_201);
    responses.set("400", status_400);
    let mut post = Json::empty_object();
    post.set("tags", tags);
    post.set("summary", Json::text("Send a message (deprecated alias of /v2/send)"));
    post.set("description", Json::text("Identical passthrough behavior to /v2/send. Kept for backward compatibility."));
    post.set("operationId", Json::text("sendV1"));
    post.set("requestBody", requestbody);
    post.set("responses", responses);
    let mut item = Json::empty_object();
    item.set("post", post);
    item
}

/// The operations of `/v1/receive/{number}`.
pub open spec fn openapi_path_v1_receive_number() -> JsonView {
    JsonView::Object(
        map![
            "get"@ => JsonView::Object(
                map![
                    "tags"@ => JsonView::Array(
                        Seq::empty()
                            .push(JsonView::Str("Messages"@))
                    ),
                    "summary"@ => JsonView::Str("Receive messages"@),
                    "operationId"@ => JsonView::Str("receive"@),
                    "parameters"@ => JsonView::Array(
                        Seq::empty()
                            .push(JsonView::Object(
                                map![
                                    "name"@ => JsonView::Str("number"@),
                                    "in"@ => JsonView::Str("path"@),
                                    "required"@ => JsonView::Bool(true),
                                    "schema"@ => JsonView::Object(
                                        map![
                                            "type"@ => JsonView::Str("string"@),
                                        ],
                                    ),
                                ],
                            ))
                    ),
                    "responses"@ => JsonView::Object(
                        map![
                            "200"@ => JsonView::Object(
                                map![
                                    "description"@ => JsonView::Str("Array of messages"@),
                                ],
                            ),
                        ],
                    ),
                ],
            ),
        ],
    )
}

fn path_v1_receive_number() -> (r: Json)
    ensures
        r@ == openapi_path_v1_receive_number(),
{
    let mut tags = Json::empty_array();
    tags.push_item(Json::text("Messages"));
    let mut schema = Json::empty_object();
    schema.set("type", Json::text("string"));
    let mut parameters_entry = Json::empty_object();
    parameters_entry.set("name", Json::text("number"));
    parameters_entry.set("in", Json::text("path"));
    parameters_entry.set("required", Json::Bool(true));
    parameters_entry.set("schema", schema);
    let mut parameters = Json::empty_array();
    parameters.push_item(parameters_entry);
    let mut status_200 = Json::empty_object();
    status_200.set("description", Json::text("Array of messages"));
    let mut responses = Json::empty_object();
    responses.set("200", status_200);
    let mut get = Json::empty_object();
    get.set("tags", tags);
    get.set("summary", Json::text("Receive messages"));
    get.set("operationId", Json::text("receive"));
    get.set("parameters", parameters);
    get.set("responses", responses);
    let mut item = Json::empty_object();
    item.set("get", get);
    item
}

/// The operations of `/v1/remote-delete/{number}`.
pub open spec fn openapi_path_v1_remote_delete_number() -> JsonView {
    JsonView::Object(
        map![
            "delete"@ => JsonView::Object(
                map![
                    "tags"@ => JsonView::Array(
                        Seq::empty()
                            .push(JsonView::Str("Messages"@))
                    ),
                    "summary"@ => JsonView::Str("Remotely delete a sent message"@),
                    "operationId"@ => JsonView::Str("remoteDelete"@),
                    "parameters"@ => JsonView::Array(
                        Seq::empty()
                            .push(JsonView::Object(
                                map![
                                    "name"@ => JsonView::Str("number"@),
                                    "in"@ => JsonView::Str("path"@),
                                    "required"@ => JsonView::Bool(true),
                                    "schema"@ => JsonView::Object(
                                        map![
                                            "type"@ => JsonView::Str("string"@),
                                        ],
                                    ),
                                ],
                            ))
                    ),
                    "responses"@ => JsonView::Object(
                        map![
                            "200"@ => JsonView::Object(
                                map![
                                    "description"@ => JsonView::Str("Delete sent"@),
                                ],
                            ),
                        ],
                    ),
                ],
            ),
        ],
    )
}

fn path_v1_remote_delete_number() -> (r: Json)
    ensures
        r@ == openapi_path_v1_remote_delete_number(),
{
    let mut tags = Json::empty_array();
    tags.push_item(Json::text("Messages"));
    let mut schema = Json::empty_object();
    schema.set("type", Json::text("string"));
    let mut parameters_entry = Json::empty_object();
    parameters_entry.set("name", Json::text("number"));
    parameters_entry.set("in", Json::text("path"));
    parameters_entry.set("required", Json::Bool(true));
    parameters_entry.set("schema", schema);
    let mut parameters = Json::empty_array();
    parameters.push_item(parameters_entry);
    let mut status_200 = Json::empty_object();
    status_200.set("description", Json::text("Delete sent"));
    let mut responses = Json::empty_object();
    responses.set("200", status_200);
    let mut delete = Json::empty_object();
    delete.set("tags", tags);
    delete.set("summary", Json::text("Remotely delete a sent message"));
    delete.set("operationId", Json::text("remoteDelete"));
    delete.set("parameters", parameters);
    delete.set("responses", responses);
    let mut item = Json::empty_object();
    item.set("delete", delete);
    item
}

/// The operations of `/v1/health`.
pub open spec fn openapi_path_v1_health() -> JsonView {
    JsonView::Object(
        map![
            "get"@ => JsonView::Object(
                map![
                    "tags"@ => JsonView::Array(
                        Seq::empty()
                            .push(JsonView::Str("System"@))
                    ),
                    "summary"@ => JsonView::Str("Health check"@),
                    "operationId"@ => JsonView::Str("health"@),
                    "responses"@ => JsonView::Object(
                        map![
                            "204"@ => JsonView::Object(
                                map![
                                    "description"@ => JsonView::Str("Healthy"@),
                                ],
                            ),
                        ],
                    ),
                ],
            ),
        ],
    )
}

fn path_v1_health() -> (r: Json)
    ensures
        r@ == openapi_path_v1_health(),
{
    let mut tags = Json::empty_array();
    tags.push_item(Json::text("System"));
    let mut status_204 = Json::empty_object();
    status_204.set("description", Json::text("Healthy"));
    let mut responses = Json::empty_object();
    responses.set("204", status_204);
    let mut get = Json::empty_object();
    get.set("tags", tags);
    get.set("summary", Json::text("Health check"));
    get.set("operationId", Json::text("health"));
    get.set("responses", responses);
    let mut item = Json::empty_object();
    item.set("get", get);
    item
}

/// The operations of `/v1/about`.
pub open spec fn openapi_path_v1_about() -> JsonView {
    JsonView::Object(
        map![
            "get"@ => JsonView::Object(
                map![
                    "tags"@ => JsonView::Array(
                        Seq::empty()
                            .push(JsonView::Str("System"@))
                    ),
                    "summary"@ => JsonView::Str("API version info"@),
                    "operationId"@ => JsonView::Str("about"@),
                    "responses"@ => JsonView::Object(
                        map![
                            "200"@ => JsonView::Object(
                                map![
                                    "description"@ => JsonView::Str("Version information"@),
                                ],
                            ),
                        ],
                    ),
                ],
            ),
        ],
    )
}

fn path_v1_about() -> (r: Json)
    ensures
        r@ == openapi_path_v1_about(),
{
    let mut tags = Json::empty_array();
    tags.push_item(Json::text("System"));
    let mut status_200 = Json::empty_object();
    status_200.set("description", Json::text("Version information"));
    let mut responses = Json::empty_object();
    responses.set("200", status_200);
    let mut get = Json::empty_object();
    get.set("tags", tags);
    get.set("summary", Json::text("API version info"));
    get.set("operationId", Json::text("about"));
    get.set("responses", responses);
    let mut item = Json::empty_object();
    item.set("get", get);
    item
}

/// The operations of `/v1/version`.
pub open spec fn openapi_path_v1_version() -> JsonView {
    JsonView::Object(
        map![
            "get"@ => JsonView::Object(
                map![
                    "tags"@ => JsonView::Array(
                        Seq::empty()
                            .push(JsonView::Str("System"@))
                    ),
                    "summary"@ => JsonView::Str("signal-cli's own reported version"@),
                    "description"@ => JsonView::Str("Backed by signal-cli's `version` JSON-RPC method, distinct from /v1/about which reports this wrapper's own build info."@),
                    "operationId"@ => JsonView::Str("version"@),
                    "responses"@ => JsonView::Object(
                        map![
                            "200"@ => JsonView::Object(
                                map![
                                    "description"@ => JsonView::Str("signal-cli version information"@),
                                ],
                            ),
                        ],
                    ),
                ],
            ),
        ],
    )
}

fn path_v1_version() -> (r: Json)
    ensures
        r@ == openapi_path_v1_version(),
{
    let mut tags = Json::empty_array();
    tags.push_item(Json::text("System"));
    let mut status_200 = Json::empty_object();
    status_200.set("description", Json::text("signal-cli version information"));
    let mut responses = Json::empty_object();
    responses.set("200", status_200);
    let mut get = Json::empty_object();
    get.set("tags", tags);
    get.set("summary", Json::text("signal-cli's own reported version"));
    get.set("description", Json::text("Backed by signal-cli's `version` JSON-RPC method, distinct from /v1/about which reports this wrapper's own build info."));
    get.set("operationId", Json::text("version"));
    get.set("responses", responses);
    let mut item = Json::empty_object();
    item.set("get", get);
    item
}

/// The operations of `/v1/groups/{number}`.
pub open spec fn openapi_path_v1_groups_number() -> JsonView {
    JsonView::Object(
        map![
            "get"@ => JsonView::Object(
                map![
                    "tags"@ => JsonView::Array(
                        Seq::empty()
                            .push(JsonView::Str("Groups"@))
                    ),
                    "summary"@ => JsonView::Str("List groups for an account"@),
                    "operationId"@ => JsonView::Str("listGroups"@),
                    "parameters"@ => JsonView::Array(
                        Seq::empty()
                            .push(JsonView::Object(
                                map![
                                    "name"@ => JsonView::Str("number"@),
                                    "in"@ => JsonView::Str("path"@),
                                    "required"@ => JsonView::Bool(true),
                                    "schema"@ => JsonView::Object(
                                        map![
                                            "type"@ => JsonView::Str("string"@),
                                        ],
                                    ),
                                ],
                            ))
                    ),
                    "responses"@ => JsonView::Object(
                        map![
                            "200"@ => JsonView::Object(
                                map![
                                    "description"@ => JsonView::Str("Array of groups"@),
                                ],
                            ),
                        ],
                    ),
                ],
            ),
        ],
    )
}

fn path_v1_groups_number() -> (r: Json)
    ensures
        r@ == openapi_path_v1_groups_number(),
{
    let mut tags = Json::empty_array();
    tags.push_item(Json::text("Groups"));
    let mut schema = Json::empty_object();
    schema.set("type", Json::text("string"));
    let mut parameters_entry = Json::empty_object();
    parameters_entry.set("name", Json::text("number"));
    parameters_entry.set("in", Json::text("path"));
    parameters_entry.set("required", Json::Bool(true));
    parameters_entry.set("schema", schema);
    let mut parameters = Json::empty_array();
    parameters.push_item(parameters_entry);
    let mut status_200 = Json::empty_object();
    status_200.set("description", Json::text("Array of groups"));
    let mut responses = Json::empty_object();
    responses.set("200", status_200);
    let mut get = Json::empty_object();
    get.set("tags", tags);
    get.set("summary", Json::text("List groups for an account"));
    get.set("operationId", Json::text("listGroups"));
    get.set("parameters", parameters);
    get.set("responses", responses);
    let mut item = Json::empty_object();
    item.set("get", get);
    item
}

/// The operations of `/v1/groups/{number}/{groupid}/avatar`.
pub open spec fn openapi_path_v1_groups_number_groupid_avatar() -> JsonView {
    JsonView::Object(
        map![
            "get"@ => JsonView::Object(
                map![
                    "tags"@ => JsonView::Array(
                        Seq::empty()
                            .push(JsonView::Str("Groups"@))
                    ),
                    "summary"@ => JsonView::Str("Get a group's avatar"@),
                    "description"@ => JsonView::Str("Backed by signal-cli's `getAvatar` JSON-RPC method."@),
                    "operationId"@ => JsonView::Str("getGroupAvatar"@),
                    "parameters"@ => JsonView::Array(
                        Seq::empty()
                            .push(JsonView::Object(
                                map![
                                    "name"@ => JsonView::Str("number"@),
                                    "in"@ => JsonView::Str("path"@),
                                    "required"@ => JsonView::Bool(true),
                                    "schema"@ => JsonView::Object(
                                        map![
                                            "type"@ => JsonView::Str("string"@),
                                        ],
                                    ),
                                ],
                            ))
                            .push(JsonView::Object(
                                map![
                                    "name"@ => JsonView::Str("groupid"@),
                                    "in"@ => JsonView::Str("path"@),
                                    "required"@ => JsonView::Bool(true),
                                    "schema"@ => JsonView::Object(
                                        map![
                                            "type"@ => JsonView::Str("string"@),
                                        ],
                                    ),
                                ],
                            ))
                    ),
                    "responses"@ => JsonView::Object(
                        map![
                            "200"@ => JsonView::Object(
                                map![
                                    "description"@ => JsonView::Str("Base64-encoded avatar image"@),
                                    "content"@ => JsonView::Object(
                                        map![
                                            "application/json"@ => JsonView::Object(
                                                map![
                                                    "schema"@ => JsonView::Object(
                                                        map![
                                                            "$ref"@ => JsonView::Str("#/components/schemas/AttachmentData"@),
                                                        ],
                                                    ),
                                                ],
                                            ),
                                        ],
                                    ),
                                ],
                            ),
                        ],
                    ),
                ],
            ),
        ],
    )
}

fn path_v1_groups_number_groupid_avatar() -> (r: Json)
    ensures
        r@ == openapi_path_v1_groups_number_groupid_avatar(),
{
    let mut tags = Json::empty_array();
    tags.push_item(Json::text("Groups"));
    let mut schema = Json::empty_object();
    schema.set("type", Json::text("string"));
    let mut parameters_entry = Json::empty_object();
    parameters_entry.set("name", Json::text("number"));
    parameters_entry.set("in", Json::text("path"));
    parameters_entry.set("required", Json::Bool(true));
    parameters_entry.set("schema", schema);
    let mut schema_2 = Json::empty_object();
    schema_2.set("type", Json::text("string"));
    let mut parameters_entry_2 = Json::empty_object();
    parameters_entry_2.set("name", Json::text("groupid"));
    parameters_entry_2.set("in", Json::text("path"));
    parameters_entry_2.set("required", Json::Bool(true));
    parameters_entry_2.set("schema", schema_2);
    let mut parameters = Json::empty_array();
    parameters.push_item(parameters_entry);
    parameters.push_item(parameters_entry_2);
    let mut schema_3 = Json::empty_object();
    schema_3.set("$ref", Json::text("#/components/schemas/AttachmentData"));
    let mut application_json = Json::empty_object();
    application_json.set("schema", schema_3);
    let mut content = Json::empty_object();
    content.set("application/json", application_json);
    let mut status_200 = Json::empty_object();
    status_200.set("description", Json::text("Base64-encoded avatar image"));
    status_200.set("content", content);
    let mut responses = Json::empty_object();
    responses.set("200", status_200);
    let mut get = Json::empty_object();
    get.set("tags", tags);
    get.set("summary", Json::text("Get a group's avatar"));
    get.set("description", Json::text("Backed by signal-cli's `getAvatar` JSON-RPC method."));
    get.set("operationId", Json::text("getGroupAvatar"));
    get.set("parameters", parameters);
    get.set("responses", responses);
    let mut item = Json::empty_object();
    item.set("get", get);
    item
}

/// The operations of `/v1/groups/{number}/{groupid}/messages`.
pub open spec fn openapi_path_v1_groups_number_groupid_messages() -> JsonView {
    JsonView::Object(
        map![
            "delete"@ => JsonView::Object(
                map![
                    "tags"@ => JsonView::Array(
                        Seq::empty()
                            .push(JsonView::Str("Groups"@))
                    ),
                    "summary"@ => JsonView::Str("Admin-delete a message in a group"@),
                    "description"@ => JsonView::Str("Backed by signal-cli's `sendAdminDelete` JSON-RPC method. Requires this account to be a group admin."@),
                    "operationId"@ => JsonView::Str("adminDeleteGroupMessage"@),
                    "parameters"@ => JsonView::Array(
                        Seq::empty()
                            .push(JsonView::Object(
                                map![
                                    "name"@ => JsonView::Str("number"@),
                                    "in"@ => JsonView::Str("path"@),
                                    "required"@ => JsonView::Bool(true),
                                    "schema"@ => JsonView::Object(
                                        map![
                                            "type"@ => JsonView::Str("string"@),
                                        ],
                                    ),
                                ],
                            ))
                            .push(JsonView::Object(
                                map![
                                    "name"@ => JsonView::Str("groupid"@),
                                    "in"@ => JsonView::Str("path"@),
                                    "required"@ => JsonView::Bool(true),
                                    "schema"@ => JsonView::Object(
                                        map![
                                            "type"@ => JsonView::Str("string"@),
                                        ],
                                    ),
                                ],
                            ))
                    ),
                    "requestBody"@ => JsonView::Object(
                        map![
                            "required"@ => JsonView::Bool(true),
                            "content"@ => JsonView::Object(
                                map![
                                    "application/json"@ => JsonView::Object(
                                        map![
                                            "schema"@ => JsonView::Object(
                                                map![
                                                    "type"@ => JsonView::Str("object"@),
                                                    "required"@ => JsonView::Array(
                                                        Seq::empty()
                                                            .push(JsonView::Str("target_author"@))
                                                            .push(JsonView::Str("target_timestamp"@))
                                                    ),
                                                    "properties"@ => JsonView::Object(
                                                        map![
                                                            "target_author"@ => JsonView::Object(
                                                                map![
                                                                    "type"@ => JsonView::Str("string"@),
                                                                ],
                                                            ),
                                                            "target_timestamp"@ => JsonView::Object(
                                                                map![
                                                                    "type"@ => JsonView::Str("integer"@),
                                                                ],
                                                            ),
                                                            "story"@ => JsonView::Object(
                                                                map![
                                                                    "type"@ => JsonView::Str("boolean"@),
                                                                ],
                                                            ),
                                                        ],
                                                    ),
                                                ],
                                            ),
                                        ],
                                    ),
                                ],
                            ),
                        ],
                    ),
                    "responses"@ => JsonView::Object(
                        map![
                            "200"@ => JsonView::Object(
                                map![
                                    "description"@ => JsonView::Str("Admin-delete sent"@),
                                ],
                            ),
                        ],
                    ),
                ],
            ),
        ],
    )
}

fn path_v1_groups_number_groupid_messages() -> (r: Json)
    ensures
        r@ == openapi_path_v1_groups_number_groupid_messages(),
{
    let mut tags = Json::empty_array();
    tags.push_item(Json::text("Groups"));
    let mut schema = Json::empty_object();
    schema.set("type", Json::text("string"));
    let mut parameters_entry = Json::empty_object();
    parameters_entry.set("name", Json::text("number"));
    parameters_entry.set("in", Json::text("path"));
    parameters_entry.set("required", Json::Bool(true));
    parameters_entry.set("schema", schema);
    let mut schema_2 = Json::empty_object();
    schema_2.set("type", Json::text("string"));
    let mut parameters_entry_2 = Json::empty_object();
    parameters_entry_2.set("name", Json::text("groupid"));
    parameters_entry_2.set("in", Json::text("path"));
    parameters_entry_2.set("required", Json::Bool(true));
    parameters_entry_2.set("schema", schema_2);
    let mut parameters = Json::empty_array();
    parameters.push_item(parameters_entry);
    parameters.push_item(parameters_entry_2);
    let mut required = Json::empty_array();
    required.push_item(Json::text("target_author"));
    required.push_item(Json::text("target_timestamp"));
    let mut target_author = Json::empty_object();
    target_author.set("type", Json::text("string"));
    let mut target_timestamp = Json::empty_object();
    target_timestamp.set("type", Json::text("integer"));
    let mut story = Json::empty_object();
    story.set("type", Json::text("boolean"));
    let mut properties = Json::empty_object();
    properties.set("target_author", target_author);
    properties.set("target_timestamp", target_timestamp);
    properties.set("story", story);
    let mut schema_3 = Json::empty_object();
    schema_3.set("type", Json::text("object"));
    schema_3.set("required", required);
    schema_3.set("properties", properties);
    let mut application_json = Json::empty_object();
    application_json.set("schema", schema_3);
    let mut content = Json::empty_object();
    content.set("application/json", application_json);
    let mut requestbody = Json::empty_object();
    requestbody.set("required", Json::Bool(true));
    requestbody.set("content", content);
    let mut status_200 = Json::empty_object();
    status_200.set("description", Json::text("Admin-delete sent"));
    let mut responses = Json::empty_object();
    responses.set("200", status_200);
    let mut delete = Json::empty_object();
    delete.set("tags", tags);
    delete.set("summary", Json::text("Admin-delete a message in a group"));
    delete.set("description", Json::text("Backed by signal-cli's `sendAdminDelete` JSON-RPC method. Requires this account to be a group admin."));
    delete.set("operationId", Json::text("adminDeleteGroupMessage"));
    delete.set("parameters", parameters);
    delete.set("requestBody", requestbody);
    delete.set("responses", responses);
    let mut item = Json::empty_object();
    item.set("delete", delete);
    item
}

/// The operations of `/v1/contacts/{number}/{recipient}`.
pub open spec fn openapi_path_v1_contacts_number_recipient() -> JsonView {
    JsonView::Object(
        map![
            "delete"@ => JsonView::Object(
                map![
                    "tags"@ => JsonView::Array(
                        Seq::empty()
                            .push(JsonView::Str("Contacts"@))
                    ),
                    "summary"@ => JsonView::Str("Remove a contact"@),
                    "description"@ => JsonView::Str("Backed by signal-cli's `removeContact` JSON-RPC method."@),
                    "operationId"@ => JsonView::Str("removeContact"@),
                    "parameters"@ => JsonView::Array(
                        Seq::empty()
                            .push(JsonView::Object(
                                map![
                                    "name"@ => JsonView::Str("number"@),
                                    "in"@ => JsonView::Str("path"@),
                                    "required"@ => JsonView::Bool(true),
                                    "schema"@ => JsonView::Object(
                                        map![
                                            "type"@ => JsonView::Str("string"@),
                                        ],
                                    ),
                                ],
                            ))
                            .push(JsonView::Object(
                                map![
                                    "name"@ => JsonView::Str("recipient"@),
                                    "in"@ => JsonView::Str("path"@),
                                    "required"@ => JsonView::Bool(true),
                                    "schema"@ => JsonView::Object(
                                        map![
                                            "type"@ => JsonView::Str("string"@),
                                        ],
                                    ),
                                ],
                            ))
                    ),
                    "requestBody"@ => JsonView::Object(
                        map![
                            "required"@ => JsonView::Bool(false),
                            "content"@ => JsonView::Object(
                                map![
                                    "application/json"@ => JsonView::Object(
                                        map![
                                            "schema"@ => JsonView::Object(
                                                map![
                                                    "type"@ => JsonView::Str("object"@),
                                                    "properties"@ => JsonView::Object(
                                                        map![
                                                            "hide"@ => JsonView::Object(
                                                                map![
                                                                    "type"@ => JsonView::Str("boolean"@),
                                                                    "description"@ => JsonView::Str("Hide the contact but keep its data"@),
                                                                ],
                                                            ),
                                                            "forget"@ => JsonView::Object(
                                                                map![
                                                                    "type"@ => JsonView::Str("boolean"@),
                                                                    "description"@ => JsonView::Str("Delete all data, including identity keys and sessions"@),
                                                                ],
                                                            ),
                                                        ],
                                                    ),
                                                ],
                                            ),
                                        ],
                                    ),
                                ],
                            ),
                        ],
                    ),
                    "responses"@ => JsonView::Object(
                        map![
                            "200"@ => JsonView::Object(
                                map![
                                    "description"@ => JsonView::Str("Contact removed"@),
                                ],
                            ),
                        ],
                    ),
                ],
            ),
        ],
    )
}

fn path_v1_contacts_number_recipient() -> (r: Json)
    ensures
        r@ == openapi_path_v1_contacts_number_recipient(),
{
    let mut tags = Json::empty_array();
    tags.push_item(Json::text("Contacts"));
    let mut schema = Json::empty_object();
    schema.set("type", Json::text("string"));
    let mut parameters_entry = Json::empty_object();
    parameters_entry.set("name", Json::text("number"));
    parameters_entry.set("in", Json::text("path"));
    parameters_entry.set("required", Json::Bool(true));
    parameters_entry.set("schema", schema);
    let mut schema_2 = Json::empty_object();
    schema_2.set("type", Json::text("string"));
    let mut parameters_entry_2 = Json::empty_object();
    parameters_entry_2.set("name", Json::text("recipient"));
    parameters_entry_2.set("in", Json::text("path"));
    parameters_entry_2.set("required", Json::Bool(true));
    parameters_entry_2.set("schema", schema_2);
    let mut parameters = Json::empty_array();
    parameters.push_item(parameters_entry);
    parameters.push_item(parameters_entry_2);
    let mut hide_value = Json::empty_object();
    hide_value.set("type", Json::text("boolean"));
    hide_value.set("description", Json::text("Hide the contact but keep its data"));
    let mut forget = Json::empty_object();
    forget.set("type", Json::text("boolean"));
    forget.set("description", Json::text("Delete all data, including identity keys and sessions"));
    let mut properties = Json::empty_object();
    properties.set("hide", hide_value);
    properties.set("forget", forget);
    let mut schema_3 = Json::empty_object();
    schema_3.set("type", Json::text("object"));
    schema_3.set("properties", properties);
    let mut application_json = Json::empty_object();
    application_json.set("schema", schema_3);
    let mut content = Json::empty_object();
    content.set("application/json", application_json);
    let mut requestbody = Json::empty_object();
    requestbody.set("required", Json::Bool(false));
    requestbody.set("content", content);
    let mut status_200 = Json::empty_object();
    status_200.set("description", Json::text("Contact removed"));
    let mut responses = Json::empty_object();
    responses.set("200", status_200);
    let mut delete = Json::empty_object();
    delete.set("tags", tags);
    delete.set("summary", Json::text("Remove a contact"));
    delete.set("description", Json::text("Backed by signal-cli's `removeContact` JSON-RPC method."));
    delete.set("operationId", Json::text("removeContact"));
    delete.set("parameters", parameters);
    delete.set("requestBody", requestbody);
    delete.set("responses", responses);
    let mut item = Json::empty_object();
    item.set("delete", delete);
    item
}

/// The operations of `/v1/contacts/{number}/{recipient}/avatar`.
pub open spec fn openapi_path_v1_contacts_number_recipient_avatar() -> JsonView {
    JsonView::Object(
        map![
            "get"@ => JsonView::Object(
                map![
                    "tags"@ => JsonView::Array(
                        Seq::empty()
                            .push(JsonView::Str("Contacts"@))
                    ),
                    "summary"@ => JsonView::Str("Get a contact's avatar"@),
                    "description"@ => JsonView::Str("Backed by signal-cli's `getAvatar` JSON-RPC method."@),
                    "operationId"@ => JsonView::Str("getContactAvatar"@),
                    "parameters"@ => JsonView::Array(
                        Seq::empty()
                            .push(JsonView::Object(
                                map![
                                    "name"@ => JsonView::Str("number"@),
                                    "in"@ => JsonView::Str("path"@),
                                    "required"@ => JsonView::Bool(true),
                                    "schema"@ => JsonView::Object(
                                        map![
                                            "type"@ => JsonView::Str("string"@),
                                        ],
                                    ),
                                ],
                            ))
                            .push(JsonView::Object(
                                map![
                                    "name"@ => JsonView::Str("recipient"@),
                                    "in"@ => JsonView::Str("path"@),
                                    "required"@ => JsonView::Bool(true),
                                    "schema"@ => JsonView::Object(
                                        map![
                                            "type"@ => JsonView::Str("string"@),
                                        ],
                                    ),
                                ],
                            ))
                    ),
                    "responses"@ => JsonView::Object(
                        map![
                            "200"@ => JsonView::Object(
                                map![
                                    "description"@ => JsonView::Str("Base64-encoded avatar image"@),
                                    "content"@ => JsonView::Object(
                                        map![
                                            "application/json"@ => JsonView::Object(
                                                map![
                                                    "schema"@ => JsonView::Object(
                                                        map![
                                                            "$ref"@ => JsonView::Str("#/components/schemas/AttachmentData"@),
                                                        ],
                                                    ),
                                                ],
                                            ),
                                        ],
                                    ),
                                ],
                            ),
                        ],
                    ),
                ],
            ),
        ],
    )
}

fn path_v1_contacts_number_recipient_avatar() -> (r: Json)
    ensures
        r@ == openapi_path_v1_contacts_number_recipient_avatar(),
{
    let mut tags = Json::empty_array();
    tags.push_item(Json::text("Contacts"));
    let mut schema = Json::empty_object();
    schema.set("type", Json::text("string"));
    let mut parameters_entry = Json::empty_object();
    parameters_entry.set("name", Json::text("number"));
    parameters_entry.set("in", Json::text("path"));
    parameters_entry.set("required", Json::Bool(true));
    parameters_entry.set("schema", schema);
    let mut schema_2 = Json::empty_object();
    schema_2.set("type", Json::text("string"));
    let mut parameters_entry_2 = Json::empty_object();
    parameters_entry_2.set("name", Json::text("recipient"));
    parameters_entry_2.set("in", Json::text("path"));
    parameters_entry_2.set("required", Json::Bool(true));
    parameters_entry_2.set("schema", schema_2);
    let mut parameters = Json::empty_array();
    parameters.push_item(parameters_entry);
    parameters.push_item(parameters_entry_2);
    let mut schema_3 = Json::empty_object();
    schema_3.set("$ref", Json::text("#/components/schemas/AttachmentData"));
    let mut application_json = Json::empty_object();
    application_json.set("schema", schema_3);
    let mut content = Json::empty_object();
    content.set("application/json", application_json);
    let mut status_200 = Json::empty_object();
    status_200.set("description", Json::text("Base64-encoded avatar image"));
    status_200.set("content", content);
    let mut responses = Json::empty_object();
    responses.set("200", status_200);
    let mut get = Json::empty_object();
    get.set("tags", tags);
    get.set("summary", Json::text("Get a contact's avatar"));
    get.set("description", Json::text("Backed by signal-cli's `getAvatar` JSON-RPC method."));
    get.set("operationId", Json::text("getContactAvatar"));
    get.set("parameters", parameters);
    get.set("responses", responses);
    let mut item = Json::empty_object();
    item.set("get", get);
    item
}

/// The operations of `/v1/contacts/{number}/{recipient}/block`.
pub open spec fn openapi_path_v1_contacts_number_recipient_block() -> JsonView {
    JsonView::Object(
        map![
            "post"@ => JsonView::Object(
                map![
                    "tags"@ => JsonView::Array(
                        Seq::empty()
                            .push(JsonView::Str("Contacts"@))
                    ),
                    "summary"@ => JsonView::Str("Block a contact"@),
                    "operationId"@ => JsonView::Str("blockContact"@),
                    "parameters"@ => JsonView::Array(
                        Seq::empty()
                            .push(JsonView::Object(
                                map![
                                    "name"@ => JsonView::Str("number"@),
                                    "in"@ => JsonView::Str("path"@),
                                    "required"@ => JsonView::Bool(true),
                                    "schema"@ => JsonView::Object(
                                        map![
                                            "type"@ => JsonView::Str("string"@),
                                        ],
                                    ),
                                ],
                            ))
                            .push(JsonView::Object(
                                map![
                                    "name"@ => JsonView::Str("recipient"@),
                                    "in"@ => JsonView::Str("path"@),
                                    "required"@ => JsonView::Bool(true),
                                    "schema"@ => JsonView::Object(
                                        map![
                                            "type"@ => JsonView::Str("string"@),
                                        ],
                                    ),
                                ],
                            ))
                    ),
                    "responses"@ => JsonView::Object(
                        map![
                            "200"@ => JsonView::Object(
                                map![
                                    "description"@ => JsonView::Str("Contact blocked"@),
                                ],
                            ),
                        ],
                    ),
                ],
            ),
            "delete"@ => JsonView::Object(
                map![
                    "tags"@ => JsonView::Array(
                        Seq::empty()
                            .push(JsonView::Str("Contacts"@))
                    ),
                    "summary"@ => JsonView::Str("Unblock a contact"@),
                    "operationId"@ => JsonView::Str("unblockContact"@),
                    "parameters"@ => JsonView::Array(
                        Seq::empty()
                            .push(JsonView::Object(
                                map![
                                    "name"@ => JsonView::Str("number"@),
                                    "in"@ => JsonView::Str("path"@),
                                    "required"@ => JsonView::Bool(true),
                                    "schema"@ => JsonView::Object(
                                        map![
                                            "type"@ => JsonView::Str("string"@),
                                        ],
                                    ),
                                ],
                            ))
                            .push(JsonView::Object(
                                map![
                                    "name"@ => JsonView::Str("recipient"@),
                                    "in"@ => JsonView::Str("path"@),
                                    "required"@ => JsonView::Bool(true),
                                    "schema"@ => JsonView::Object(
                                        map![
                                            "type"@ => JsonView::Str("string"@),
                                        ],
                                    ),
                                ],
                            ))
                    ),
                    "responses"@ => JsonView::Object(
                        map![
                            "200"@ => JsonView::Object(
                                map![
                                    "description"@ => JsonView::Str("Contact unblocked"@),
                                ],
                            ),
                        ],
                    ),
                ],
            ),
        ],
    )
}

fn path_v1_contacts_number_recipient_block() -> (r: Json)
    ensures
        r@ == openapi_path_v1_contacts_number_recipient_block(),
{
    let mut tags = Json::empty_array();
    tags.push_item(Json::text("Contacts"));
    let mut schema = Json::empty_object();
    schema.set("type", Json::text("string"));
    let mut parameters_entry = Json::empty_object();
    parameters_entry.set("name", Json::text("number"));
    parameters_entry.set("in", Json::text("path"));
    parameters_entry.set("required", Json::Bool(true));
    parameters_entry.set("schema", schema);
    let mut schema_2 = Json::empty_object();
    schema_2.set("type", Json::text("string"));
    let mut parameters_entry_2 = Json::empty_object();
    parameters_entry_2.set("name", Json::text("recipient"));
    parameters_entry_2.set("in", Json::text("path"));
    parameters_entry_2.set("required", Json::Bool(true));
    parameters_entry_2.set("schema", schema_2);
    let mut parameters = Json::empty_array();
    parameters.push_item(parameters_entry);
    parameters.push_item(parameters_entry_2);
    let mut status_200 = Json::empty_object();
    status_200.set("description", Json::text("Contact blocked"));
    let mut responses = Json::empty_object();
    responses.set("200", status_200);
    let mut post = Json::empty_object();
    post.set("tags", tags);
    post.set("summary", Json::text("Block a contact"));
    post.set("operationId", Json::text("blockContact"));
    post.set("parameters", parameters);
    post.set("responses", responses);
    let mut tags_2 = Json::empty_array();
    tags_2.push_item(Json::text("Contacts"));
    let mut schema_3 = Json::empty_object();
    schema_3.set("type", Json::text("string"));
    let mut parameters_entry_3 = Json::empty_object();
    parameters_entry_3.set("name", Json::text("number"));
    parameters_entry_3.set("in", Json::text("path"));
    parameters_entry_3.set("required", Json::Bool(true));
    parameters_entry_3.set("schema", schema_3);
    let mut schema_4 = Json::empty_object();
    schema_4.set("type", Json::text("string"));
    let mut parameters_entry_4 = Json::empty_object();
    parameters_entry_4.set("name", Json::text("recipient"));
    parameters_entry_4.set("in", Json::text("path"));
    parameters_entry_4.set("required", Json::Bool(true));
    parameters_entry_4.set("schema", schema_4);
    let mut parameters_2 = Json::empty_array();
    parameters_2.push_item(parameters_entry_3);
    parameters_2.push_item(parameters_entry_4);
    let mut status_200_2 = Json::empty_object();
    status_200_2.set("description", Json::text("Contact unblocked"));
    let mut responses_2 = Json::empty_object();
    responses_2.set("200", status_200_2);
    let mut delete = Json::empty_object();
    delete.set("tags", tags_2);
    delete.set("summary", Json::text("Unblock a contact"));
    delete.set("operationId", Json::text("unblockContact"));
    delete.set("parameters", parameters_2);
    delete.set("responses", responses_2);
    let mut item = Json::empty_object();
    item.set("post", post);
    item.set("delete", delete);
    item
}

/// The operations of `/v1/contacts/{number}/message-requests`.
pub open spec fn openapi_path_v1_contacts_number_message_requests() -> JsonView {
    JsonView::Object(
        map![
            "put"@ => JsonView::Object(
                map![
                    "tags"@ => JsonView::Array(
                        Seq::empty()
                            .push(JsonView::Str("Contacts"@))
                    ),
                    "summary"@ => JsonView::Str("Accept or delete a pending message request"@),
                    "description"@ => JsonView::Str("Backed by signal-cli's `sendMessageRequestResponse` JSON-RPC method."@),
                    "operationId"@ => JsonView::Str("messageRequestResponse"@),
                    "parameters"@ => JsonView::Array(
                        Seq::empty()
                            .push(JsonView::Object(
                                map![
                                    "name"@ => JsonView::Str("number"@),
                                    "in"@ => JsonView::Str("path"@),
                                    "required"@ => JsonView::Bool(true),
                                    "schema"@ => JsonView::Object(
                                        map![
                                            "type"@ => JsonView::Str("string"@),
                                        ],
                                    ),
                                ],
                            ))
                    ),
                    "requestBody"@ => JsonView::Object(
                        map![
                            "required"@ => JsonView::Bool(true),
                            "content"@ => JsonView::Object(
                                map![
                                    "application/json"@ => JsonView::Object(
                                        map![
                                            "schema"@ => JsonView::Object(
                                                map![
                                                    "type"@ => JsonView::Str("object"@),
                                                    "required"@ => JsonView::Array(
                                                        Seq::empty()
                                                            .push(JsonView::Str("type"@))
                                                    ),
                                                    "properties"@ => JsonView::Object(
                                                        map![
                                                            "recipient"@ => JsonView::Object(
                                                                map![
                                                                    "type"@ => JsonView::Str("string"@),
                                                                ],
                                                            ),
                                                            "group_id"@ => JsonView::Object(
                                                                map![
                                                                    "type"@ => JsonView::Str("string"@),
                                                                ],
                                                            ),
                                                            "type"@ => JsonView::Object(
                                                                map![
                                                                    "type"@ => JsonView::Str("string"@),
                                                                    "enum"@ => JsonView::Array(
                                                                        Seq::empty()
                                                                            .push(JsonView::Str("accept"@))
                                                                            .push(JsonView::Str("delete"@))
                                                                    ),
                                                                ],
                                                            ),
                                                        ],
                                                    ),
                                                ],
                                            ),
                                        ],
                                    ),
                                ],
                            ),
                        ],
                    ),
                    "responses"@ => JsonView::Object(
                        map![
                            "204"@ => JsonView::Object(
                                map![
                                    "description"@ => JsonView::Str("Response sent"@),
                                ],
                            ),
                        ],
                    ),
                ],
            ),
        ],
    )
}

fn path_v1_contacts_number_message_requests() -> (r: Json)
    ensures
        r@ == openapi_path_v1_contacts_number_message_requests(),
{
    let mut tags = Json::empty_array();
    tags.push_item(Json::text("Contacts"));
    let mut schema = Json::empty_object();
    schema.set("type", Json::text("string"));
    let mut parameters_entry = Json::empty_object();
    parameters_entry.set("name", Json::text("number"));
    parameters_entry.set("in", Json::text("path"));
    parameters_entry.set("required", Json::Bool(true));
    parameters_entry.set("schema", schema);
    let mut parameters = Json::empty_array();
    parameters.push_item(parameters_entry);
    let mut required = Json::empty_array();
    required.push_item(Json::text("type"));
    let mut recipient = Json::empty_object();
    recipient.set("type", Json::text("string"));
    let mut group_id = Json::empty_object();
    group_id.set("type", Json::text("string"));
    let mut enum_value = Json::empty_array();
    enum_value.push_item(Json::text("accept"));
    enum_value.push_item(Json::text("delete"));
    let mut type_value = Json::empty_object();
    type_value.set("type", Json::text("string"));
    type_value.set("enum", enum_value);
    let mut properties = Json::empty_object();
    properties.set("recipient", recipient);
    properties.set("group_id", group_id);
    properties.set("type", type_value);
    let mut schema_2 = Json::empty_object();
    schema_2.set("type", Json::text("object"));
    schema_2.set("required", required);
    schema_2.set("properties", properties);
    let mut application_json = Json::empty_object();
    application_json.set("schema", schema_2);
    let mut content = Json::empty_object();
    content.set("application/json", application_json);
    let mut requestbody = Json::empty_object();
    requestbody.set("required", Json::Bool(true));
    requestbody.set("content", content);
    let mut status_204 = Json::empty_object();
    status_204.set("description", Json::text("Response sent"));
    let mut responses = Json::empty_object();
    responses.set("204", status_204);
    let mut put = Json::empty_object();
    put.set("tags", tags);
    put.set("summary", Json::text("Accept or delete a pending message request"));
    put.set("description", Json::text("Backed by signal-cli's `sendMessageRequestResponse` JSON-RPC method."));
    put.set("operationId", Json::text("messageRequestResponse"));
    put.set("parameters", parameters);
    put.set("requestBody", requestbody);
    put.set("responses", responses);
    let mut item = Json::empty_object();
    item.set("put", put);
    item
}

/// The operations of `/v1/accounts/{number}/settings`.
pub open spec fn openapi_path_v1_accounts_number_settings() -> JsonView {
    JsonView::Object(
        map![
            "put"@ => JsonView::Object(
                map![
                    "tags"@ => JsonView::Array(
                        Seq::empty()
                            .push(JsonView::Str("Accounts"@))
                    ),
                    "summary"@ => JsonView::Str("Update account attributes"@),
                    "description"@ => JsonView::Str("Backed by signal-cli's `updateAccount` JSON-RPC method - device name, unidentified-sender/discoverability/number-sharing preferences. Not a runtime 'trust mode' setting (signal-cli has no such RPC; `--trust-new-identities` is a CLI/daemon startup flag only)."@),
                    "operationId"@ => JsonView::Str("updateAccountSettings"@),
                    "parameters"@ => JsonView::Array(
                        Seq::empty()
                            .push(JsonView::Object(
                                map![
                                    "name"@ => JsonView::Str("number"@),
                                    "in"@ => JsonView::Str("path"@),
                                    "required"@ => JsonView::Bool(true),
                                    "schema"@ => JsonView::Object(
                                        map![
                                            "type"@ => JsonView::Str("string"@),
                                        ],
                                    ),
                                ],
                            ))
                    ),
                    "requestBody"@ => JsonView::Object(
                        map![
                            "required"@ => JsonView::Bool(true),
                            "content"@ => JsonView::Object(
                                map![
                                    "application/json"@ => JsonView::Object(
                                        map![
                                            "schema"@ => JsonView::Object(
                                                map![
                                                    "type"@ => JsonView::Str("object"@),
                                                    "properties"@ => JsonView::Object(
                                                        map![
                                                            "device_name"@ => JsonView::Object(
                                                                map![
                                                                    "type"@ => JsonView::Str("string"@),
                                                                ],
                                                            ),
                                                            "unrestricted_unidentified_sender"@ => JsonView::Object(
                                                                map![
                                                                    "type"@ => JsonView::Str("boolean"@),
                                                                ],
                                                            ),
                                                            "discoverable_by_number"@ => JsonView::Object(
                                                                map![
                                                                    "type"@ => JsonView::Str("boolean"@),
                                                                ],
                                                            ),
                                                            "number_sharing"@ => JsonView::Object(
                                                                map![
                                                                    "type"@ => JsonView::Str("boolean"@),
                                                                ],
                                                            ),
                                                        ],
                                                    ),
                                                ],
                                            ),
                                        ],
                                    ),
                                ],
                            ),
                        ],
                    ),
                    "responses"@ => JsonView::Object(
                        map![
                            "204"@ => JsonView::Object(
                                map![
                                    "description"@ => JsonView::Str("Updated"@),
                                ],
                            ),
                        ],
                    ),
                ],
            ),
        ],
    )
}

fn path_v1_accounts_number_settings() -> (r: Json)
    ensures
        r@ == openapi_path_v1_accounts_number_settings(),
{
    let mut tags = Json::empty_array();
    tags.push_item(Json::text("Accounts"));
    let mut schema = Json::empty_object();
    schema.set("type", Json::text("string"));
    let mut parameters_entry = Json::empty_object();
    parameters_entry.set("name", Json::text("number"));
    parameters_entry.set("in", Json::text("path"));
    parameters_entry.set("required", Json::Bool(true));
    parameters_entry.set("schema", schema);
    let mut parameters = Json::empty_array();
    parameters.push_item(parameters_entry);
    let mut device_name = Json::empty_object();
    device_name.set("type", Json::text("string"));
    let mut unrestricted_unidentified_sender = Json::empty_object();
    unrestricted_unidentified_sender.set("type", Json::text("boolean"));
    let mut discoverable_by_number = Json::empty_object();
    discoverable_by_number.set("type", Json::text("boolean"));
    let mut number_sharing = Json::empty_object();
    number_sharing.set("type", Json::text("boolean"));
    let mut properties = Json::empty_object();
    properties.set("device_name", device_name);
    properties.set("unrestricted_unidentified_sender", unrestricted_unidentified_sender);
    properties.set("discoverable_by_number", discoverable_by_number);
    properties.set("number_sharing", number_sharing);
    let mut schema_2 = Json::empty_object();
    schema_2.set("type", Json::text("object"));
    schema_2.set("properties", properties);
    let mut application_json = Json::empty_object();
    application_json.set("schema", schema_2);
    let mut content = Json::empty_object();
    content.set("application/json", application_json);
    let mut requestbody = Json::empty_object();
    requestbody.set("required", Json::Bool(true));
    requestbody.set("content", content);
    let mut status_204 = Json::empty_object();
    status_204.set("description", Json::text("Updated"));
    let mut responses = Json::empty_object();
    responses.set("204", status_204);
    let mut put = Json::empty_object();
    put.set("tags", tags);
    put.set("summary", Json::text("Update account attributes"));
    put.set("description", Json::text("Backed by signal-cli's `updateAccount` JSON-RPC method - device name, unidentified-sender/discoverability/number-sharing preferences. Not a runtime 'trust mode' setting (signal-cli has no such RPC; `--trust-new-identities` is a CLI/daemon startup flag only)."));
    put.set("operationId", Json::text("updateAccountSettings"));
    put.set("parameters", parameters);
    put.set("requestBody", requestbody);
    put.set("responses", responses);
    let mut item = Json::empty_object();
    item.set("put", put);
    item
}

/// The operations of `/v1/accounts/{number}/sync-request`.
pub open spec fn openapi_path_v1_accounts_number_sync_request() -> JsonView {
    JsonView::Object(
        map![
            "post"@ => JsonView::Object(
                map![
                    "tags"@ => JsonView::Array(
                        Seq::empty()
                            .push(JsonView::Str("Accounts"@))
                    ),
                    "summary"@ => JsonView::Str("Request a full sync from the primary device"@),
                    "operationId"@ => JsonView::Str("sendSyncRequest"@),
                    "parameters"@ => JsonView::Array(
                        Seq::empty()
                            .push(JsonView::Object(
                                map![
                                    "name"@ => JsonView::Str("number"@),
                                    "in"@ => JsonView::Str("path"@),
                                    "required"@ => JsonView::Bool(true),
                                    "schema"@ => JsonView::Object(
                                        map![
                                            "type"@ => JsonView::Str("string"@),
                                        ],
                                    ),
                                ],
                            ))
                    ),
                    "responses"@ => JsonView::Object(
                        map![
                            "204"@ => JsonView::Object(
                                map![
                                    "description"@ => JsonView::Str("Sync requested"@),
                                ],
                            ),
                        ],
                    ),
                ],
            ),
        ],
    )
}

fn path_v1_accounts_number_sync_request() -> (r: Json)
    ensures
        r@ == openapi_path_v1_accounts_number_sync_request(),
{
    let mut tags = Json::empty_array();
    tags.push_item(Json::text("Accounts"));
    let mut schema = Json::empty_object();
    schema.set("type", Json::text("string"));
    let mut parameters_entry = Json::empty_object();
    parameters_entry.set("name", Json::text("number"));
    parameters_entry.set("in", Json::text("path"));
    parameters_entry.set("required", Json::Bool(true));
    parameters_entry.set("schema", schema);
    let mut parameters = Json::empty_array();
    parameters.push_item(parameters_entry);
    let mut status_204 = Json::empty_object();
    status_204.set("description", Json::text("Sync requested"));
    let mut responses = Json::empty_object();
    responses.set("204", status_204);
    let mut post = Json::empty_object();
    post.set("tags", tags);
    post.set("summary", Json::text("Request a full sync from the primary device"));
    post.set("operationId", Json::text("sendSyncRequest"));
    post.set("parameters", parameters);
    post.set("responses", responses);
    let mut item = Json::empty_object();
    item.set("post", post);
    item
}

/// The operations of `/v1/accounts/{number}/number`.
pub open spec fn openapi_path_v1_accounts_number_number() -> JsonView {
    JsonView::Object(
        map![
            "post"@ => JsonView::Object(
                map![
                    "tags"@ => JsonView::Array(
                        Seq::empty()
                            .push(JsonView::Str("Accounts"@))
                    ),
                    "summary"@ => JsonView::Str("Start a phone number change"@),
                    "operationId"@ => JsonView::Str("startChangeNumber"@),
                    "parameters"@ => JsonView::Array(
                        Seq::empty()
                            .push(JsonView::Object(
                                map![
                                    "name"@ => JsonView::Str("number"@),
                                    "in"@ => JsonView::Str("path"@),
                                    "required"@ => JsonView::Bool(true),
                                    "schema"@ => JsonView::Object(
                                        map![
                                            "type"@ => JsonView::Str("string"@),
                                        ],
                                    ),
                                ],
                            ))
                    ),
                    "requestBody"@ => JsonView::Object(
                        map![
                            "required"@ => JsonView::Bool(true),
                            "content"@ => JsonView::Object(
                                map![
                                    "application/json"@ => JsonView::Object(
                                        map![
                                            "schema"@ => JsonView::Object(
                                                map![
                                                    "type"@ => JsonView::Str("object"@),
                                                    "required"@ => JsonView::Array(
                                                        Seq::empty()
                                                            .push(JsonView::Str("number"@))
                                                    ),
                                                    "properties"@ => JsonView::Object(
                                                        map![
                                                            "number"@ => JsonView::Object(
                                                                map![
                                                                    "type"@ => JsonView::Str("string"@),
                                                                    "description"@ => JsonView::Str("New E164 phone number"@),
                                                                ],
                                                            ),
                                                            "voice"@ => JsonView::Object(
                                                                map![
                                                                    "type"@ => JsonView::Str("boolean"@),
                                                                ],
                                                            ),
                                                            "captcha"@ => JsonView::Object(
                                                                map![
                                                                    "type"@ => JsonView::Str("string"@),
                                                                ],
                                                            ),
                                                        ],
                                                    ),
                                                ],
                                            ),
                                        ],
                                    ),
                                ],
                            ),
                        ],
                    ),
                    "responses"@ => JsonView::Object(
                        map![
                            "204"@ => JsonView::Object(
                                map![
                                    "description"@ => JsonView::Str("Verification code sent"@),
                                ],
                            ),
                        ],
                    ),
                ],
            ),
        ],
    )
}

fn path_v1_accounts_number_number() -> (r: Json)
    ensures
        r@ == openapi_path_v1_accounts_number_number(),
{
    let mut tags = Json::empty_array();
    tags.push_item(Json::text("Accounts"));
    let mut schema = Json::empty_object();
    schema.set("type", Json::text("string"));
    let mut parameters_entry = Json::empty_object();
    parameters_entry.set("name", Json::text("number"));
    parameters_entry.set("in", Json::text("path"));
    parameters_entry.set("required", Json::Bool(true));
    parameters_entry.set("schema", schema);
    let mut parameters = Json::empty_array();
    parameters.push_item(parameters_entry);
    let mut required = Json::empty_array();
    required.push_item(Json::text("number"));
    let mut number = Json::empty_object();
    number.set("type", Json::text("string"));
    number.set("description", Json::text("New E164 phone number"));
    let mut voice = Json::empty_object();
    voice.set("type", Json::text("boolean"));
    let mut captcha = Json::empty_object();
    captcha.set("type", Json::text("string"));
    let mut properties = Json::empty_object();
    properties.set("number", number);
    properties.set("voice", voice);
    properties.set("captcha", captcha);
    let mut schema_2 = Json::empty_object();
    schema_2.set("type", Json::text("object"));
    schema_2.set("required", required);
    schema_2.set("properties", properties);
    let mut application_json = Json::empty_object();
    application_json.set("schema", schema_2);
    let mut content = Json::empty_object();
    content.set("application/json", application_json);
    let mut requestbody = Json::empty_object();
    requestbody.set("required", Json::Bool(true));
    requestbody.set("content", content);
    let mut status_204 = Json::empty_object();
    status_204.set("description", Json::text("Verification code sent"));
    let mut responses = Json::empty_object();
    responses.set("204", status_204);
    let mut post = Json::empty_object();
    post.set("tags", tags);
    post.set("summary", Json::text("Start a phone number change"));
    post.set("operationId", Json::text("startChangeNumber"));
    post.set("parameters", parameters);
    post.set("requestBody", requestbody);
    post.set("responses", responses);
    let mut item = Json::empty_object();
    item.set("post", post);
    item
}

/// The operations of `/v1/accounts/{number}/number/verify`.
pub open spec fn openapi_path_v1_accounts_number_number_verify() -> JsonView {
    JsonView::Object(
        map![
            "post"@ => JsonView::Object(
                map![
                    "tags"@ => JsonView::Array(
                        Seq::empty()
                            .push(JsonView::Str("Accounts"@))
                    ),
                    "summary"@ => JsonView::Str("Finish a phone number change"@),
                    "operationId"@ => JsonView::Str("finishChangeNumber"@),
                    "parameters"@ => JsonView::Array(
                        Seq::empty()
                            .push(JsonView::Object(
                                map![
                                    "name"@ => JsonView::Str("number"@),
                                    "in"@ => JsonView::Str("path"@),
                                    "required"@ => JsonView::Bool(true),
                                    "schema"@ => JsonView::Object(
                                        map![
                                            "type"@ => JsonView::Str("string"@),
                                        ],
                                    ),
                                ],
                            ))
                    ),
                    "requestBody"@ => JsonView::Object(
                        map![
                            "required"@ => JsonView::Bool(true),
                            "content"@ => JsonView::Object(
                                map![
                                    "application/json"@ => JsonView::Object(
                                        map![
                                            "schema"@ => JsonView::Object(
                                                map![
                                                    "type"@ => JsonView::Str("object"@),
                                                    "required"@ => JsonView::Array(
                                                        Seq::empty()
                                                            .push(JsonView::Str("number"@))
                                                            .push(JsonView::Str("verification_code"@))
                                                    ),
                                                    "properties"@ => JsonView::Object(
                                                        map![
                                                            "number"@ => JsonView::Object(
                                                                map![
                                                                    "type"@ => JsonView::Str("string"@),
                                                                ],
                                                            ),
                                                            "verification_code"@ => JsonView::Object(
                                                                map![
                                                                    "type"@ => JsonView::Str("string"@),
                                                                ],
                                                            ),
                                                            "pin"@ => JsonView::Object(
                                                                map![
                                                                    "type"@ => JsonView::Str("string"@),
                                                                ],
                                                            ),
                                                        ],
                                                    ),
                                                ],
                                            ),
                                        ],
                                    ),
                                ],
                            ),
                        ],
                    ),
                    "responses"@ => JsonView::Object(
                        map![
                            "204"@ => JsonView::Object(
                                map![
                                    "description"@ => JsonView::Str("Number changed"@),
                                ],
                            ),
                        ],
                    ),
                ],
            ),
        ],
    )
}

fn path_v1_accounts_number_number_verify() -> (r: Json)
    ensures
        r@ == openapi_path_v1_accounts_number_number_verify(),
{
    let mut tags = Json::empty_array();
    tags.push_item(Json::text("Accounts"));
    let mut schema = Json::empty_object();
    schema.set("type", Json::text("string"));
    let mut parameters_entry = Json::empty_object();
    parameters_entry.set("name", Json::text("number"));
    parameters_entry.set("in", Json::text("path"));
    parameters_entry.set("required", Json::Bool(true));
    parameters_entry.set("schema", schema);
    let mut parameters = Json::empty_array();
    parameters.push_item(parameters_entry);
    let mut required = Json::empty_array();
    required.push_item(Json::text("number"));
    required.push_item(Json::text("verification_code"));
    let mut number = Json::empty_object();
    number.set("type", Json::text("string"));
    let mut verification_code = Json::empty_object();
    verification_code.set("type", Json::text("string"));
    let mut pin = Json::empty_object();
    pin.set("type", Json::text("string"));
    let mut properties = Json::empty_object();
    properties.set("number", number);
    properties.set("verification_code", verification_code);
    properties.set("pin", pin);
    let mut schema_2 = Json::empty_object();
    schema_2.set("type", Json::text("object"));
    schema_2.set("required", required);
    schema_2.set("properties", properties);
    let mut application_json = Json::empty_object();
    application_json.set("schema", schema_2);
    let mut content = Json::empty_object();
    content.set("application/json", application_json);
    let mut requestbody = Json::empty_object();
    requestbody.set("required", Json::Bool(true));
    requestbody.set("content", content);
    let mut status_204 = Json::empty_object();
    status_204.set("description", Json::text("Number changed"));
    let mut responses = Json::empty_object();
    responses.set("204", status_204);
    let mut post = Json::empty_object();
    post.set("tags", tags);
    post.set("summary", Json::text("Finish a phone number change"));
    post.set("operationId", Json::text("finishChangeNumber"));
    post.set("parameters", parameters);
    post.set("requestBody", requestbody);
    post.set("responses", responses);
    let mut item = Json::empty_object();
    item.set("post", post);
    item
}

/// The operations of `/v1/devices/{number}/{device_id}`.
pub open spec fn openapi_path_v1_devices_number_device_id() -> JsonView {
    JsonView::Object(
        map![
            "put"@ => JsonView::Object(
                map![
                    "tags"@ => JsonView::Array(
                        Seq::empty()
                            .push(JsonView::Str("Devices"@))
                    ),
                    "summary"@ => JsonView::Str("Rename a linked device"@),
                    "operationId"@ => JsonView::Str("updateDevice"@),
                    "parameters"@ => JsonView::Array(
                        Seq::empty()
                            .push(JsonView::Object(
                                map![
                                    "name"@ => JsonView::Str("number"@),
                                    "in"@ => JsonView::Str("path"@),
                                    "required"@ => JsonView::Bool(true),
                                    "schema"@ => JsonView::Object(
                                        map![
                                            "type"@ => JsonView::Str("string"@),
                                        ],
                                    ),
                                ],
                            ))
                            .push(JsonView::Object(
                                map![
                                    "name"@ => JsonView::Str("device_id"@),
                                    "in"@ => JsonView::Str("path"@),
                                    "required"@ => JsonView::Bool(true),
                                    "schema"@ => JsonView::Object(
                                        map![
                                            "type"@ => JsonView::Str("integer"@),
                                        ],
                                    ),
                                ],
                            ))
                    ),
                    "requestBody"@ => JsonView::Object(
                        map![
                            "required"@ => JsonView::Bool(true),
                            "content"@ => JsonView::Object(
                                map![
                                    "application/json"@ => JsonView::Object(
                                        map![
                                            "schema"@ => JsonView::Object(
                                                map![
                                                    "type"@ => JsonView::Str("object"@),
                                                    "required"@ => JsonView::Array(
                                                        Seq::empty()
                                                            .push(JsonView::Str("device_name"@))
                                                    ),
                                                    "properties"@ => JsonView::Object(
                                                        map![
                                                            "device_name"@ => JsonView::Object(
                                                                map![
                                                                    "type"@ => JsonView::Str("string"@),
                                                                ],
                                                            ),
                                                        ],
                                                    ),
                                                ],
                                            ),
                                        ],
                                    ),
                                ],
                            ),
                        ],
                    ),
                    "responses"@ => JsonView::Object(
                        map![
                            "204"@ => JsonView::Object(
                                map![
                                    "description"@ => JsonView::Str("Renamed"@),
                                ],
                            ),
                        ],
                    ),
                ],
            ),
        ],
    )
}

fn path_v1_devices_number_device_id() -> (r: Json)
    ensures
        r@ == openapi_path_v1_devices_number_device_id(),
{
    let mut tags = Json::empty_array();
    tags.push_item(Json::text("Devices"));
    let mut schema = Json::empty_object();
    schema.set("type", Json::text("string"));
    let mut parameters_entry = Json::empty_object();
    parameters_entry.set("name", Json::text("number"));
    parameters_entry.set("in", Json::text("path"));
    parameters_entry.set("required", Json::Bool(true));
    parameters_entry.set("schema", schema);
    let mut schema_2 = Json::empty_object();
    schema_2.set("type", Json::text("integer"));
    let mut parameters_entry_2 = Json::empty_object();
    parameters_entry_2.set("name", Json::text("device_id"));
    parameters_entry_2.set("in", Json::text("path"));
    parameters_entry_2.set("required", Json::Bool(true));
    parameters_entry_2.set("schema", schema_2);
    let mut parameters = Json::empty_array();
    parameters.push_item(parameters_entry);
    parameters.push_item(parameters_entry_2);
    let mut required = Json::empty_array();
    required.push_item(Json::text("device_name"));
    let mut device_name = Json::empty_object();
    device_name.set("type", Json::text("string"));
    let mut properties = Json::empty_object();
    properties.set("device_name", device_name);
    let mut schema_3 = Json::empty_object();
    schema_3.set("type", Json::text("object"));
    schema_3.set("required", required);
    schema_3.set("properties", properties);
    let mut application_json = Json::empty_object();
    application_json.set("schema", schema_3);
    let mut content = Json::empty_object();
    content.set("application/json", application_json);
    let mut requestbody = Json::empty_object();
    requestbody.set("required", Json::Bool(true));
    requestbody.set("content", content);
    let mut status_204 = Json::empty_object();
    status_204.set("description", Json::text("Renamed"));
    let mut responses = Json::empty_object();
    responses.set("204", status_204);
    let mut put = Json::empty_object();
    put.set("tags", tags);
    put.set("summary", Json::text("Rename a linked device"));
    put.set("operationId", Json::text("updateDevice"));
    put.set("parameters", parameters);
    put.set("requestBody", requestbody);
    put.set("responses", responses);
    let mut item = Json::empty_object();
    item.set("put", put);
    item
}

/// The operations of `/v1/devices/{number}/add`.
pub open spec fn openapi_path_v1_devices_number_add() -> JsonView {
    JsonView::Object(
        map![
            "post"@ => JsonView::Object(
                map![
                    "tags"@ => JsonView::Array(
                        Seq::empty()
                            .push(JsonView::Str("Devices"@))
                    ),
                    "summary"@ => JsonView::Str("Approve linking a new device (primary device only)"@),
                    "description"@ => JsonView::Str("Backed by signal-cli's `addDevice` JSON-RPC method. Only works if this account is the primary device."@),
                    "operationId"@ => JsonView::Str("addDevice"@),
                    "parameters"@ => JsonView::Array(
                        Seq::empty()
                            .push(JsonView::Object(
                                map![
                                    "name"@ => JsonView::Str("number"@),
                                    "in"@ => JsonView::Str("path"@),
                                    "required"@ => JsonView::Bool(true),
                                    "schema"@ => JsonView::Object(
                                        map![
                                            "type"@ => JsonView::Str("string"@),
                                        ],
                                    ),
                                ],
                            ))
                    ),
                    "requestBody"@ => JsonView::Object(
                        map![
                            "required"@ => JsonView::Bool(true),
                            "content"@ => JsonView::Object(
                                map![
                                    "application/json"@ => JsonView::Object(
                                        map![
                                            "schema"@ => JsonView::Object(
                                                map![
                                                    "type"@ => JsonView::Str("object"@),
                                                    "required"@ => JsonView::Array(
                                                        Seq::empty()
                                                            .push(JsonView::Str("uri"@))
                                                    ),
                                                    "properties"@ => JsonView::Object(
                                                        map![
                                                            "uri"@ => JsonView::Object(
                                                                map![
                                                                    "type"@ => JsonView::Str("string"@),
                                                                    "description"@ => JsonView::Str("URI from the QR code shown by the new device"@),
                                                                ],
                                                            ),
                                                        ],
                                                    ),
                                                ],
                                            ),
                                        ],
                                    ),
                                ],
                            ),
                        ],
                    ),
                    "responses"@ => JsonView::Object(
                        map![
                            "204"@ => JsonView::Object(
                                map![
                                    "description"@ => JsonView::Str("Device linked"@),
                                ],
                            ),
                        ],
                    ),
                ],
            ),
        ],
    )
}

fn path_v1_devices_number_add() -> (r: Json)
    ensures
        r@ == openapi_path_v1_devices_number_add(),
{
    let mut tags = Json::empty_array();
    tags.push_item(Json::text("Devices"));
    let mut schema = Json::empty_object();
    schema.set("type", Json::text("string"));
    let mut parameters_entry = Json::empty_object();
    parameters_entry.set("name", Json::text("number"));
    parameters_entry.set("in", Json::text("path"));
    parameters_entry.set("required", Json::Bool(true));
    parameters_entry.set("schema", schema);
    let mut parameters = Json::empty_array();
    parameters.push_item(parameters_entry);
    let mut required = Json::empty_array();
    required.push_item(Json::text("uri"));
    let mut uri = Json::empty_object();
    uri.set("type", Json::text("string"));
    uri.set("description", Json::text("URI from the QR code shown by the new device"));
    let mut properties = Json::empty_object();
    properties.set("uri", uri);
    let mut schema_2 = Json::empty_object();
    schema_2.set("type", Json::text("object"));
    schema_2.set("required", required);
    schema_2.set("properties", properties);
    let mut application_json = Json::empty_object();
    application_json.set("schema", schema_2);
    let mut content = Json::empty_object();
    content.set("application/json", application_json);
    let mut requestbody = Json::empty_object();
    requestbody.set("required", Json::Bool(true));
    requestbody.set("content", content);
    let mut status_204 = Json::empty_object();
    status_204.set("description", Json::text("Device linked"));
    let mut responses = Json::empty_object();
    responses.set("204", status_204);
    let mut post = Json::empty_object();
    post.set("tags", tags);
    post.set("summary", Json::text("Approve linking a new device (primary device only)"));
    post.set("description", Json::text("Backed by signal-cli's `addDevice` JSON-RPC method. Only works if this account is the primary device."));
    post.set("operationId", Json::text("addDevice"));
    post.set("parameters", parameters);
    post.set("requestBody", requestbody);
    post.set("responses", responses);
    let mut item = Json::empty_object();
    item.set("post", post);
    item
}

/// The operations of `/v1/polls/{number}`.
pub open spec fn openapi_path_v1_polls_number() -> JsonView {
    JsonView::Object(
        map![
            "post"@ => JsonView::Object(
                map![
                    "tags"@ => JsonView::Array(
                        Seq::empty()
                            .push(JsonView::Str("Polls"@))
                    ),
                    "summary"@ => JsonView::Str("Create and send a poll"@),
                    "description"@ => JsonView::Str("Backed by signal-cli's `sendPollCreate` JSON-RPC method."@),
                    "operationId"@ => JsonView::Str("createPoll"@),
                    "parameters"@ => JsonView::Array(
                        Seq::empty()
                            .push(JsonView::Object(
                                map![
                                    "name"@ => JsonView::Str("number"@),
                                    "in"@ => JsonView::Str("path"@),
                                    "required"@ => JsonView::Bool(true),
                                    "schema"@ => JsonView::Object(
                                        map![
                                            "type"@ => JsonView::Str("string"@),
                                        ],
                                    ),
                                ],
                            ))
                    ),
                    "requestBody"@ => JsonView::Object(
                        map![
                            "required"@ => JsonView::Bool(true),
                            "content"@ => JsonView::Object(
                                map![
                                    "application/json"@ => JsonView::Object(
                                        map![
                                            "schema"@ => JsonView::Object(
                                                map![
                                                    "$ref"@ => JsonView::Str("#/components/schemas/CreatePollPayload"@),
                                                ],
                                            ),
                                        ],
                                    ),
                                ],
                            ),
                        ],
                    ),
                    "responses"@ => JsonView::Object(
                        map![
                            "201"@ => JsonView::Object(
                                map![
                                    "description"@ => JsonView::Str("Poll sent"@),
                                ],
                            ),
                        ],
                    ),
                ],
            ),
            "delete"@ => JsonView::Object(
                map![
                    "tags"@ => JsonView::Array(
                        Seq::empty()
                            .push(JsonView::Str("Polls"@))
                    ),
                    "summary"@ => JsonView::Str("Terminate (close) a poll"@),
                    "description"@ => JsonView::Str("Backed by signal-cli's `sendPollTerminate` JSON-RPC method. Addressed by the poll message's own timestamp - signal-cli has no server-side poll ID concept."@),
                    "operationId"@ => JsonView::Str("closePoll"@),
                    "parameters"@ => JsonView::Array(
                        Seq::empty()
                            .push(JsonView::Object(
                                map![
                                    "name"@ => JsonView::Str("number"@),
                                    "in"@ => JsonView::Str("path"@),
                                    "required"@ => JsonView::Bool(true),
                                    "schema"@ => JsonView::Object(
                                        map![
                                            "type"@ => JsonView::Str("string"@),
                                        ],
                                    ),
                                ],
                            ))
                    ),
                    "requestBody"@ => JsonView::Object(
                        map![
                            "required"@ => JsonView::Bool(true),
                            "content"@ => JsonView::Object(
                                map![
                                    "application/json"@ => JsonView::Object(
                                        map![
                                            "schema"@ => JsonView::Object(
                                                map![
                                                    "type"@ => JsonView::Str("object"@),
                                                    "required"@ => JsonView::Array(
                                                        Seq::empty()
                                                            .push(JsonView::Str("poll_timestamp"@))
                                                    ),
                                                    "properties"@ => JsonView::Object(
                                                        map![
                                                            "recipient"@ => JsonView::Object(
                                                                map![
                                                                    "type"@ => JsonView::Str("string"@),
                                                                ],
                                                            ),
                                                            "group_id"@ => JsonView::Object(
                                                                map![
                                                                    "type"@ => JsonView::Str("string"@),
                                                                ],
                                                            ),
                                                            "poll_timestamp"@ => JsonView::Object(
                                                                map![
                                                                    "type"@ => JsonView::Str("integer"@),
                                                                ],
                                                            ),
                                                        ],
                                                    ),
                                                ],
                                            ),
                                        ],
                                    ),
                                ],
                            ),
                        ],
                    ),
                    "responses"@ => JsonView::Object(
                        map![
                            "200"@ => JsonView::Object(
                                map![
                                    "description"@ => JsonView::Str("Poll terminated"@),
                                ],
                            ),
                        ],
                    ),
                ],
            ),
        ],
    )
}

fn path_v1_polls_number() -> (r: Json)
    ensures
        r@ == openapi_path_v1_polls_number(),
{
    let mut tags = Json::empty_array();
    tags.push_item(Json::text("Polls"));
    let mut schema = Json::empty_object();
    schema.set("type", Json::text("string"));
    let mut parameters_entry = Json::empty_object();
    parameters_entry.set("name", Json::text("number"));
    parameters_entry.set("in", Json::text("path"));
    parameters_entry.set("required", Json::Bool(true));
    parameters_entry.set("schema", schema);
    let mut parameters = Json::empty_array();
    parameters.push_item(parameters_entry);
    let mut schema_2 = Json::empty_object();
    schema_2.set("$ref", Json::text("#/components/schemas/CreatePollPayload"));
    let mut application_json = Json::empty_object();
    application_json.set("schema", schema_2);
    let mut content = Json::empty_object();
    content.set("application/json", application_json);
    let mut requestbody = Json::empty_object();
    requestbody.set("required", Json::Bool(true));
    requestbody.set("content", content);
    let mut status_201 = Json::empty_object();
    status_201.set("description", Json::text("Poll sent"));
    let mut responses = Json::empty_object();
    responses.set("201", status_201);
    let mut post = Json::empty_object();
    post.set("tags", tags);
    post.set("summary", Json::text("Create and send a poll"));
    post.set("description", Json::text("Backed by signal-cli's `sendPollCreate` JSON-RPC method."));
    post.set("operationId", Json::text("createPoll"));
    post.set("parameters", parameters);
    post.set("requestBody", requestbody);
    post.set("responses", responses);
    let mut tags_2 = Json::empty_array();
    tags_2.push_item(Json::text("Polls"));
    let mut schema_3 = Json::empty_object();
    schema_3.set("type", Json::text("string"));
    let mut parameters_entry_2 = Json::empty_object();
    parameters_entry_2.set("name", Json::text("number"));
    parameters_entry_2.set("in", Json::text("path"));
    parameters_entry_2.set("required", Json::Bool(true));
    parameters_entry_2.set("schema", schema_3);
    let mut parameters_2 = Json::empty_array();
    parameters_2.push_item(parameters_entry_2);
    let mut required = Json::empty_array();
    required.push_item(Json::text("poll_timestamp"));
    let mut recipient = Json::empty_object();
    recipient.set("type", Json::text("string"));
    let mut group_id = Json::empty_object();
    group_id.set("type", Json::text("string"));
    let mut poll_timestamp = Json::empty_object();
    poll_timestamp.set("type", Json::text("integer"));
    let mut properties = Json::empty_object();
    properties.set("recipient", recipient);
    properties.set("group_id", group_id);
    properties.set("poll_timestamp", poll_timestamp);
    let mut schema_4 = Json::empty_object();
    schema_4.set("type", Json::text("object"));
    schema_4.set("required", required);
    schema_4.set("properties", properties);
    let mut application_json_2 = Json::empty_object();
    application_json_2.set("schema", schema_4);
    let mut content_2 = Json::empty_object();
    content_2.set("application/json", application_json_2);
    let mut requestbody_2 = Json::empty_object();
    requestbody_2.set("required", Json::Bool(true));
    requestbody_2.set("content", content_2);
    let mut status_200 = Json::empty_object();
    status_200.set("description", Json::text("Poll terminated"));
    let mut responses_2 = Json::empty_object();
    responses_2.set("200", status_200);
    let mut delete = Json::empty_object();
    delete.set("tags", tags_2);
    delete.set("summary", Json::text("Terminate (close) a poll"));
    delete.set("description", Json::text("Backed by signal-cli's `sendPollTerminate` JSON-RPC method. Addressed by the poll message's own timestamp - signal-cli has no server-side poll ID concept."));
    delete.set("operationId", Json::text("closePoll"));
    delete.set("parameters", parameters_2);
    delete.set("requestBody", requestbody_2);
    delete.set("responses", responses_2);
    let mut item = Json::empty_object();
    item.set("post", post);
    item.set("delete", delete);
    item
}

/// The operations of `/v1/polls/{number}/vote`.
pub open spec fn openapi_path_v1_polls_number_vote() -> JsonView {
    JsonView::Object(
        map![
            "post"@ => JsonView::Object(
                map![
                    "tags"@ => JsonView::Array(
                        Seq::empty()
                            .push(JsonView::Str("Polls"@))
                    ),
                    "summary"@ => JsonView::Str("Vote on a poll"@),
                    "description"@ => JsonView::Str("Backed by signal-cli's `sendPollVote` JSON-RPC method."@),
                    "operationId"@ => JsonView::Str("votePoll"@),
                    "parameters"@ => JsonView::Array(
                        Seq::empty()
                            .push(JsonView::Object(
                                map![
                                    "name"@ => JsonView::Str("number"@),
                                    "in"@ => JsonView::Str("path"@),
                                    "required"@ => JsonView::Bool(true),
                                    "schema"@ => JsonView::Object(
                                        map![
                                            "type"@ => JsonView::Str("string"@),
                                        ],
                                    ),
                                ],
                            ))
                    ),
                    "requestBody"@ => JsonView::Object(
                        map![
                            "required"@ => JsonView::Bool(true),
                            "content"@ => JsonView::Object(
                                map![
                                    "application/json"@ => JsonView::Object(
                                        map![
                                            "schema"@ => JsonView::Object(
                                                map![
                                                    "type"@ => JsonView::Str("object"@),
                                                    "required"@ => JsonView::Array(
                                                        Seq::empty()
                                                            .push(JsonView::Str("poll_author"@))
                                                            .push(JsonView::Str("poll_timestamp"@))
                                                            .push(JsonView::Str("option"@))
                                                    ),
                                                    "properties"@ => JsonView::Object(
                                                        map![
                                                            "recipient"@ => JsonView::Object(
                                                                map![
                                                                    "type"@ => JsonView::Str("string"@),
                                                                ],
                                                            ),
                                                            "group_id"@ => JsonView::Object(
                                                                map![
                                                                    "type"@ => JsonView::Str("string"@),
                                                                ],
                                                            ),
                                                            "poll_author"@ => JsonView::Object(
                                                                map![
                                                                    "type"@ => JsonView::Str("string"@),
                                                                ],
                                                            ),
                                                            "poll_timestamp"@ => JsonView::Object(
                                                                map![
                                                                    "type"@ => JsonView::Str("integer"@),
                                                                ],
                                                            ),
                                                            "option"@ => JsonView::Object(
                                                                map![
                                                                    "type"@ => JsonView::Str("integer"@),
                                                                ],
                                                            ),
                                                        ],
                                                    ),
                                                ],
                                            ),
                                        ],
                                    ),
                                ],
                            ),
                        ],
                    ),
                    "responses"@ => JsonView::Object(
                        map![
                            "200"@ => JsonView::Object(
                                map![
                                    "description"@ => JsonView::Str("Vote sent"@),
                                ],
                            ),
                        ],
                    ),
                ],
            ),
        ],
    )
}

fn path_v1_polls_number_vote() -> (r: Json)
    ensures
        r@ == openapi_path_v1_polls_number_vote(),
{
    let mut tags = Json::empty_array();
    tags.push_item(Json::text("Polls"));
    let mut schema = Json::empty_object();
    schema.set("type", Json::text("string"));
    let mut parameters_entry = Json::empty_object();
    parameters_entry.set("name", Json::text("number"));
    parameters_entry.set("in", Json::text("path"));
    parameters_entry.set("required", Json::Bool(true));
    parameters_entry.set("schema", schema);
    let mut parameters = Json::empty_array();
    parameters.push_item(parameters_entry);
    let mut required = Json::empty_array();
    required.push_item(Json::text("poll_author"));
    required.push_item(Json::text("poll_timestamp"));
    required.push_item(Json::text("option"));
    let mut recipient = Json::empty_object();
    recipient.set("type", Json::text("string"));
    let mut group_id = Json::empty_object();
    group_id.set("type", Json::text("string"));
    let mut poll_author = Json::empty_object();
    poll_author.set("type", Json::text("string"));
    let mut poll_timestamp = Json::empty_object();
    poll_timestamp.set("type", Json::text("integer"));
    let mut option = Json::empty_object();
    option.set("type", Json::text("integer"));
    let mut properties = Json::empty_object();
    properties.set("recipient", recipient);
    properties.set("group_id", group_id);
    properties.set("poll_author", poll_author);
    properties.set("poll_timestamp", poll_timestamp);
    properties.set("option", option);
    let mut schema_2 = Json::empty_object();
    schema_2.set("type", Json::text("object"));
    schema_2.set("required", required);
    schema_2.set("properties", properties);
    let mut application_json = Json::empty_object();
    application_json.set("schema", schema_2);
    let mut content = Json::empty_object();
    content.set("application/json", application_json);
    let mut requestbody = Json::empty_object();
    requestbody.set("required", Json::Bool(true));
    requestbody.set("content", content);
    let mut status_200 = Json::empty_object();
    status_200.set("description", Json::text("Vote sent"));
    let mut responses = Json::empty_object();
    responses.set("200", status_200);
    let mut post = Json::empty_object();
    post.set("tags", tags);
    post.set("summary", Json::text("Vote on a poll"));
    post.set("description", Json::text("Backed by signal-cli's `sendPollVote` JSON-RPC method."));
    post.set("operationId", Json::text("votePoll"));
    post.set("parameters", parameters);
    post.set("requestBody", requestbody);
    post.set("responses", responses);
    let mut item = Json::empty_object();
    item.set("post", post);
    item
}

/// The operations of `/v1/sticker-packs/{number}`.
pub open spec fn openapi_path_v1_sticker_packs_number() -> JsonView {
    JsonView::Object(
        map![
            "get"@ => JsonView::Object(
                map![
                    "tags"@ => JsonView::Array(
                        Seq::empty()
                            .push(JsonView::Str("Stickers"@))
                    ),
                    "summary"@ => JsonView::Str("List installed sticker packs"@),
                    "operationId"@ => JsonView::Str("listStickerPacks"@),
                    "parameters"@ => JsonView::Array(
                        Seq::empty()
                            .push(JsonView::Object(
                                map![
                                    "name"@ => JsonView::Str("number"@),
                                    "in"@ => JsonView::Str("path"@),
                                    "required"@ => JsonView::Bool(true),
                                    "schema"@ => JsonView::Object(
                                        map![
                                            "type"@ => JsonView::Str("string"@),
                                        ],
                                    ),
                                ],
                            ))
                    ),
                    "responses"@ => JsonView::Object(
                        map![
                            "200"@ => JsonView::Object(
                                map![
                                    "description"@ => JsonView::Str("Array of sticker packs"@),
                                ],
                            ),
                        ],
                    ),
                ],
            ),
            "post"@ => JsonView::Object(
                map![
                    "tags"@ => JsonView::Array(
                        Seq::empty()
                            .push(JsonView::Str("Stickers"@))
                    ),
                    "summary"@ => JsonView::Str("Install a sticker pack"@),
                    "description"@ => JsonView::Str("Backed by signal-cli's `addStickerPack` JSON-RPC method. Accepts either a full signal.art URI, or a pack_id + pack_key pair from which the URI is constructed."@),
                    "operationId"@ => JsonView::Str("installStickerPack"@),
                    "parameters"@ => JsonView::Array(
                        Seq::empty()
                            .push(JsonView::Object(
                                map![
                                    "name"@ => JsonView::Str("number"@),
                                    "in"@ => JsonView::Str("path"@),
                                    "required"@ => JsonView::Bool(true),
                                    "schema"@ => JsonView::Object(
                                        map![
                                            "type"@ => JsonView::Str("string"@),
                                        ],
                                    ),
                                ],
                            ))
                    ),
                    "requestBody"@ => JsonView::Object(
                        map![
                            "required"@ => JsonView::Bool(true),
                            "content"@ => JsonView::Object(
                                map![
                                    "application/json"@ => JsonView::Object(
                                        map![
                                            "schema"@ => JsonView::Object(
                                                map![
                                                    "type"@ => JsonView::Str("object"@),
                                                    "properties"@ => JsonView::Object(
                                                        map![
                                                            "uri"@ => JsonView::Object(
                                                                map![
                                                                    "type"@ => JsonView::Str("string"@),
                                                                ],
                                                            ),
                                                            "pack_id"@ => JsonView::Object(
                                                                map![
                                                                    "type"@ => JsonView::Str("string"@),
                                                                ],
                                                            ),
                                                            "pack_key"@ => JsonView::Object(
                                                                map![
                                                                    "type"@ => JsonView::Str("string"@),
                                                                ],
                                                            ),
                                                        ],
                                                    ),
                                                ],
                                            ),
                                        ],
                                    ),
                                ],
                            ),
                        ],
                    ),
                    "responses"@ => JsonView::Object(
                        map![
                            "201"@ => JsonView::Object(
                                map![
                                    "description"@ => JsonView::Str("Sticker pack installed"@),
                                ],
                            ),
                        ],
                    ),
                ],
            ),
        ],
    )
}

fn path_v1_sticker_packs_number() -> (r: Json)
    ensures
        r@ == openapi_path_v1_sticker_packs_number(),
{
    let mut tags = Json::empty_array();
    tags.push_item(Json::text("Stickers"));
    let mut schema = Json::empty_object();
    schema.set("type", Json::text("string"));
    let mut parameters_entry = Json::empty_object();
    parameters_entry.set("name", Json::text("number"));
    parameters_entry.set("in", Json::text("path"));
    parameters_entry.set("required", Json::Bool(true));
    parameters_entry.set("schema", schema);
    let mut parameters = Json::empty_array();
    parameters.push_item(parameters_entry);
    let mut status_200 = Json::empty_object();
    status_200.set("description", Json::text("Array of sticker packs"));
    let mut responses = Json::empty_object();
    responses.set("200", status_200);
    let mut get = Json::empty_object();
    get.set("tags", tags);
    get.set("summary", Json::text("List installed sticker packs"));
    get.set("operationId", Json::text("listStickerPacks"));
    get.set("parameters", parameters);
    get.set("responses", responses);
    let mut tags_2 = Json::empty_array();
    tags_2.push_item(Json::text("Stickers"));
    let mut schema_2 = Json::empty_object();
    schema_2.set("type", Json::text("string"));
    let mut parameters_entry_2 = Json::empty_object();
    parameters_entry_2.set("name", Json::text("number"));
    parameters_entry_2.set("in", Json::text("path"));
    parameters_entry_2.set("required", Json::Bool(true));
    parameters_entry_2.set("schema", schema_2);
    let mut parameters_2 = Json::empty_array();
    parameters_2.push_item(parameters_entry_2);
    let mut uri = Json::empty_object();
    uri.set("type", Json::text("string"));
    let mut pack_id = Json::empty_object();
    pack_id.set("type", Json::text("string"));
    let mut pack_key = Json::empty_object();
    pack_key.set("type", Json::text("string"));
    let mut properties = Json::empty_object();
    properties.set("uri", uri);
    properties.set("pack_id", pack_id);
    properties.set("pack_key", pack_key);
    let mut schema_3 = Json::empty_object();
    schema_3.set("type", Json::text("object"));
    schema_3.set("properties", properties);
    let mut application_json = Json::empty_object();
    application_json.set("schema", schema_3);
    let mut content = Json::empty_object();
    content.set("application/json", application_json);
    let mut requestbody = Json::empty_object();
    requestbody.set("required", Json::Bool(true));
    requestbody.set("content", content);
    let mut status_201 = Json::empty_object();
    status_201.set("description", Json::text("Sticker pack installed"));
    let mut responses_2 = Json::empty_object();
    responses_2.set("201", status_201);
    let mut post = Json::empty_object();
    post.set("tags", tags_2);
    post.set("summary", Json::text("Install a sticker pack"));
    post.set("description", Json::text("Backed by signal-cli's `addStickerPack` JSON-RPC method. Accepts either a full signal.art URI, or a pack_id + pack_key pair from which the URI is constructed."));
    post.set("operationId", Json::text("installStickerPack"));
    post.set("parameters", parameters_2);
    post.set("requestBody", requestbody);
    post.set("responses", responses_2);
    let mut item = Json::empty_object();
    item.set("get", get);
    item.set("post", post);
    item
}

/// The operations of `/v1/sticker-packs/{number}/{pack_id}/{sticker_id}`.
pub open spec fn openapi_path_v1_sticker_packs_number_pack_id_sticker_id() -> JsonView {
    JsonView::Object(
        map![
            "get"@ => JsonView::Object(
                map![
                    "tags"@ => JsonView::Array(
                        Seq::empty()
                            .push(JsonView::Str("Stickers"@))
                    ),
                    "summary"@ => JsonView::Str("Get a single sticker"@),
                    "description"@ => JsonView::Str("Backed by signal-cli's `getSticker` JSON-RPC method."@),
                    "operationId"@ => JsonView::Str("getSticker"@),
                    "parameters"@ => JsonView::Array(
                        Seq::empty()
                            .push(JsonView::Object(
                                map![
                                    "name"@ => JsonView::Str("number"@),
                                    "in"@ => JsonView::Str("path"@),
                                    "required"@ => JsonView::Bool(true),
                                    "schema"@ => JsonView::Object(
                                        map![
                                            "type"@ => JsonView::Str("string"@),
                                        ],
                                    ),
                                ],
                            ))
                            .push(JsonView::Object(
                                map![
                                    "name"@ => JsonView::Str("pack_id"@),
                                    "in"@ => JsonView::Str("path"@),
                                    "required"@ => JsonView::Bool(true),
                                    "schema"@ => JsonView::Object(
                                        map![
                                            "type"@ => JsonView::Str("string"@),
                                        ],
                                    ),
                                ],
                            ))
                            .push(JsonView::Object(
                                map![
                                    "name"@ => JsonView::Str("sticker_id"@),
                                    "in"@ => JsonView::Str("path"@),
                                    "required"@ => JsonView::Bool(true),
                                    "schema"@ => JsonView::Object(
                                        map![
                                            "type"@ => JsonView::Str("integer"@),
                                        ],
                                    ),
                                ],
                            ))
                    ),
                    "responses"@ => JsonView::Object(
                        map![
                            "200"@ => JsonView::Object(
                                map![
                                    "description"@ => JsonView::Str("Base64-encoded sticker image"@),
                                    "content"@ => JsonView::Object(
                                        map![
                                            "application/json"@ => JsonView::Object(
                                                map![
                                                    "schema"@ => JsonView::Object(
                                                        map![
                                                            "$ref"@ => JsonView::Str("#/components/schemas/AttachmentData"@),
                                                        ],
                                                    ),
                                                ],
                                            ),
                                        ],
                                    ),
                                ],
                            ),
                        ],
                    ),
                ],
            ),
        ],
    )
}

fn path_v1_sticker_packs_number_pack_id_sticker_id() -> (r: Json)
    ensures
        r@ == openapi_path_v1_sticker_packs_number_pack_id_sticker_id(),
{
    let mut tags = Json::empty_array();
    tags.push_item(Json::text("Stickers"));
    let mut schema = Json::empty_object();
    schema.set("type", Json::text("string"));
    let mut parameters_entry = Json::empty_object();
    parameters_entry.set("name", Json::text("number"));
    parameters_entry.set("in", Json::text("path"));
    parameters_entry.set("required", Json::Bool(true));
    parameters_entry.set("schema", schema);
    let mut schema_2 = Json::empty_object();
    schema_2.set("type", Json::text("string"));
    let mut parameters_entry_2 = Json::empty_object();
    parameters_entry_2.set("name", Json::text("pack_id"));
    parameters_entry_2.set("in", Json::text("path"));
    parameters_entry_2.set("required", Json::Bool(true));
    parameters_entry_2.set("schema", schema_2);
    let mut schema_3 = Json::empty_object();
    schema_3.set("type", Json::text("integer"));
    let mut parameters_entry_3 = Json::empty_object();
    parameters_entry_3.set("name", Json::text("sticker_id"));
    parameters_entry_3.set("in", Json::text("path"));
    parameters_entry_3.set("required", Json::Bool(true));
    parameters_entry_3.set("schema", schema_3);
    let mut parameters = Json::empty_array();
    parameters.push_item(parameters_entry);
    parameters.push_item(parameters_entry_2);
    parameters.push_item(parameters_entry_3);
    let mut schema_4 = Json::empty_object();
    schema_4.set("$ref", Json::text("#/components/schemas/AttachmentData"));
    let mut application_json = Json::empty_object();
    application_json.set("schema", schema_4);
    let mut content = Json::empty_object();
    content.set("application/json", application_json);
    let mut status_200 = Json::empty_object();
    status_200.set("description", Json::text("Base64-encoded sticker image"));
    status_200.set("content", content);
    let mut responses = Json::empty_object();
    responses.set("200", status_200);
    let mut get = Json::empty_object();
    get.set("tags", tags);
    get.set("summary", Json::text("Get a single sticker"));
    get.set("description", Json::text("Backed by signal-cli's `getSticker` JSON-RPC method."));
    get.set("operationId", Json::text("getSticker"));
    get.set("parameters", parameters);
    get.set("responses", responses);
    let mut item = Json::empty_object();
    item.set("get", get);
    item
}

/// The operations of `/v1/stories/{number}`.
pub open spec fn openapi_path_v1_stories_number() -> JsonView {
    JsonView::Object(
        map![
            "post"@ => JsonView::Object(
                map![
                    "tags"@ => JsonView::Array(
                        Seq::empty()
                            .push(JsonView::Str("Stories"@))
                    ),
                    "summary"@ => JsonView::Str("Post a story"@),
                    "description"@ => JsonView::Str("Backed by signal-cli's `sendStory` JSON-RPC method."@),
                    "operationId"@ => JsonView::Str("sendStory"@),
                    "parameters"@ => JsonView::Array(
                        Seq::empty()
                            .push(JsonView::Object(
                                map![
                                    "name"@ => JsonView::Str("number"@),
                                    "in"@ => JsonView::Str("path"@),
                                    "required"@ => JsonView::Bool(true),
                                    "schema"@ => JsonView::Object(
                                        map![
                                            "type"@ => JsonView::Str("string"@),
                                        ],
                                    ),
                                ],
                            ))
                    ),
                    "requestBody"@ => JsonView::Object(
                        map![
                            "required"@ => JsonView::Bool(true),
                            "content"@ => JsonView::Object(
                                map![
                                    "application/json"@ => JsonView::Object(
                                        map![
                                            "schema"@ => JsonView::Object(
                                                map![
                                                    "type"@ => JsonView::Str("object"@),
                                                    "required"@ => JsonView::Array(
                                                        Seq::empty()
                                                            .push(JsonView::Str("attachment"@))
                                                    ),
                                                    "properties"@ => JsonView::Object(
                                                        map![
                                                            "attachment"@ => JsonView::Object(
                                                                map![
                                                                    "type"@ => JsonView::Str("string"@),
                                                                    "description"@ => JsonView::Str("Data URI or file path"@),
                                                                ],
                                                            ),
                                                            "group_id"@ => JsonView::Object(
                                                                map![
                                                                    "type"@ => JsonView::Str("string"@),
                                                                ],
                                                            ),
                                                            "no_replies"@ => JsonView::Object(
                                                                map![
                                                                    "type"@ => JsonView::Str("boolean"@),
                                                                ],
                                                            ),
                                                        ],
                                                    ),
                                                ],
                                            ),
                                        ],
                                    ),
                                ],
                            ),
                        ],
                    ),
                    "responses"@ => JsonView::Object(
                        map![
                            "201"@ => JsonView::Object(
                                map![
                                    "description"@ => JsonView::Str("Story posted"@),
                                ],
                            ),
                        ],
                    ),
                ],
            ),
        ],
    )
}

fn path_v1_stories_number() -> (r: Json)
    ensures
        r@ == openapi_path_v1_stories_number(),
{
    let mut tags = Json::empty_array();
    tags.push_item(Json::text("Stories"));
    let mut schema = Json::empty_object();
    schema.set("type", Json::text("string"));
    let mut parameters_entry = Json::empty_object();
    parameters_entry.set("name", Json::text("number"));
    parameters_entry.set("in", Json::text("path"));
    parameters_entry.set("required", Json::Bool(true));
    parameters_entry.set("schema", schema);
    let mut parameters = Json::empty_array();
    parameters.push_item(parameters_entry);
    let mut required = Json::empty_array();
    required.push_item(Json::text("attachment"));
    let mut attachment = Json::empty_object();
    attachment.set("type", Json::text("string"));
    attachment.set("description", Json::text("Data URI or file path"));
    let mut group_id = Json::empty_object();
    group_id.set("type", Json::text("string"));
    let mut no_replies = Json::empty_object();
    no_replies.set("type", Json::text("boolean"));
    let mut properties = Json::empty_object();
    properties.set("attachment", attachment);
    properties.set("group_id", group_id);
    properties.set("no_replies", no_replies);
    let mut schema_2 = Json::empty_object();
    schema_2.set("type", Json::text("object"));
    schema_2.set("required", required);
    schema_2.set("properties", properties);
    let mut application_json = Json::empty_object();
    application_json.set("schema", schema_2);
    let mut content = Json::empty_object();
    content.set("application/json", application_json);
    let mut requestbody = Json::empty_object();
    requestbody.set("required", Json::Bool(true));
    requestbody.set("content", content);
    let mut status_201 = Json::empty_object();
    status_201.set("description", Json::text("Story posted"));
    let mut responses = Json::empty_object();
    responses.set("201", status_201);
    let mut post = Json::empty_object();
    post.set("tags", tags);
    post.set("summary", Json::text("Post a story"));
    post.set("description", Json::text("Backed by signal-cli's `sendStory` JSON-RPC method."));
    post.set("operationId", Json::text("sendStory"));
    post.set("parameters", parameters);
    post.set("requestBody", requestbody);
    post.set("responses", responses);
    let mut item = Json::empty_object();
    item.set("post", post);
    item
}

/// The operations of `/v1/pins/{number}`.
pub open spec fn openapi_path_v1_pins_number() -> JsonView {
    JsonView::Object(
        map![
            "post"@ => JsonView::Object(
                map![
                    "tags"@ => JsonView::Array(
                        Seq::empty()
                            .push(JsonView::Str("Messages"@))
                    ),
                    "summary"@ => JsonView::Str("Pin a message"@),
                    "description"@ => JsonView::Str("Backed by signal-cli's `sendPinMessage` JSON-RPC method."@),
                    "operationId"@ => JsonView::Str("pinMessage"@),
                    "parameters"@ => JsonView::Array(
                        Seq::empty()
                            .push(JsonView::Object(
                                map![
                                    "name"@ => JsonView::Str("number"@),
                                    "in"@ => JsonView::Str("path"@),
                                    "required"@ => JsonView::Bool(true),
                                    "schema"@ => JsonView::Object(
                                        map![
                                            "type"@ => JsonView::Str("string"@),
                                        ],
                                    ),
                                ],
                            ))
                    ),
                    "requestBody"@ => JsonView::Object(
                        map![
                            "required"@ => JsonView::Bool(true),
                            "content"@ => JsonView::Object(
                                map![
                                    "application/json"@ => JsonView::Object(
                                        map![
                                            "schema"@ => JsonView::Object(
                                                map![
                                                    "type"@ => JsonView::Str("object"@),
                                                    "required"@ => JsonView::Array(
                                                        Seq::empty()
                                                            .push(JsonView::Str("target_author"@))
                                                            .push(JsonView::Str("target_timestamp"@))
                                                    ),
                                                    "properties"@ => JsonView::Object(
                                                        map![
                                                            "recipient"@ => JsonView::Object(
                                                                map![
                                                                    "type"@ => JsonView::Str("string"@),
                                                                ],
                                                            ),
                                                            "group_id"@ => JsonView::Object(
                                                                map![
                                                                    "type"@ => JsonView::Str("string"@),
                                                                ],
                                                            ),
                                                            "target_author"@ => JsonView::Object(
                                                                map![
                                                                    "type"@ => JsonView::Str("string"@),
                                                                ],
                                                            ),
                                                            "target_timestamp"@ => JsonView::Object(
                                                                map![
                                                                    "type"@ => JsonView::Str("integer"@),
                                                                ],
                                                            ),
                                                            "pin_duration"@ => JsonView::Object(
                                                                map![
                                                                    "type"@ => JsonView::Str("integer"@),
                                                                    "description"@ => JsonView::Str("Seconds; -1 = forever"@),
                                                                ],
                                                            ),
                                                            "story"@ => JsonView::Object(
                                                                map![
                                                                    "type"@ => JsonView::Str("boolean"@),
                                                                ],
                                                            ),
                                                        ],
                                                    ),
                                                ],
                                            ),
                                        ],
                                    ),
                                ],
                            ),
                        ],
                    ),
                    "responses"@ => JsonView::Object(
                        map![
                            "200"@ => JsonView::Object(
                                map![
                                    "description"@ => JsonView::Str("Pin sent"@),
                                ],
                            ),
                        ],
                    ),
                ],
            ),
        ],
    )
}

fn path_v1_pins_number() -> (r: Json)
    ensures
        r@ == openapi_path_v1_pins_number(),
{
    let mut tags = Json::empty_array();
    tags.push_item(Json::text("Messages"));
    let mut schema = Json::empty_object();
    schema.set("type", Json::text("string"));
    let mut parameters_entry = Json::empty_object();
    parameters_entry.set("name", Json::text("number"));
    parameters_entry.set("in", Json::text("path"));
    parameters_entry.set("required", Json::Bool(true));
    parameters_entry.set("schema", schema);
    let mut parameters = Json::empty_array();
    parameters.push_item(parameters_entry);
    let mut required = Json::empty_array();
    required.push_item(Json::text("target_author"));
    required.push_item(Json::text("target_timestamp"));
    let mut recipient = Json::empty_object();
    recipient.set("type", Json::text("string"));
    let mut group_id = Json::empty_object();
    group_id.set("type", Json::text("string"));
    let mut target_author = Json::empty_object();
    target_author.set("type", Json::text("string"));
    let mut target_timestamp = Json::empty_object();
    target_timestamp.set("type", Json::text("integer"));
    let mut pin_duration = Json::empty_object();
    pin_duration.set("type", Json::text("integer"));
    pin_duration.set("description", Json::text("Seconds; -1 = forever"));
    let mut story = Json::empty_object();
    story.set("type", Json::text("boolean"));
    let mut properties = Json::empty_object();
    properties.set("recipient", recipient);
    properties.set("group_id", group_id);
    properties.set("target_author", target_author);
    properties.set("target_timestamp", target_timestamp);
    properties.set("pin_duration", pin_duration);
    properties.set("story", story);
    let mut schema_2 = Json::empty_object();
    schema_2.set("type", Json::text("object"));
    schema_2.set("required", required);
    schema_2.set("properties", properties);
    let mut application_json = Json::empty_object();
    application_json.set("schema", schema_2);
    let mut content = Json::empty_object();
    content.set("application/json", application_json);
    let mut requestbody = Json::empty_object();
    requestbody.set("required", Json::Bool(true));
    requestbody.set("content", content);
    let mut status_200 = Json::empty_object();
    status_200.set("description", Json::text("Pin sent"));
    let mut responses = Json::empty_object();
    responses.set("200", status_200);
    let mut post = Json::empty_object();
    post.set("tags", tags);
    post.set("summary", Json::text("Pin a message"));
    post.set("description", Json::text("Backed by signal-cli's `sendPinMessage` JSON-RPC method."));
    post.set("operationId", Json::text("pinMessage"));
    post.set("parameters", parameters);
    post.set("requestBody", requestbody);
    post.set("responses", responses);
    let mut item = Json::empty_object();
    item.set("post", post);
    item
}

/// The operations of `/v1/pins/{number}/unpin`.
pub open spec fn openapi_path_v1_pins_number_unpin() -> JsonView {
    JsonView::Object(
        map![
            "post"@ => JsonView::Object(
                map![
                    "tags"@ => JsonView::Array(
                        Seq::empty()
                            .push(JsonView::Str("Messages"@))
                    ),
                    "summary"@ => JsonView::Str("Unpin a message"@),
                    "description"@ => JsonView::Str("Backed by signal-cli's `sendUnpinMessage` JSON-RPC method."@),
                    "operationId"@ => JsonView::Str("unpinMessage"@),
                    "parameters"@ => JsonView::Array(
                        Seq::empty()
                            .push(JsonView::Object(
                                map![
                                    "name"@ => JsonView::Str("number"@),
                                    "in"@ => JsonView::Str("path"@),
                                    "required"@ => JsonView::Bool(true),
                                    "schema"@ => JsonView::Object(
                                        map![
                                            "type"@ => JsonView::Str("string"@),
                                        ],
                                    ),
                                ],
                            ))
                    ),
                    "requestBody"@ => JsonView::Object(
                        map![
                            "required"@ => JsonView::Bool(true),
                            "content"@ => JsonView::Object(
                                map![
                                    "application/json"@ => JsonView::Object(
                                        map![
                                            "schema"@ => JsonView::Object(
                                                map![
                                                    "type"@ => JsonView::Str("object"@),
                                                    "required"@ => JsonView::Array(
                                                        Seq::empty()
                                                            .push(JsonView::Str("target_author"@))
                                                            .push(JsonView::Str("target_timestamp"@))
                                                    ),
                                                    "properties"@ => JsonView::Object(
                                                        map![
                                                            "recipient"@ => JsonView::Object(
                                                                map![
                                                                    "type"@ => JsonView::Str("string"@),
                                                                ],
                                                            ),
                                                            "group_id"@ => JsonView::Object(
                                                                map![
                                                                    "type"@ => JsonView::Str("string"@),
                                                                ],
                                                            ),
                                                            "target_author"@ => JsonView::Object(
                                                                map![
                                                                    "type"@ => JsonView::Str("string"@),
                                                                ],
                                                            ),
                                                            "target_timestamp"@ => JsonView::Object(
                                                                map![
                                                                    "type"@ => JsonView::Str("integer"@),
                                                                ],
                                                            ),
                                                            "story"@ => JsonView::Object(
                                                                map![
                                                                    "type"@ => JsonView::Str("boolean"@),
                                                                ],
                                                            ),
                                                        ],
                                                    ),
                                                ],
                                            ),
                                        ],
                                    ),
                                ],
                            ),
                        ],
                    ),
                    "responses"@ => JsonView::Object(
                        map![
                            "200"@ => JsonView::Object(
                                map![
                                    "description"@ => JsonView::Str("Unpin sent"@),
                                ],
                            ),
                        ],
                    ),
                ],
            ),
        ],
    )
}

fn path_v1_pins_number_unpin() -> (r: Json)
    ensures
        r@ == openapi_path_v1_pins_number_unpin(),
{
    let mut tags = Json::empty_array();
    tags.push_item(Json::text("Messages"));
    let mut schema = Json::empty_object();
    schema.set("type", Json::text("string"));
    let mut parameters_entry = Json::empty_object();
    parameters_entry.set("name", Json::text("number"));
    parameters_entry.set("in", Json::text("path"));
    parameters_entry.set("required", Json::Bool(true));
    parameters_entry.set("schema", schema);
    let mut parameters = Json::empty_array();
    parameters.push_item(parameters_entry);
    let mut required = Json::empty_array();
    required.push_item(Json::text("target_author"));
    required.push_item(Json::text("target_timestamp"));
    let mut recipient = Json::empty_object();
    recipient.set("type", Json::text("string"));
    let mut group_id = Json::empty_object();
    group_id.set("type", Json::text("string"));
    let mut target_author = Json::empty_object();
    target_author.set("type", Json::text("string"));
    let mut target_timestamp = Json::empty_object();
    target_timestamp.set("type", Json::text("integer"));
    let mut story = Json::empty_object();
    story.set("type", Json::text("boolean"));
    let mut properties = Json::empty_object();
    properties.set("recipient", recipient);
    properties.set("group_id", group_id);
    properties.set("target_author", target_author);
    properties.set("target_timestamp", target_timestamp);
    properties.set("story", story);
    let mut schema_2 = Json::empty_object();
    schema_2.set("type", Json::text("object"));
    schema_2.set("required", required);
    schema_2.set("properties", properties);
    let mut application_json = Json::empty_object();
    application_json.set("schema", schema_2);
    let mut content = Json::empty_object();
    content.set("application/json", application_json);
    let mut requestbody = Json::empty_object();
    requestbody.set("required", Json::Bool(true));
    requestbody.set("content", content);
    let mut status_200 = Json::empty_object();
    status_200.set("description", Json::text("Unpin sent"));
    let mut responses = Json::empty_object();
    responses.set("200", status_200);
    let mut post = Json::empty_object();
    post.set("tags", tags);
    post.set("summary", Json::text("Unpin a message"));
    post.set("description", Json::text("Backed by signal-cli's `sendUnpinMessage` JSON-RPC method."));
    post.set("operationId", Json::text("unpinMessage"));
    post.set("parameters", parameters);
    post.set("requestBody", requestbody);
    post.set("responses", responses);
    let mut item = Json::empty_object();
    item.set("post", post);
    item
}

/// The operations of `/v1/payments/{number}`.
pub open spec fn openapi_path_v1_payments_number() -> JsonView {
    JsonView::Object(
        map![
            "post"@ => JsonView::Object(
                map![
                    "tags"@ => JsonView::Array(
                        Seq::empty()
                            .push(JsonView::Str("Messages"@))
                    ),
                    "summary"@ => JsonView::Str("Send a payment notification"@),
                    "description"@ => JsonView::Str("Backed by signal-cli's `sendPaymentNotification` JSON-RPC method."@),
                    "operationId"@ => JsonView::Str("sendPaymentNotification"@),
                    "parameters"@ => JsonView::Array(
                        Seq::empty()
                            .push(JsonView::Object(
                                map![
                                    "name"@ => JsonView::Str("number"@),
                                    "in"@ => JsonView::Str("path"@),
                                    "required"@ => JsonView::Bool(true),
                                    "schema"@ => JsonView::Object(
                                        map![
                                            "type"@ => JsonView::Str("string"@),
                                        ],
                                    ),
                                ],
                            ))
                    ),
                    "requestBody"@ => JsonView::Object(
                        map![
                            "required"@ => JsonView::Bool(true),
                            "content"@ => JsonView::Object(
                                map![
                                    "application/json"@ => JsonView::Object(
                                        map![
                                            "schema"@ => JsonView::Object(
                                                map![
                                                    "type"@ => JsonView::Str("object"@),
                                                    "required"@ => JsonView::Array(
                                                        Seq::empty()
                                                            .push(JsonView::Str("recipient"@))
                                                            .push(JsonView::Str("receipt"@))
                                                    ),
                                                    "properties"@ => JsonView::Object(
                                                        map![
                                                            "recipient"@ => JsonView::Object(
                                                                map![
                                                                    "type"@ => JsonView::Str("string"@),
                                                                ],
                                                            ),
                                                            "receipt"@ => JsonView::Object(
                                                                map![
                                                                    "type"@ => JsonView::Str("string"@),
                                                                    "description"@ => JsonView::Str("Base64-encoded MobileCoin receipt blob"@),
                                                                ],
                                                            ),
                                                            "note"@ => JsonView::Object(
                                                                map![
                                                                    "type"@ => JsonView::Str("string"@),
                                                                ],
                                                            ),
                                                        ],
                                                    ),
                                                ],
                                            ),
                                        ],
                                    ),
                                ],
                            ),
                        ],
                    ),
                    "responses"@ => JsonView::Object(
                        map![
                            "201"@ => JsonView::Object(
                                map![
                                    "description"@ => JsonView::Str("Payment notification sent"@),
                                ],
                            ),
                        ],
                    ),
                ],
            ),
        ],
    )
}

fn path_v1_payments_number() -> (r: Json)
    ensures
        r@ == openapi_path_v1_payments_number(),
{
    let mut tags = Json::empty_array();
    tags.push_item(Json::text("Messages"));
    let mut schema = Json::empty_object();
    schema.set("type", Json::text("string"));
    let mut parameters_entry = Json::empty_object();
    parameters_entry.set("name", Json::text("number"));
    parameters_entry.set("in", Json::text("path"));
    parameters_entry.set("required", Json::Bool(true));
    parameters_entry.set("schema", schema);
    let mut parameters = Json::empty_array();
    parameters.push_item(parameters_entry);
    let mut required = Json::empty_array();
    required.push_item(Json::text("recipient"));
    required.push_item(Json::text("receipt"));
    let mut recipient = Json::empty_object();
    recipient.set("type", Json::text("string"));
    let mut receipt = Json::empty_object();
    receipt.set("type", Json::text("string"));
    receipt.set("description", Json::text("Base64-encoded MobileCoin receipt blob"));
    let mut note = Json::empty_object();
    note.set("type", Json::text("string"));
    let mut properties = Json::empty_object();
    properties.set("recipient", recipient);
    properties.set("receipt", receipt);
    properties.set("note", note);
    let mut schema_2 = Json::empty_object();
    schema_2.set("type", Json::text("object"));
    schema_2.set("required", required);
    schema_2.set("properties", properties);
    let mut application_json = Json::empty_object();
    application_json.set("schema", schema_2);
    let mut content = Json::empty_object();
    content.set("application/json", application_json);
    let mut requestbody = Json::empty_object();
    requestbody.set("required", Json::Bool(true));
    requestbody.set("content", content);
    let mut status_201 = Json::empty_object();
    status_201.set("description", Json::text("Payment notification sent"));
    let mut responses = Json::empty_object();
    responses.set("201", status_201);
    let mut post = Json::empty_object();
    post.set("tags", tags);
    post.set("summary", Json::text("Send a payment notification"));
    post.set("description", Json::text("Backed by signal-cli's `sendPaymentNotification` JSON-RPC method."));
    post.set("operationId", Json::text("sendPaymentNotification"));
    post.set("parameters", parameters);
    post.set("requestBody", requestbody);
    post.set("responses", responses);
    let mut item = Json::empty_object();
    item.set("post", post);
    item
}

/// The operations of `/v1/calls/{number}`.
pub open spec fn openapi_path_v1_calls_number() -> JsonView {
    JsonView::Object(
        map![
            "get"@ => JsonView::Object(
                map![
                    "tags"@ => JsonView::Array(
                        Seq::empty()
                            .push(JsonView::Str("Calls"@))
                    ),
                    "summary"@ => JsonView::Str("List active calls"@),
                    "operationId"@ => JsonView::Str("listCalls"@),
                    "parameters"@ => JsonView::Array(
                        Seq::empty()
                            .push(JsonView::Object(
                                map![
                                    "name"@ => JsonView::Str("number"@),
                                    "in"@ => JsonView::Str("path"@),
                                    "required"@ => JsonView::Bool(true),
                                    "schema"@ => JsonView::Object(
                                        map![
                                            "type"@ => JsonView::Str("string"@),
                                        ],
                                    ),
                                ],
                            ))
                    ),
                    "responses"@ => JsonView::Object(
                        map![
                            "200"@ => JsonView::Object(
                                map![
                                    "description"@ => JsonView::Str("Array of active calls"@),
                                ],
                            ),
                        ],
                    ),
                ],
            ),
            "post"@ => JsonView::Object(
                map![
                    "tags"@ => JsonView::Array(
                        Seq::empty()
                            .push(JsonView::Str("Calls"@))
                    ),
                    "summary"@ => JsonView::Str("Start an outgoing call"@),
                    "operationId"@ => JsonView::Str("startCall"@),
                    "parameters"@ => JsonView::Array(
                        Seq::empty()
                            .push(JsonView::Object(
                                map![
                                    "name"@ => JsonView::Str("number"@),
                                    "in"@ => JsonView::Str("path"@),
                                    "required"@ => JsonView::Bool(true),
                                    "schema"@ => JsonView::Object(
                                        map![
                                            "type"@ => JsonView::Str("string"@),
                                        ],
                                    ),
                                ],
                            ))
                    ),
                    "requestBody"@ => JsonView::Object(
                        map![
                            "required"@ => JsonView::Bool(true),
                            "content"@ => JsonView::Object(
                                map![
                                    "application/json"@ => JsonView::Object(
                                        map![
                                            "schema"@ => JsonView::Object(
                                                map![
                                                    "type"@ => JsonView::Str("object"@),
                                                    "required"@ => JsonView::Array(
                                                        Seq::empty()
                                                            .push(JsonView::Str("recipient"@))
                                                    ),
                                                    "properties"@ => JsonView::Object(
                                                        map![
                                                            "recipient"@ => JsonView::Object(
                                                                map![
                                                                    "type"@ => JsonView::Str("string"@),
                                                                ],
                                                            ),
                                                        ],
                                                    ),
                                                ],
                                            ),
                                        ],
                                    ),
                                ],
                            ),
                        ],
                    ),
                    "responses"@ => JsonView::Object(
                        map![
                            "201"@ => JsonView::Object(
                                map![
                                    "description"@ => JsonView::Str("Call started"@),
                                ],
                            ),
                        ],
                    ),
                ],
            ),
        ],
    )
}

fn path_v1_calls_number() -> (r: Json)
    ensures
        r@ == openapi_path_v1_calls_number(),
{
    let mut tags = Json::empty_array();
    tags.push_item(Json::text("Calls"));
    let mut schema = Json::empty_object();
    schema.set("type", Json::text("string"));
    let mut parameters_entry = Json::empty_object();
    parameters_entry.set("name", Json::text("number"));
    parameters_entry.set("in", Json::text("path"));
    parameters_entry.set("required", Json::Bool(true));
    parameters_entry.set("schema", schema);
    let mut parameters = Json::empty_array();
    parameters.push_item(parameters_entry);
    let mut status_200 = Json::empty_object();
    status_200.set("description", Json::text("Array of active calls"));
    let mut responses = Json::empty_object();
    responses.set("200", status_200);
    let mut get = Json::empty_object();
    get.set("tags", tags);
    get.set("summary", Json::text("List active calls"));
    get.set("operationId", Json::text("listCalls"));
    get.set("parameters", parameters);
    get.set("responses", responses);
    let mut tags_2 = Json::empty_array();
    tags_2.push_item(Json::text("Calls"));
    let mut schema_2 = Json::empty_object();
    schema_2.set("type", Json::text("string"));
    let mut parameters_entry_2 = Json::empty_object();
    parameters_entry_2.set("name", Json::text("number"));
    parameters_entry_2.set("in", Json::text("path"));
    parameters_entry_2.set("required", Json::Bool(true));
    parameters_entry_2.set("schema", schema_2);
    let mut parameters_2 = Json::empty_array();
    parameters_2.push_item(parameters_entry_2);
    let mut required = Json::empty_array();
    required.push_item(Json::text("recipient"));
    let mut recipient = Json::empty_object();
    recipient.set("type", Json::text("string"));
    let mut properties = Json::empty_object();
    properties.set("recipient", recipient);
    let mut schema_3 = Json::empty_object();
    schema_3.set("type", Json::text("object"));
    schema_3.set("required", required);
    schema_3.set("properties", properties);
    let mut application_json = Json::empty_object();
    application_json.set("schema", schema_3);
    let mut content = Json::empty_object();
    content.set("application/json", application_json);
    let mut requestbody = Json::empty_object();
    requestbody.set("required", Json::Bool(true));
    requestbody.set("content", content);
    let mut status_201 = Json::empty_object();
    status_201.set("description", Json::text("Call started"));
    let mut responses_2 = Json::empty_object();
    responses_2.set("201", status_201);
    let mut post = Json::empty_object();
    post.set("tags", tags_2);
    post.set("summary", Json::text("Start an outgoing call"));
    post.set("operationId", Json::text("startCall"));
    post.set("parameters", parameters_2);
    post.set("requestBody", requestbody);
    post.set("responses", responses_2);
    let mut item = Json::empty_object();
    item.set("get", get);
    item.set("post", post);
    item
}

/// The operations of `/v1/calls/{number}/{call_id}/accept`.
pub open spec fn openapi_path_v1_calls_number_call_id_accept() -> JsonView {
    JsonView::Object(
        map![
            "post"@ => JsonView::Object(
                map![
                    "tags"@ => JsonView::Array(
                        Seq::empty()
                            .push(JsonView::Str("Calls"@))
                    ),
                    "summary"@ => JsonView::Str("Accept an incoming call"@),
                    "operationId"@ => JsonView::Str("acceptCall"@),
                    "parameters"@ => JsonView::Array(
                        Seq::empty()
                            .push(JsonView::Object(
                                map![
                                    "name"@ => JsonView::Str("number"@),
                                    "in"@ => JsonView::Str("path"@),
                                    "required"@ => JsonView::Bool(true),
                                    "schema"@ => JsonView::Object(
                                        map![
                                            "type"@ => JsonView::Str("string"@),
                                        ],
                                    ),
                                ],
                            ))
                            .push(JsonView::Object(
                                map![
                                    "name"@ => JsonView::Str("call_id"@),
                                    "in"@ => JsonView::Str("path"@),
                                    "required"@ => JsonView::Bool(true),
                                    "schema"@ => JsonView::Object(
                                        map![
                                            "type"@ => JsonView::Str("integer"@),
                                        ],
                                    ),
                                ],
                            ))
                    ),
                    "responses"@ => JsonView::Object(
                        map![
                            "200"@ => JsonView::Object(
                                map![
                                    "description"@ => JsonView::Str("Call accepted"@),
                                ],
                            ),
                        ],
                    ),
                ],
            ),
        ],
    )
}

fn path_v1_calls_number_call_id_accept() -> (r: Json)
    ensures
        r@ == openapi_path_v1_calls_number_call_id_accept(),
{
    let mut tags = Json::empty_array();
    tags.push_item(Json::text("Calls"));
    let mut schema = Json::empty_object();
    schema.set("type", Json::text("string"));
    let mut parameters_entry = Json::empty_object();
    parameters_entry.set("name", Json::text("number"));
    parameters_entry.set("in", Json::text("path"));
    parameters_entry.set("required", Json::Bool(true));
    parameters_entry.set("schema", schema);
    let mut schema_2 = Json::empty_object();
    schema_2.set("type", Json::text("integer"));
    let mut parameters_entry_2 = Json::empty_object();
    parameters_entry_2.set("name", Json::text("call_id"));
    parameters_entry_2.set("in", Json::text("path"));
    parameters_entry_2.set("required", Json::Bool(true));
    parameters_entry_2.set("schema", schema_2);
    let mut parameters = Json::empty_array();
    parameters.push_item(parameters_entry);
    parameters.push_item(parameters_entry_2);
    let mut status_200 = Json::empty_object();
    status_200.set("description", Json::text("Call accepted"));
    let mut responses = Json::empty_object();
    responses.set("200", status_200);
    let mut post = Json::empty_object();
    post.set("tags", tags);
    post.set("summary", Json::text("Accept an incoming call"));
    post.set("operationId", Json::text("acceptCall"));
    post.set("parameters", parameters);
    post.set("responses", responses);
    let mut item = Json::empty_object();
    item.set("post", post);
    item
}

/// The operations of `/v1/calls/{number}/{call_id}/reject`.
pub open spec fn openapi_path_v1_calls_number_call_id_reject() -> JsonView {
    JsonView::Object(
        map![
            "post"@ => JsonView::Object(
                map![
                    "tags"@ => JsonView::Array(
                        Seq::empty()
                            .push(JsonView::Str("Calls"@))
                    ),
                    "summary"@ => JsonView::Str("Reject an incoming call"@),
                    "operationId"@ => JsonView::Str("rejectCall"@),
                    "parameters"@ => JsonView::Array(
                        Seq::empty()
                            .push(JsonView::Object(
                                map![
                                    "name"@ => JsonView::Str("number"@),
                                    "in"@ => JsonView::Str("path"@),
                                    "required"@ => JsonView::Bool(true),
                                    "schema"@ => JsonView::Object(
                                        map![
                                            "type"@ => JsonView::Str("string"@),
                                        ],
                                    ),
                                ],
                            ))
                            .push(JsonView::Object(
                                map![
                                    "name"@ => JsonView::Str("call_id"@),
                                    "in"@ => JsonView::Str("path"@),
                                    "required"@ => JsonView::Bool(true),
                                    "schema"@ => JsonView::Object(
                                        map![
                                            "type"@ => JsonView::Str("integer"@),
                                        ],
                                    ),
                                ],
                            ))
                    ),
                    "responses"@ => JsonView::Object(
                        map![
                            "200"@ => JsonView::Object(
                                map![
                                    "description"@ => JsonView::Str("Call rejected"@),
                                ],
                            ),
                        ],
                    ),
                ],
            ),
        ],
    )
}

fn path_v1_calls_number_call_id_reject() -> (r: Json)
    ensures
        r@ == openapi_path_v1_calls_number_call_id_reject(),
{
    let mut tags = Json::empty_array();
    tags.push_item(Json::text("Calls"));
    let mut schema = Json::empty_object();
    schema.set("type", Json::text("string"));
    let mut parameters_entry = Json::empty_object();
    parameters_entry.set("name", Json::text("number"));
    parameters_entry.set("in", Json::text("path"));
    parameters_entry.set("required", Json::Bool(true));
    parameters_entry.set("schema", schema);
    let mut schema_2 = Json::empty_object();
    schema_2.set("type", Json::text("integer"));
    let mut parameters_entry_2 = Json::empty_object();
    parameters_entry_2.set("name", Json::text("call_id"));
    parameters_entry_2.set("in", Json::text("path"));
    parameters_entry_2.set("required", Json::Bool(true));
    parameters_entry_2.set("schema", schema_2);
    let mut parameters = Json::empty_array();
    parameters.push_item(parameters_entry);
    parameters.push_item(parameters_entry_2);
    let mut status_200 = Json::empty_object();
    status_200.set("description", Json::text("Call rejected"));
    let mut responses = Json::empty_object();
    responses.set("200", status_200);
    let mut post = Json::empty_object();
    post.set("tags", tags);
    post.set("summary", Json::text("Reject an incoming call"));
    post.set("operationId", Json::text("rejectCall"));
    post.set("parameters", parameters);
    post.set("responses", responses);
    let mut item = Json::empty_object();
    item.set("post", post);
    item
}

/// The operations of `/v1/calls/{number}/{call_id}/hangup`.
pub open spec fn openapi_path_v1_calls_number_call_id_hangup() -> JsonView {
    JsonView::Object(
        map![
            "post"@ => JsonView::Object(
                map![
                    "tags"@ => JsonView::Array(
                        Seq::empty()
                            .push(JsonView::Str("Calls"@))
                    ),
                    "summary"@ => JsonView::Str("Hang up an active call"@),
                    "operationId"@ => JsonView::Str("hangupCall"@),
                    "parameters"@ => JsonView::Array(
                        Seq::empty()
                            .push(JsonView::Object(
                                map![
                                    "name"@ => JsonView::Str("number"@),
                                    "in"@ => JsonView::Str("path"@),
                                    "required"@ => JsonView::Bool(true),
                                    "schema"@ => JsonView::Object(
                                        map![
                                            "type"@ => JsonView::Str("string"@),
                                        ],
                                    ),
                                ],
                            ))
                            .push(JsonView::Object(
                                map![
                                    "name"@ => JsonView::Str("call_id"@),
                                    "in"@ => JsonView::Str("path"@),
                                    "required"@ => JsonView::Bool(true),
                                    "schema"@ => JsonView::Object(
                                        map![
                                            "type"@ => JsonView::Str("integer"@),
                                        ],
                                    ),
                                ],
                            ))
                    ),
                    "responses"@ => JsonView::Object(
                        map![
                            "200"@ => JsonView::Object(
                                map![
                                    "description"@ => JsonView::Str("Call hung up"@),
                                ],
                            ),
                        ],
                    ),
                ],
            ),
        ],
    )
}

fn path_v1_calls_number_call_id_hangup() -> (r: Json)
    ensures
        r@ == openapi_path_v1_calls_number_call_id_hangup(),
{
    let mut tags = Json::empty_array();
    tags.push_item(Json::text("Calls"));
    let mut schema = Json::empty_object();
    schema.set("type", Json::text("string"));
    let mut parameters_entry = Json::empty_object();
    parameters_entry.set("name", Json::text("number"));
    parameters_entry.set("in", Json::text("path"));
    parameters_entry.set("required", Json::Bool(true));
    parameters_entry.set("schema", schema);
    let mut schema_2 = Json::empty_object();
    schema_2.set("type", Json::text("integer"));
    let mut parameters_entry_2 = Json::empty_object();
    parameters_entry_2.set("name", Json::text("call_id"));
    parameters_entry_2.set("in", Json::text("path"));
    parameters_entry_2.set("required", Json::Bool(true));
    parameters_entry_2.set("schema", schema_2);
    let mut parameters = Json::empty_array();
    parameters.push_item(parameters_entry);
    parameters.push_item(parameters_entry_2);
    let mut status_200 = Json::empty_object();
    status_200.set("description", Json::text("Call hung up"));
    let mut responses = Json::empty_object();
    responses.set("200", status_200);
    let mut post = Json::empty_object();
    post.set("tags", tags);
    post.set("summary", Json::text("Hang up an active call"));
    post.set("operationId", Json::text("hangupCall"));
    post.set("parameters", parameters);
    post.set("responses", responses);
    let mut item = Json::empty_object();
    item.set("post", post);
    item
}

/// The operations of `/v1/webhooks`.
pub open spec fn openapi_path_v1_webhooks() -> JsonView {
    JsonView::Object(
        map![
            "get"@ => JsonView::Object(
                map![
                    "tags"@ => JsonView::Array(
                        Seq::empty()
                            .push(JsonView::Str("Webhooks"@))
                    ),
                    "summary"@ => JsonView::Str("List registered webhooks"@),
                    "operationId"@ => JsonView::Str("listWebhooks"@),
                    "responses"@ => JsonView::Object(
                        map![
                            "200"@ => JsonView::Object(
                                map![
                                    "description"@ => JsonView::Str("Array of webhook configs"@),
                                ],
                            ),
                        ],
                    ),
                ],
            ),
            "post"@ => JsonView::Object(
                map![
                    "tags"@ => JsonView::Array(
                        Seq::empty()
                            .push(JsonView::Str("Webhooks"@))
                    ),
                    "summary"@ => JsonView::Str("Register a webhook"@),
                    "operationId"@ => JsonView::Str("createWebhook"@),
                    "requestBody"@ => JsonView::Object(
                        map![
                            "required"@ => JsonView::Bool(true),
                            "content"@ => JsonView::Object(
                                map![
                                    "application/json"@ => JsonView::Object(
                                        map![
                                            "schema"@ => JsonView::Object(
                                                map![
                                                    "$ref"@ => JsonView::Str("#/components/schemas/WebhookConfig"@),
                                                ],
                                            ),
                                        ],
                                    ),
                                ],
                            ),
                        ],
                    ),
                    "responses"@ => JsonView::Object(
                        map![
                            "201"@ => JsonView::Object(
                                map![
                                    "description"@ => JsonView::Str("Webhook registered"@),
                                ],
                            ),
                        ],
                    ),
                ],
            ),
        ],
    )
}

fn path_v1_webhooks() -> (r: Json)
    ensures
        r@ == openapi_path_v1_webhooks(),
{
    let mut tags = Json::empty_array();
    tags.push_item(Json::text("Webhooks"));
    let mut status_200 = Json::empty_object();
    status_200.set("description", Json::text("Array of webhook configs"));
    let mut responses = Json::empty_object();
    responses.set("200", status_200);
    let mut get = Json::empty_object();
    get.set("tags", tags);
    get.set("summary", Json::text("List registered webhooks"));
    get.set("operationId", Json::text("listWebhooks"));
    get.set("responses", responses);
    let mut tags_2 = Json::empty_array();
    tags_2.push_item(Json::text("Webhooks"));
    let mut schema = Json::empty_object();
    schema.set("$ref", Json::text("#/components/schemas/WebhookConfig"));
    let mut application_json = Json::empty_object();
    application_json.set("schema", schema);
    let mut content = Json::empty_object();
    content.set("application/json", application_json);
    let mut requestbody = Json::empty_object();
    requestbody.set("required", Json::Bool(true));
    requestbody.set("content", content);
    let mut status_201 = Json::empty_object();
    status_201.set("description", Json::text("Webhook registered"));
    let mut responses_2 = Json::empty_object();
    responses_2.set("201", status_201);
    let mut post = Json::empty_object();
    post.set("tags", tags_2);
    post.set("summary", Json::text("Register a webhook"));
    post.set("operationId", Json::text("createWebhook"));
    post.set("requestBody", requestbody);
    post.set("responses", responses_2);
    let mut item = Json::empty_object();
    item.set("get", get);
    item.set("post", post);
    item
}

/// The operations of `/v1/events/{number}`.
pub open spec fn openapi_path_v1_events_number() -> JsonView {
    JsonView::Object(
        map![
            "get"@ => JsonView::Object(
                map![
                    "tags"@ => JsonView::Array(
                        Seq::empty()
                            .push(JsonView::Str("Events"@))
                    ),
                    "summary"@ => JsonView::Str("Server-Sent Events stream"@),
                    "operationId"@ => JsonView::Str("sseEvents"@),
                    "parameters"@ => JsonView::Array(
                        Seq::empty()
                            .push(JsonView::Object(
                                map![
                                    "name"@ => JsonView::Str("number"@),
                                    "in"@ => JsonView::Str("path"@),
                                    "required"@ => JsonView::Bool(true),
                                    "schema"@ => JsonView::Object(
                                        map![
                                            "type"@ => JsonView::Str("string"@),
                                        ],
                                    ),
                                ],
                            ))
                    ),
                    "responses"@ => JsonView::Object(
                        map![
                            "200"@ => JsonView::Object(
                                map![
                                    "description"@ => JsonView::Str("SSE stream of messages"@),
                                ],
                            ),
                        ],
                    ),
                ],
            ),
        ],
    )
}

fn path_v1_events_number() -> (r: Json)
    ensures
        r@ == openapi_path_v1_events_number(),
{
    let mut tags = Json::empty_array();
    tags.push_item(Json::text("Events"));
    let mut schema = Json::empty_object();
    schema.set("type", Json::text("string"));
    let mut parameters_entry = Json::empty_object();
    parameters_entry.set("name", Json::text("number"));
    parameters_entry.set("in", Json::text("path"));
    parameters_entry.set("required", Json::Bool(true));
    parameters_entry.set("schema", schema);
    let mut parameters = Json::empty_array();
    parameters.push_item(parameters_entry);
    let mut status_200 = Json::empty_object();
    status_200.set("description", Json::text("SSE stream of messages"));
    let mut responses = Json::empty_object();
    responses.set("200", status_200);
    let mut get = Json::empty_object();
    get.set("tags", tags);
    get.set("summary", Json::text("Server-Sent Events stream"));
    get.set("operationId", Json::text("sseEvents"));
    get.set("parameters", parameters);
    get.set("responses", responses);
    let mut item = Json::empty_object();
    item.set("get", get);
    item
}

/// The operations of `/metrics`.
pub open spec fn openapi_path_metrics() -> JsonView {
    JsonView::Object(
        map![
            "get"@ => JsonView::Object(
                map![
                    "tags"@ => JsonView::Array(
                        Seq::empty()
                            .push(JsonView::Str("System"@))
                    ),
                    "summary"@ => JsonView::Str("Prometheus metrics"@),
                    "operationId"@ => JsonView::Str("metrics"@),
                    "responses"@ => JsonView::Object(
                        map![
                            "200"@ => JsonView::Object(
                                map![
                                    "description"@ => JsonView::Str("Prometheus-formatted metrics"@),
                                    "content"@ => JsonView::Object(
                                        map![
                                            "text/plain"@ => JsonView::Object(
                                                map![
                                                    "schema"@ => JsonView::Object(
                                                        map![
                                                            "type"@ => JsonView::Str("string"@),
                                                        ],
                                                    ),
                                                ],
                                            ),
                                        ],
                                    ),
                                ],
                            ),
                        ],
                    ),
                ],
            ),
        ],
    )
}

fn path_metrics() -> (r: Json)
    ensures
        r@ == openapi_path_metrics(),
{
    let mut tags = Json::empty_array();
    tags.push_item(Json::text("System"));
    let mut schema = Json::empty_object();
    schema.set("type", Json::text("string"));
    let mut text_plain = Json::empty_object();
    text_plain.set("schema", schema);
    let mut content = Json::empty_object();
    content.set("text/plain", text_plain);
    let mut status_200 = Json::empty_object();
    status_200.set("description", Json::text("Prometheus-formatted metrics"));
    status_200.set("content", content);
    let mut responses = Json::empty_object();
    responses.set("200", status_200);
    let mut get = Json::empty_object();
    get.set("tags", tags);
    get.set("summary", Json::text("Prometheus metrics"));
    get.set("operationId", Json::text("metrics"));
    get.set("responses", responses);
    let mut item = Json::empty_object();
    item.set("get", get);
    item
}

/// The schema `SendPayload`.
pub open spec fn openapi_schema_send_payload() -> JsonView {
    JsonView::Object(
        map![
            "type"@ => JsonView::Str("object"@),
            "required"@ => JsonView::Array(
                Seq::empty()
                    .push(JsonView::Str("account"@))
                    .push(JsonView::Str("message"@))
            ),
            "description"@ => JsonView::Str("Forwarded almost verbatim to signal-cli's `send` JSON-RPC method - this schema documents the commonly-used fields, but any field signal-cli's `send` accepts is passed through, whether listed here or not. See the README's \"The `send` contract\" section."@),
            "properties"@ => JsonView::Object(
                map![
                    "account"@ => JsonView::Object(
                        map![
                            "type"@ => JsonView::Str("string"@),
                            "description"@ => JsonView::Str("Sending account, required. NOT `number` - signal-cli only recognizes `account`, and on a multi-account daemon a `number` field is silently ignored."@),
                        ],
                    ),
                    "message"@ => JsonView::Object(
                        map![
                            "type"@ => JsonView::Str("string"@),
                            "description"@ => JsonView::Str("Message text"@),
                        ],
                    ),
                    "recipient"@ => JsonView::Object(
                        map![
                            "type"@ => JsonView::Str("array"@),
                            "items"@ => JsonView::Object(
                                map![
                                    "type"@ => JsonView::Str("string"@),
                                ],
                            ),
                            "description"@ => JsonView::Str("Recipient numbers. `recipients` (plural) also works, via signal-cli's own pluralization fallback."@),
                        ],
                    ),
                    "groupId"@ => JsonView::Object(
                        map![
                            "type"@ => JsonView::Str("string"@),
                            "description"@ => JsonView::Str("Send to a group instead of recipient"@),
                        ],
                    ),
                    "username"@ => JsonView::Object(
                        map![
                            "type"@ => JsonView::Str("array"@),
                            "items"@ => JsonView::Object(
                                map![
                                    "type"@ => JsonView::Str("string"@),
                                ],
                            ),
                            "description"@ => JsonView::Str("Recipient usernames or username links"@),
                        ],
                    ),
                    "noteToSelf"@ => JsonView::Object(
                        map![
                            "type"@ => JsonView::Str("boolean"@),
                        ],
                    ),
                    "attachment"@ => JsonView::Object(
                        map![
                            "type"@ => JsonView::Str("array"@),
                            "items"@ => JsonView::Object(
                                map![
                                    "type"@ => JsonView::Str("string"@),
                                ],
                            ),
                            "description"@ => JsonView::Str("Data URIs (data:<mime>;filename=<name>;base64,<data>) or file paths. NOT `base64_attachments` - that field is ignored."@),
                        ],
                    ),
                    "editTimestamp"@ => JsonView::Object(
                        map![
                            "type"@ => JsonView::Str("integer"@),
                            "description"@ => JsonView::Str("Edit a previously-sent message in place"@),
                        ],
                    ),
                    "quoteTimestamp"@ => JsonView::Object(
                        map![
                            "type"@ => JsonView::Str("integer"@),
                        ],
                    ),
                    "quoteAuthor"@ => JsonView::Object(
                        map![
                            "type"@ => JsonView::Str("string"@),
                        ],
                    ),
                    "quoteMessage"@ => JsonView::Object(
                        map![
                            "type"@ => JsonView::Str("string"@),
                        ],
                    ),
                    "storyTimestamp"@ => JsonView::Object(
                        map![
                            "type"@ => JsonView::Str("integer"@),
                        ],
                    ),
                    "storyAuthor"@ => JsonView::Object(
                        map![
                            "type"@ => JsonView::Str("string"@),
                        ],
                    ),
                    "mention"@ => JsonView::Object(
                        map![
                            "type"@ => JsonView::Str("array"@),
                            "items"@ => JsonView::Object(
                                map![
                                    "type"@ => JsonView::Str("string"@),
                                ],
                            ),
                            "description"@ => JsonView::Str("start:length:recipient"@),
                        ],
                    ),
                    "textStyle"@ => JsonView::Object(
                        map![
                            "type"@ => JsonView::Str("array"@),
                            "items"@ => JsonView::Object(
                                map![
                                    "type"@ => JsonView::Str("string"@),
                                ],
                            ),
                            "description"@ => JsonView::Str("start:length:STYLE"@),
                        ],
                    ),
                    "noUrgent"@ => JsonView::Object(
                        map![
                            "type"@ => JsonView::Str("boolean"@),
                        ],
                    ),
                    "viewOnce"@ => JsonView::Object(
                        map![
                            "type"@ => JsonView::Str("boolean"@),
                        ],
                    ),
                    "sticker"@ => JsonView::Object(
                        map![
                            "type"@ => JsonView::Str("string"@),
                            "description"@ => JsonView::Str("packId:stickerId"@),
                        ],
                    ),
                    "previewUrl"@ => JsonView::Object(
                        map![
                            "type"@ => JsonView::Str("string"@),
                        ],
                    ),
                    "previewTitle"@ => JsonView::Object(
                        map![
                            "type"@ => JsonView::Str("string"@),
                        ],
                    ),
                    "previewDescription"@ => JsonView::Object(
                        map![
                            "type"@ => JsonView::Str("string"@),
                        ],
                    ),
                    "previewImage"@ => JsonView::Object(
                        map![
                            "type"@ => JsonView::Str("string"@),
                        ],
                    ),
                    "voiceNote"@ => JsonView::Object(
                        map![
                            "type"@ => JsonView::Str("boolean"@),
                        ],
                    ),
                ],
            ),
        ],
    )
}

fn schema_send_payload() -> (r: Json)
    ensures
        r@ == openapi_schema_send_payload(),
{
    let mut required = Json::empty_array();
    required.push_item(Json::text("account"));
    required.push_item(Json::text("message"));
    let mut account = Json::empty_object();
    account.set("type", Json::text("string"));
    account.set("description", Json::text("Sending account, required. NOT `number` - signal-cli only recognizes `account`, and on a multi-account daemon a `number` field is silently ignored."));
    let mut message = Json::empty_object();
    message.set("type", Json::text("string"));
    message.set("description", Json::text("Message text"));
    let mut items = Json::empty_object();
    items.set("type", Json::text("string"));
    let mut recipient = Json::empty_object();
    recipient.set("type", Json::text("array"));
    recipient.set("items", items);
    recipient.set("description", Json::text("Recipient numbers. `recipients` (plural) also works, via signal-cli's own pluralization fallback."));
    let mut groupid = Json::empty_object();
    groupid.set("type", Json::text("string"));
    groupid.set("description", Json::text("Send to a group instead of recipient"));
    let mut items_2 = Json::empty_object();
    items_2.set("type", Json::text("string"));
    let mut username = Json::empty_object();
    username.set("type", Json::text("array"));
    username.set("items", items_2);
    username.set("description", Json::text("Recipient usernames or username links"));
    let mut notetoself = Json::empty_object();
    notetoself.set("type", Json::text("boolean"));
    let mut items_3 = Json::empty_object();
    items_3.set("type", Json::text("string"));
    let mut attachment = Json::empty_object();
    attachment.set("type", Json::text("array"));
    attachment.set("items", items_3);
    attachment.set("description", Json::text("Data URIs (data:<mime>;filename=<name>;base64,<data>) or file paths. NOT `base64_attachments` - that field is ignored."));
    let mut edittimestamp = Json::empty_object();
    edittimestamp.set("type", Json::text("integer"));
    edittimestamp.set("description", Json::text("Edit a previously-sent message in place"));
    let mut quotetimestamp = Json::empty_object();
    quotetimestamp.set("type", Json::text("integer"));
    let mut quoteauthor = Json::empty_object();
    quoteauthor.set("type", Json::text("string"));
    let mut quotemessage = Json::empty_object();
    quotemessage.set("type", Json::text("string"));
    let mut storytimestamp = Json::empty_object();
    storytimestamp.set("type", Json::text("integer"));
    let mut storyauthor = Json::empty_object();
    storyauthor.set("type", Json::text("string"));
    let mut items_4 = Json::empty_object();
    items_4.set("type", Json::text("string"));
    let mut mention = Json::empty_object();
    mention.set("type", Json::text("array"));
    mention.set("items", items_4);
    mention.set("description", Json::text("start:length:recipient"));
    let mut items_5 = Json::empty_object();
    items_5.set("type", Json::text("string"));
    let mut textstyle = Json::empty_object();
    textstyle.set("type", Json::text("array"));
    textstyle.set("items", items_5);
    textstyle.set("description", Json::text("start:length:STYLE"));
    let mut nourgent = Json::empty_object();
    nourgent.set("type", Json::text("boolean"));
    let mut viewonce = Json::empty_object();
    viewonce.set("type", Json::text("boolean"));
    let mut sticker = Json::empty_object();
    sticker.set("type", Json::text("string"));
    sticker.set("description", Json::text("packId:stickerId"));
    let mut previewurl = Json::empty_object();
    previewurl.set("type", Json::text("string"));
    let mut previewtitle = Json::empty_object();
    previewtitle.set("type", Json::text("string"));
    let mut previewdescription = Json::empty_object();
    previewdescription.set("type", Json::text("string"));
    let mut previewimage = Json::empty_object();
    previewimage.set("type", Json::text("string"));
    let mut voicenote = Json::empty_object();
    voicenote.set("type", Json::text("boolean"));
    let mut properties = Json::empty_object();
    properties.set("account", account);
    properties.set("message", message);
    properties.set("recipient", recipient);
    properties.set("groupId", groupid);
    properties.set("username", username);
    properties.set("noteToSelf", notetoself);
    properties.set("attachment", attachment);
    properties.set("editTimestamp", edittimestamp);
    properties.set("quoteTimestamp", quotetimestamp);
    properties.set("quoteAuthor", quoteauthor);
    properties.set("quoteMessage", quotemessage);
    properties.set("storyTimestamp", storytimestamp);
    properties.set("storyAuthor", storyauthor);
    properties.set("mention", mention);
    properties.set("textStyle", textstyle);
    properties.set("noUrgent", nourgent);
    properties.set("viewOnce", viewonce);
    properties.set("sticker", sticker);
    properties.set("previewUrl", previewurl);
    properties.set("previewTitle", previewtitle);
    properties.set("previewDescription", previewdescription);
    properties.set("previewImage", previewimage);
    properties.set("voiceNote", voicenote);
    let mut item = Json::empty_object();
    item.set("type", Json::text("object"));
    item.set("required", required);
    item.set("description", Json::text("Forwarded almost verbatim to signal-cli's `send` JSON-RPC method - this schema documents the commonly-used fields, but any field signal-cli's `send` accepts is passed through, whether listed here or not. See the README's \"The `send` contract\" section."));
    item.set("properties", properties);
    item
}

/// The schema `CreatePollPayload`.
pub open spec fn openapi_schema_create_poll_payload() -> JsonView {
    JsonView::Object(
        map![
            "type"@ => JsonView::Str("object"@),
            "required"@ => JsonView::Array(
                Seq::empty()
                    .push(JsonView::Str("question"@))
                    .push(JsonView::Str("options"@))
            ),
            "properties"@ => JsonView::Object(
                map![
                    "recipient"@ => JsonView::Object(
                        map![
                            "type"@ => JsonView::Str("string"@),
                        ],
                    ),
                    "group_id"@ => JsonView::Object(
                        map![
                            "type"@ => JsonView::Str("string"@),
                        ],
                    ),
                    "question"@ => JsonView::Object(
                        map![
                            "type"@ => JsonView::Str("string"@),
                        ],
                    ),
                    "options"@ => JsonView::Object(
                        map![
                            "type"@ => JsonView::Str("array"@),
                            "items"@ => JsonView::Object(
                                map![
                                    "type"@ => JsonView::Str("string"@),
                                ],
                            ),
                        ],
                    ),
                    "allow_multiple"@ => JsonView::Object(
                        map![
                            "type"@ => JsonView::Str("boolean"@),
                            "description"@ => JsonView::Str("Default true; set false to allow only one selection per recipient"@),
                        ],
                    ),
                ],
            ),
        ],
    )
}

fn schema_create_poll_payload() -> (r: Json)
    ensures
        r@ == openapi_schema_create_poll_payload(),
{
    let mut required = Json::empty_array();
    required.push_item(Json::text("question"));
    required.push_item(Json::text("options"));
    let mut recipient = Json::empty_object();
    recipient.set("type", Json::text("string"));
    let mut group_id = Json::empty_object();
    group_id.set("type", Json::text("string"));
    let mut question = Json::empty_object();
    question.set("type", Json::text("string"));
    let mut items = Json::empty_object();
    items.set("type", Json::text("string"));
    let mut options = Json::empty_object();
    options.set("type", Json::text("array"));
    options.set("items", items);
    let mut allow_multiple = Json::empty_object();
    allow_multiple.set("type", Json::text("boolean"));
    allow_multiple.set("description", Json::text("Default true; set false to allow only one selection per recipient"));
    let mut properties = Json::empty_object();
    properties.set("recipient", recipient);
    properties.set("group_id", group_id);
    properties.set("question", question);
    properties.set("options", options);
    properties.set("allow_multiple", allow_multiple);
    let mut item = Json::empty_object();
    item.set("type", Json::text("object"));
    item.set("required", required);
    item.set("properties", properties);
    item
}

/// The schema `AttachmentData`.
pub open spec fn openapi_schema_attachment_data() -> JsonView {
    JsonView::Object(
        map![
            "type"@ => JsonView::Str("object"@),
            "properties"@ => JsonView::Object(
                map![
                    "data"@ => JsonView::Object(
                        map![
                            "type"@ => JsonView::Str("string"@),
                            "description"@ => JsonView::Str("Base64-encoded file contents"@),
                        ],
                    ),
                ],
            ),
        ],
    )
}

fn schema_attachment_data() -> (r: Json)
    ensures
        r@ == openapi_schema_attachment_data(),
{
    let mut data = Json::empty_object();
    data.set("type", Json::text("string"));
    data.set("description", Json::text("Base64-encoded file contents"));
    let mut properties = Json::empty_object();
    properties.set("data", data);
    let mut item = Json::empty_object();
    item.set("type", Json::text("object"));
    item.set("properties", properties);
    item
}

/// The schema `WebhookConfig`.
pub open spec fn openapi_schema_webhook_config() -> JsonView {
    JsonView::Object(
        map![
            "type"@ => JsonView::Str("object"@),
            "required"@ => JsonView::Array(
                Seq::empty()
                    .push(JsonView::Str("url"@))
            ),
            "properties"@ => JsonView::Object(
                map![
                    "id"@ => JsonView::Object(
                        map![
                            "type"@ => JsonView::Str("string"@),
                            "description"@ => JsonView::Str("Webhook ID (server-generated)"@),
                        ],
                    ),
                    "url"@ => JsonView::Object(
                        map![
                            "type"@ => JsonView::Str("string"@),
                            "description"@ => JsonView::Str("Callback URL"@),
                        ],
                    ),
                    "events"@ => JsonView::Object(
                        map![
                            "type"@ => JsonView::Str("array"@),
                            "items"@ => JsonView::Object(
                                map![
                                    "type"@ => JsonView::Str("string"@),
                                ],
                            ),
                            "description"@ => JsonView::Str("Event types to subscribe to (empty = all)"@),
                        ],
                    ),
                ],
            ),
        ],
    )
}

fn schema_webhook_config() -> (r: Json)
    ensures
        r@ == openapi_schema_webhook_config(),
{
    let mut required = Json::empty_array();
    required.push_item(Json::text("url"));
    let mut id = Json::empty_object();
    id.set("type", Json::text("string"));
    id.set("description", Json::text("Webhook ID (server-generated)"));
    let mut url = Json::empty_object();
    url.set("type", Json::text("string"));
    url.set("description", Json::text("Callback URL"));
    let mut items = Json::empty_object();
    items.set("type", Json::text("string"));
    let mut events = Json::empty_object();
    events.set("type", Json::text("array"));
    events.set("items", items);
    events.set("description", Json::text("Event types to subscribe to (empty = all)"));
    let mut properties = Json::empty_object();
    properties.set("id", id);
    properties.set("url", url);
    properties.set("events", events);
    let mut item = Json::empty_object();
    item.set("type", Json::text("object"));
    item.set("required", required);
    item.set("properties", properties);
    item
}

/// The paths of the API, each with its operations.
pub open spec fn openapi_paths() -> JsonView {
    JsonView::Object(
        map![
            "/v2/send"@ => openapi_path_v2_send(),
            "/v1/send"@ => openapi_path_v1_send(),
            "/v1/receive/{number}"@ => openapi_path_v1_receive_number(),
            "/v1/remote-delete/{number}"@ => openapi_path_v1_remote_delete_number(),
            "/v1/health"@ => openapi_path_v1_health(),
            "/v1/about"@ => openapi_path_v1_about(),
            "/v1/version"@ => openapi_path_v1_version(),
            "/v1/groups/{number}"@ => openapi_path_v1_groups_number(),
            "/v1/groups/{number}/{groupid}/avatar"@ => openapi_path_v1_groups_number_groupid_avatar(),
            "/v1/groups/{number}/{groupid}/messages"@ => openapi_path_v1_groups_number_groupid_messages(),
            "/v1/contacts/{number}/{recipient}"@ => openapi_path_v1_contacts_number_recipient(),
            "/v1/contacts/{number}/{recipient}/avatar"@ => openapi_path_v1_contacts_number_recipient_avatar(),
            "/v1/contacts/{number}/{recipient}/block"@ => openapi_path_v1_contacts_number_recipient_block(),
            "/v1/contacts/{number}/message-requests"@ => openapi_path_v1_contacts_number_message_requests(),
            "/v1/accounts/{number}/settings"@ => openapi_path_v1_accounts_number_settings(),
            "/v1/accounts/{number}/sync-request"@ => openapi_path_v1_accounts_number_sync_request(),
            "/v1/accounts/{number}/number"@ => openapi_path_v1_accounts_number_number(),
            "/v1/accounts/{number}/number/verify"@ => openapi_path_v1_accounts_number_number_verify(),
            "/v1/devices/{number}/{device_id}"@ => openapi_path_v1_devices_number_device_id(),
            "/v1/devices/{number}/add"@ => openapi_path_v1_devices_number_add(),
            "/v1/polls/{number}"@ => openapi_path_v1_polls_number(),
            "/v1/polls/{number}/vote"@ => openapi_path_v1_polls_number_vote(),
            "/v1/sticker-packs/{number}"@ => openapi_path_v1_sticker_packs_number(),
            "/v1/sticker-packs/{number}/{pack_id}/{sticker_id}"@ => openapi_path_v1_sticker_packs_number_pack_id_sticker_id(),
            "/v1/stories/{number}"@ => openapi_path_v1_stories_number(),
            "/v1/pins/{number}"@ => openapi_path_v1_pins_number(),
            "/v1/pins/{number}/unpin"@ => openapi_path_v1_pins_number_unpin(),
            "/v1/payments/{number}"@ => openapi_path_v1_payments_number(),
            "/v1/calls/{number}"@ => openapi_path_v1_calls_number(),
            "/v1/calls/{number}/{call_id}/accept"@ => openapi_path_v1_calls_number_call_id_accept(),
            "/v1/calls/{number}/{call_id}/reject"@ => openapi_path_v1_calls_number_call_id_reject(),
            "/v1/calls/{number}/{call_id}/hangup"@ => openapi_path_v1_calls_number_call_id_hangup(),
            "/v1/webhooks"@ => openapi_path_v1_webhooks(),
            "/v1/events/{number}"@ => openapi_path_v1_events_number(),
            "/metrics"@ => openapi_path_metrics(),
        ],
    )
}

fn paths() -> (r: Json)
    ensures
        r@ == openapi_paths(),
{
    let mut r = Json::empty_object();
    r.set("/v2/send", path_v2_send());
    r.set("/v1/send", path_v1_send());
    r.set("/v1/receive/{number}", path_v1_receive_number());
    r.set("/v1/remote-delete/{number}", path_v1_remote_delete_number());
    r.set("/v1/health", path_v1_health());
    r.set("/v1/about", path_v1_about());
    r.set("/v1/version", path_v1_version());
    r.set("/v1/groups/{number}", path_v1_groups_number());
    r.set("/v1/groups/{number}/{groupid}/avatar", path_v1_groups_number_groupid_avatar());
    r.set("/v1/groups/{number}/{groupid}/messages", path_v1_groups_number_groupid_messages());
    r.set("/v1/contacts/{number}/{recipient}", path_v1_contacts_number_recipient());
    r.set("/v1/contacts/{number}/{recipient}/avatar", path_v1_contacts_number_recipient_avatar());
    r.set("/v1/contacts/{number}/{recipient}/block", path_v1_contacts_number_recipient_block());
    r.set("/v1/contacts/{number}/message-requests", path_v1_contacts_number_message_requests());
    r.set("/v1/accounts/{number}/settings", path_v1_accounts_number_settings());
    r.set("/v1/accounts/{number}/sync-request", path_v1_accounts_number_sync_request());
    r.set("/v1/accounts/{number}/number", path_v1_accounts_number_number());
    r.set("/v1/accounts/{number}/number/verify", path_v1_accounts_number_number_verify());
    r.set("/v1/devices/{number}/{device_id}", path_v1_devices_number_device_id());
    r.set("/v1/devices/{number}/add", path_v1_devices_number_add());
    r.set("/v1/polls/{number}", path_v1_polls_number());
    r.set("/v1/polls/{number}/vote", path_v1_polls_number_vote());
    r.set("/v1/sticker-packs/{number}", path_v1_sticker_packs_number());
    r.set("/v1/sticker-packs/{number}/{pack_id}/{sticker_id}", path_v1_sticker_packs_number_pack_id_sticker_id());
    r.set("/v1/stories/{number}", path_v1_stories_number());
    r.set("/v1/pins/{number}", path_v1_pins_number());
    r.set("/v1/pins/{number}/unpin", path_v1_pins_number_unpin());
    r.set("/v1/payments/{number}", path_v1_payments_number());
    r.set("/v1/calls/{number}", path_v1_calls_number());
    r.set("/v1/calls/{number}/{call_id}/accept", path_v1_calls_number_call_id_accept());
    r.set("/v1/calls/{number}/{call_id}/reject", path_v1_calls_number_call_id_reject());
    r.set("/v1/calls/{number}/{call_id}/hangup", path_v1_calls_number_call_id_hangup());
    r.set("/v1/webhooks", path_v1_webhooks());
    r.set("/v1/events/{number}", path_v1_events_number());
    r.set("/metrics", path_metrics());
    r
}

/// The reusable schemas of the API.
pub open spec fn openapi_components() -> JsonView {
    JsonView::Object(
        map![
            "schemas"@ => JsonView::Object(
                map![
                    "SendPayload"@ => openapi_schema_send_payload(),
                    "CreatePollPayload"@ => openapi_schema_create_poll_payload(),
                    "AttachmentData"@ => openapi_schema_attachment_data(),
                    "WebhookConfig"@ => openapi_schema_webhook_config(),
                ],
            ),
        ],
    )
}

fn components() -> (r: Json)
    ensures
        r@ == openapi_components(),
{
    let mut schemas = Json::empty_object();
    schemas.set("SendPayload", schema_send_payload());
    schemas.set("CreatePollPayload", schema_create_poll_payload());
    schemas.set("AttachmentData", schema_attachment_data());
    schemas.set("WebhookConfig", schema_webhook_config());
    let mut r = Json::empty_object();
    r.set("schemas", schemas);
    r
}

/// The title and description of the API, and the version of this service.
pub open spec fn openapi_info(version: Seq<char>) -> JsonView {
    JsonView::Object(
        map![
            "title"@ => JsonView::Str("signal-cli REST API"@),
            "description"@ => JsonView::Str("REST API bridge for signal-cli"@),
            "version"@ => JsonView::Str(version),
        ],
    )
}

/// The OpenAPI 3.0.3 description of this API, for the service version `version`.
pub open spec fn openapi_document(version: Seq<char>) -> JsonView {
    JsonView::Object(
        map![
            "openapi"@ => JsonView::Str("3.0.3"@),
            "info"@ => openapi_info(version),
            "paths"@ => openapi_paths(),
            "components"@ => openapi_components(),
        ],
    )
}

/// GET /v1/openapi.json: the OpenAPI description of this API, carrying the version of
/// this service.
pub fn openapi_spec(version: &str) -> (doc: Json)
    ensures
        doc@ == openapi_document(version@),
{
    let mut info = Json::empty_object();
    info.set("title", Json::text("signal-cli REST API"));
    info.set("description", Json::text("REST API bridge for signal-cli"));
    info.set("version", Json::text(version));
    let mut doc = Json::empty_object();
    doc.set("openapi", Json::text("3.0.3"));
    doc.set("info", info);
    doc.set("paths", paths());
    doc.set("components", components());
    doc
}

/// Whether a path item offers at least one operation.
pub open spec fn has_operation(item: JsonView) -> bool {
    ||| fields(item).contains_key("get"@)
    ||| fields(item).contains_key("post"@)
    ||| fields(item).contains_key("put"@)
    ||| fields(item).contains_key("delete"@)
}

/// What the description promises its readers: it is OpenAPI 3.0.3, its info carries a
/// title and the service's version, it has paths and components, among its paths are
/// /v2/send, /v1/health, /v1/about, /v1/webhooks and /metrics, and every path offers at
/// least one operation.
pub proof fn lemma_openapi_document(version: Seq<char>)
    ensures
        fields(openapi_document(version)).contains_key("openapi"@),
        fields(openapi_document(version))["openapi"@] == JsonView::Str("3.0.3"@),
        fields(openapi_document(version)).contains_key("info"@),
        fields(fields(openapi_document(version))["info"@]).contains_key("title"@),
        fields(fields(openapi_document(version))["info"@])["version"@] == JsonView::Str(version),
        fields(openapi_document(version)).contains_key("components"@),
        fields(openapi_document(version)).contains_key("paths"@),
        fields(openapi_document(version))["paths"@] == openapi_paths(),
        fields(openapi_paths()).contains_key("/v2/send"@),
        fields(openapi_paths()).contains_key("/v1/health"@),
        fields(openapi_paths()).contains_key("/v1/about"@),
        fields(openapi_paths()).contains_key("/v1/webhooks"@),
        fields(openapi_paths()).contains_key("/metrics"@),
        forall|p: Seq<char>|
            #[trigger] fields(openapi_paths()).contains_key(p) ==> has_operation(
                fields(openapi_paths())[p],
            ),
{
    reveal_strlit("openapi");
    reveal_strlit("info");
    reveal_strlit("paths");
    reveal_strlit("components");
    reveal_strlit("title");
    reveal_strlit("description");
    reveal_strlit("version");
    assert("openapi"@.len() != "info"@.len());
    assert("openapi"@.len() != "paths"@.len());
    assert("openapi"@.len() != "components"@.len());
    assert("info"@.len() != "paths"@.len());
    assert("info"@.len() != "components"@.len());
    assert("title"@.len() != "version"@.len());
    assert("description"@.len() != "version"@.len());
}

} // verus!
