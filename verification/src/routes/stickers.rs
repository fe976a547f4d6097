//! Sticker packs.

use vstd::prelude::*;

use crate::json::{Json, JsonView};
use crate::routes::{Reply, RpcCall};

verus! {

/// GET /v1/sticker-packs/{number}: the installed sticker packs.
pub fn list_sticker_packs(number: &str) -> (call: RpcCall)
    ensures
        call.method@ == "listStickerPacks"@,
        call.reply == Reply::Success,
        call.params@ == JsonView::Object(map!["account"@ => JsonView::Str(number@)]),
{
    let mut params = Json::empty_object();
    params.set("account", Json::text(number));
    RpcCall::new("listStickerPacks", params, Reply::Success)
}

/// GET /v1/sticker-packs/{number}/{pack_id}/{sticker_id}: one sticker's image, base64 encoded.
pub fn get_sticker(number: &str, pack_id: &str, sticker_id: i32) -> (call: RpcCall)
    ensures
        call.method@ == "getSticker"@,
        call.reply == Reply::Success,
        call.params@ == JsonView::Object(
            map![
                "account"@ => JsonView::Str(number@),
                "pack-id"@ => JsonView::Str(pack_id@),
                "sticker-id"@ => JsonView::Int(sticker_id as int),
            ],
        ),
{
    let mut params = Json::empty_object();
    params.set("account", Json::text(number));
    params.set("pack-id", Json::text(pack_id));
    params.set("sticker-id", Json::Int(sticker_id as i128));
    RpcCall::new("getSticker", params, Reply::Success)
}

/// Why a sticker pack cannot be installed.
#[derive(Clone, Copy, Debug, PartialEq, Eq, Structural)]
pub enum StickerPackError {
    /// Neither a URI nor both a pack ID and a pack key were given.
    NoPackGiven,
}

/// What the client is told when it names no sticker pack.
pub const NO_PACK_GIVEN_MESSAGE: &'static str = "provide either `uri`, or both `pack_id` and `pack_key`";

impl StickerPackError {
    /// The error text for the client.
    pub fn message(&self) -> (m: String)
        ensures
            m@ == NO_PACK_GIVEN_MESSAGE@,
    {
        NO_PACK_GIVEN_MESSAGE.to_owned()
    }

    /// The HTTP status of the refusal: 400 Bad Request.
    pub fn status(&self) -> (s: u16)
        ensures
            s == 400,
    {
        400
    }
}

pub const STICKER_URI_HEAD: &'static str = "https://signal.art/addstickers/#pack_id=";

pub const STICKER_URI_KEY: &'static str = "&pack_key=";

/// The URI of the sticker pack with ID `pack_id` and key `pack_key`.
pub open spec fn sticker_pack_uri(pack_id: Seq<char>, pack_key: Seq<char>) -> Seq<char> {
    STICKER_URI_HEAD@ + pack_id + STICKER_URI_KEY@ + pack_key
}

/// The URI of the pack to install: `uri` where given, else the one built from the pack ID
/// and key.
pub open spec fn chosen_pack_uri(
    uri: Option<String>,
    pack_id: Option<String>,
    pack_key: Option<String>,
) -> Seq<char> {
    match uri {
        Some(u) => u@,
        None => sticker_pack_uri(pack_id->0@, pack_key->0@),
    }
}

/// The pack to install: a given URI is used as it came, whatever else is given;
/// otherwise the URI built from the pack ID and key holds the ID right after the
/// `pack_id=` part and ends with `&pack_key=` and the key.
pub proof fn lemma_chosen_pack_uri(uri: Option<String>, pack_id: Option<String>, pack_key: Option<String>)
    ensures
        uri matches Some(u) ==> chosen_pack_uri(uri, pack_id, pack_key) == u@,
        (uri is None && pack_id is Some && pack_key is Some) ==> ({
            let c = chosen_pack_uri(uri, pack_id, pack_key);
            let i = pack_id->0@;
            let k = pack_key->0@;
            let tail = STICKER_URI_KEY@ + k;
            &&& c.len() == STICKER_URI_HEAD@.len() + i.len() + tail.len()
            &&& c.subrange(STICKER_URI_HEAD@.len() as int, (STICKER_URI_HEAD@.len() + i.len()) as int) == i
            &&& c.skip(c.len() - tail.len()) == tail
        }),
{
    if uri is None && pack_id is Some && pack_key is Some {
        let c = chosen_pack_uri(uri, pack_id, pack_key);
        let i = pack_id->0@;
        let k = pack_key->0@;
        let tail = STICKER_URI_KEY@ + k;
        assert(c.subrange(STICKER_URI_HEAD@.len() as int, (STICKER_URI_HEAD@.len() + i.len()) as int) =~= i);
        assert(c.skip(c.len() - tail.len()) =~= tail);
    }
}

/// POST /v1/sticker-packs/{number}: installs a sticker pack named by `uri`, or by
/// `pack_id` and `pack_key` together; with neither, nothing is installed.
pub fn install_sticker_pack(
    number: &str,
    uri: Option<String>,
    pack_id: Option<String>,
    pack_key: Option<String>,
) -> (r: Result<RpcCall, StickerPackError>)
    ensures
        r is Ok == (uri is Some || (pack_id is Some && pack_key is Some)),
        r matches Ok(call) ==> call.method@ == "addStickerPack"@,
        r matches Ok(call) ==> call.reply == Reply::Created,
        r matches Ok(call) ==> call.params@ == JsonView::Object(
            map![
                "account"@ => JsonView::Str(number@),
                "uri"@ => JsonView::Array(seq![JsonView::Str(chosen_pack_uri(uri, pack_id, pack_key))]),
            ],
        ),
{
    let ghost (u0, i0, k0) = (uri, pack_id, pack_key);
    let chosen = match (uri, pack_id, pack_key) {
        (Some(u), _, _) => u,
        (None, Some(id), Some(key)) => {
            let mut built = STICKER_URI_HEAD.to_owned();
            built.append(id.as_str());
            built.append(STICKER_URI_KEY);
            built.append(key.as_str());
            built
        },
        _ => {
            return Err(StickerPackError::NoPackGiven);
        },
    };
    assert(chosen@ == chosen_pack_uri(u0, i0, k0));
    let mut params = Json::empty_object();
    params.set("account", Json::text(number));
    params.set("uri", Json::one_text(chosen.as_str()));
    Ok(RpcCall::new("addStickerPack", params, Reply::Created))
}

} // verus!
