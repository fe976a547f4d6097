//! Data-URI attachments and base64 avatars that are written to files before a request
//! is handed on, and the names of those files.

use vstd::prelude::*;

use base64::Engine;

use crate::json::{
    fields, items_view, json_view, lemma_items_update, lemma_items_view, lemma_take_push, Json,
    JsonView,
};
use crate::text::{
    all_digits, chars_of, decimal, decimal_string, find, find_from, has_prefix, lemma_decimal,
    segments, slice_chars, split_all, starts_with, string_from_chars,
};

verus! {

broadcast use vstd::string::group_string_axioms;

/// `base64::DecodeError`, the reason the `base64` crate gives for refusing a text; it is
/// only carried through.
#[verifier::external_type_specification]
#[verifier::external_body]
pub struct ExDecodeError(base64::DecodeError);

/// What the `base64` crate's standard engine (`general_purpose::STANDARD`, padded
/// alphabet) decodes `text` to, or none where it refuses the text.
pub uninterp spec fn standard_base64_decode(text: Seq<char>) -> Option<Seq<u8>>;

/// `base64::engine::general_purpose::STANDARD.decode`. The contract claims only that the
/// outcome is a function of the text: it succeeds exactly where `standard_base64_decode`
/// has a value, and then hands back those bytes.
#[verifier::external_body]
fn decode_standard_base64(text: &str) -> (r: Result<Vec<u8>, base64::DecodeError>)
    ensures
        r is Ok == standard_base64_decode(text@) is Some,
        r matches Ok(bytes) ==> standard_base64_decode(text@) == Some(bytes@),
{
    base64::engine::general_purpose::STANDARD.decode(text)
}

/// The extension that `std::path::Path::extension` finds in the file name `name`, as
/// text, or none where it finds none.
pub uninterp spec fn path_extension(name: Seq<char>) -> Option<Seq<char>>;

/// A name that `std::path::Path` reads as one file name: not empty, no `/` in it, and
/// neither `.` nor `..`.
pub open spec fn plain_file_name(name: Seq<char>) -> bool {
    &&& name.len() > 0
    &&& forall|i: int| 0 <= i < name.len() ==> name[i] != '/'
    &&& name != seq!['.']
    &&& name != seq!['.', '.']
}

/// `std::path::Path::new(name).extension()`, read as text. The contract claims that the
/// outcome is a function of the name, and, for a plain file name, what the documentation
/// of `Path::extension` says: none without a `.`, none where the only `.` begins the
/// name, and otherwise the text after the last `.`.
#[verifier::external_body]
fn file_extension(name: &str) -> (r: Option<String>)
    ensures
        r is None == path_extension(name@) is None,
        r matches Some(e) ==> path_extension(name@) == Some(e@),
        plain_file_name(name@) ==> ((forall|i: int| 0 <= i < name@.len() ==> name@[i] != '.')
            ==> r is None),
        plain_file_name(name@) ==> (forall|k: int|
            0 <= k < name@.len() && #[trigger] name@[k] == '.' && (forall|j: int|
                k < j < name@.len() ==> name@[j] != '.') ==> (if k == 0 {
                r is None
            } else {
                r is Some && r->0@ == name@.skip(k + 1)
            })),
{
    match std::path::Path::new(name).extension() {
        Some(ext) => match ext.to_str() {
            Some(e) => Some(e.to_owned()),
            None => None,
        },
        None => None,
    }
}

/// The text that `base64::DecodeError` displays (its `Display` impl). Nothing is
/// claimed of that text.
#[verifier::external_body]
fn decode_error_text(e: &base64::DecodeError) -> String {
    e.to_string()
}

/// Why a value could not be written to a file.
#[derive(Debug)]
pub enum SpillError {
    /// The text is not valid standard base64.
    InvalidBase64(base64::DecodeError),
}

impl SpillError {
    /// The reason, as text: what the `base64` crate says of the refused text.
    pub fn message(&self) -> String {
        match self {
            SpillError::InvalidBase64(e) => decode_error_text(e),
        }
    }
}

/// The directory, relative to the working directory, that outgoing files are written to.
pub const SPILL_DIR: &'static str = "outgoing-attachments";

/// The member of a request that lists its attachments.
pub const ATTACHMENT_KEY: &'static str = "attachment";

pub open spec fn data_scheme() -> Seq<char> {
    seq!['d', 'a', 't', 'a', ':']
}

pub open spec fn base64_marker() -> Seq<char> {
    seq![';', 'b', 'a', 's', 'e', '6', '4', ',']
}

pub open spec fn filename_key() -> Seq<char> {
    seq!['f', 'i', 'l', 'e', 'n', 'a', 'm', 'e', '=']
}

pub open spec fn default_filename() -> Seq<char> {
    seq!['a', 't', 't', 'a', 'c', 'h', 'm', 'e', 'n', 't']
}

pub open spec fn default_extension() -> Seq<char> {
    seq!['b', 'i', 'n']
}

/// Where the `;base64,` of a data URI `data:<meta>;base64,<payload>` stands: its first
/// occurrence after the `data:` scheme. None when `s` is no such URI.
pub open spec fn data_uri_marker(s: Seq<char>) -> Option<nat> {
    if starts_with(s, data_scheme()) {
        find_from(s, base64_marker(), 5)
    } else {
        None
    }
}

/// The part of a data URI between its scheme and its `;base64,`.
pub open spec fn data_uri_meta(s: Seq<char>, k: nat) -> Seq<char> {
    s.subrange(5, k as int)
}

/// The base64 text of a data URI, after its `;base64,`.
pub open spec fn data_uri_payload(s: Seq<char>, k: nat) -> Seq<char> {
    s.skip(k + 8int)
}

/// The rest of the first part of `parts` that begins with `prefix`.
pub open spec fn first_with_prefix(parts: Seq<Seq<char>>, prefix: Seq<char>) -> Option<Seq<char>>
    decreases parts.len(),
{
    if parts.len() == 0 {
        None
    } else if starts_with(parts[0], prefix) {
        Some(parts[0].skip(prefix.len() as int))
    } else {
        first_with_prefix(parts.drop_first(), prefix)
    }
}

/// The file name that the `;`-separated parameters of a data URI give with
/// `filename=`; `attachment` when none does.
pub open spec fn attachment_filename(meta: Seq<char>) -> Seq<char> {
    match first_with_prefix(segments(meta, ';'), filename_key()) {
        Some(f) => f,
        None => default_filename(),
    }
}

/// The extension of the file written for a data URI: that of its file name, or `bin`.
pub open spec fn attachment_extension(meta: Seq<char>) -> Seq<char> {
    match path_extension(attachment_filename(meta)) {
        Some(e) => e,
        None => default_extension(),
    }
}

/// Whether `v` is a string holding a data URI.
pub open spec fn is_data_uri(v: JsonView) -> bool {
    v matches JsonView::Str(t) && data_uri_marker(t) is Some
}

/// The text of a string value.
pub open spec fn text_of(v: JsonView) -> Seq<char> {
    match v {
        JsonView::Str(t) => t,
        _ => Seq::empty(),
    }
}

/// The decoded payload of the data URI held in `v`.
pub open spec fn payload_bytes(v: JsonView) -> Option<Seq<u8>> {
    let t = text_of(v);
    standard_base64_decode(data_uri_payload(t, data_uri_marker(t)->0))
}

/// The file extension chosen for the data URI held in `v`.
pub open spec fn payload_extension(v: JsonView) -> Seq<char> {
    let t = text_of(v);
    attachment_extension(data_uri_meta(t, data_uri_marker(t)->0))
}

/// The attachment list of a request body: its `attachment` member when that is an array.
pub open spec fn attachment_items(body: JsonView) -> Option<Seq<JsonView>> {
    if fields(body).contains_key(ATTACHMENT_KEY@) {
        match fields(body)[ATTACHMENT_KEY@] {
            JsonView::Array(items) => Some(items),
            _ => None,
        }
    } else {
        None
    }
}

/// The positions of the data URIs in `items`, in increasing order.
pub open spec fn spill_indices(items: Seq<JsonView>) -> Seq<int>
    decreases items.len(),
{
    if items.len() == 0 {
        Seq::empty()
    } else if is_data_uri(items.last()) {
        spill_indices(items.drop_last()).push(items.len() - 1)
    } else {
        spill_indices(items.drop_last())
    }
}

/// Whether every data URI in `items` holds valid base64.
pub open spec fn all_payloads_decode(items: Seq<JsonView>) -> bool {
    forall|j: int|
        0 <= j < spill_indices(items).len() ==> (#[trigger] payload_bytes(
            items[spill_indices(items)[j]],
        )) is Some
}

/// One file to write: which attachment it replaces, the extension of its name, its bytes.
#[derive(Debug)]
pub struct SpillFile {
    pub index: usize,
    pub extension: String,
    pub bytes: Vec<u8>,
}

/// What a request body asks to be written to files before it is handed on.
#[derive(Debug)]
pub struct SpillPlan {
    /// Whether the body has an attachment list at all.
    pub has_attachment_list: bool,
    /// One file for each data URI in the list, in order.
    pub files: Vec<SpillFile>,
}

/// Whether `files` is the list of files to write for the attachment list `items`.
pub open spec fn plans_files(items: Seq<JsonView>, files: Seq<SpillFile>) -> bool {
    &&& files.len() == spill_indices(items).len()
    &&& forall|j: int|
        0 <= j < files.len() ==> {
            &&& #[trigger] files[j].index == spill_indices(items)[j]
            &&& files[j].extension@ == payload_extension(items[spill_indices(items)[j]])
            &&& payload_bytes(items[spill_indices(items)[j]]) == Some(files[j].bytes@)
        }
}

proof fn lemma_spill_indices(items: Seq<JsonView>)
    ensures
        forall|j: int|
            0 <= j < spill_indices(items).len() ==> 0 <= #[trigger] spill_indices(items)[j]
                < items.len() && is_data_uri(items[spill_indices(items)[j]]),
        forall|j: int, l: int|
            0 <= j < l < spill_indices(items).len() ==> #[trigger] spill_indices(items)[j]
                < #[trigger] spill_indices(items)[l],
    decreases items.len(),
{
    if items.len() > 0 {
        let p = items.drop_last();
        lemma_spill_indices(p);
        let sp = spill_indices(p);
        assert forall|j: int| 0 <= j < sp.len() implies 0 <= #[trigger] sp[j] < items.len()
            && is_data_uri(items[sp[j]]) by {
            assert(items[sp[j]] == p[sp[j]]);
        }
    }
}

/// A value that is no data URI leaves the plan of a list as it was.
proof fn lemma_plan_skip(items: Seq<JsonView>, i: int, files: Seq<SpillFile>)
    requires
        0 <= i < items.len(),
        !is_data_uri(items[i]),
        plans_files(items.take(i), files),
        all_payloads_decode(items.take(i)),
    ensures
        plans_files(items.take(i + 1), files),
        all_payloads_decode(items.take(i + 1)),
{
    let prefix = items.take(i);
    let next = items.take(i + 1);
    lemma_take_push(items, i);
    lemma_spill_indices(prefix);
    assert(spill_indices(next) == spill_indices(prefix));
    assert forall|j: int| 0 <= j < spill_indices(prefix).len() implies next[spill_indices(
        prefix,
    )[j]] == prefix[spill_indices(prefix)[j]] by {}
}

/// A data URI whose payload decodes adds its file to the plan of a list.
proof fn lemma_plan_push(items: Seq<JsonView>, i: int, files: Seq<SpillFile>, f: SpillFile)
    requires
        0 <= i < items.len(),
        is_data_uri(items[i]),
        plans_files(items.take(i), files),
        all_payloads_decode(items.take(i)),
        f.index == i,
        f.extension@ == payload_extension(items[i]),
        payload_bytes(items[i]) == Some(f.bytes@),
    ensures
        plans_files(items.take(i + 1), files.push(f)),
        all_payloads_decode(items.take(i + 1)),
{
    let prefix = items.take(i);
    let next = items.take(i + 1);
    lemma_take_push(items, i);
    lemma_spill_indices(prefix);
    let sp = spill_indices(prefix);
    assert(spill_indices(next) == sp.push(i));
    assert forall|j: int| 0 <= j < sp.len() implies next[sp[j]] == prefix[sp[j]] by {}
    let nf = files.push(f);
    assert forall|j: int| 0 <= j < nf.len() implies {
        &&& #[trigger] nf[j].index == spill_indices(next)[j]
        &&& nf[j].extension@ == payload_extension(next[spill_indices(next)[j]])
        &&& payload_bytes(next[spill_indices(next)[j]]) == Some(nf[j].bytes@)
    } by {
        if j < files.len() {
            assert(nf[j] == files[j]);
            assert(spill_indices(next)[j] == sp[j]);
            assert(files[j].index == sp[j]);
            assert(next[sp[j]] == prefix[sp[j]]);
        } else {
            assert(nf[j] == f);
            assert(next[i] == items[i]);
        }
    }
    assert forall|j: int| 0 <= j < spill_indices(next).len() implies (#[trigger] payload_bytes(
        next[spill_indices(next)[j]],
    )) is Some by {
        if j < sp.len() {
            assert(payload_bytes(prefix[sp[j]]) is Some);
        }
    }
}

proof fn lemma_first_with_prefix_step(parts: Seq<Seq<char>>, prefix: Seq<char>, i: int)
    requires
        0 <= i < parts.len(),
        !starts_with(parts[i], prefix),
    ensures
        first_with_prefix(parts.skip(i), prefix) == first_with_prefix(parts.skip(i + 1), prefix),
{
    assert(parts.skip(i).drop_first() =~= parts.skip(i + 1));
}

/// The file name given by the parameters `meta` of a data URI.
fn filename_of(meta: &Vec<char>) -> (r: Vec<char>)
    ensures
        r@ == attachment_filename(meta@),
{
    let parts = split_all(meta, ';');
    let ghost all = parts@.map_values(|x: Vec<char>| x@);
    let key: Vec<char> = vec!['f', 'i', 'l', 'e', 'n', 'a', 'm', 'e', '='];
    let mut i: usize = 0;
    assert(all.skip(0) =~= all);
    while i < parts.len()
        invariant
            i <= parts.len(),
            key@ == filename_key(),
            all == parts@.map_values(|x: Vec<char>| x@),
            all == segments(meta@, ';'),
            first_with_prefix(all, filename_key()) == first_with_prefix(all.skip(i as int), filename_key()),
        decreases parts.len() - i,
    {
        assert(all.skip(i as int)[0] == parts@[i as int]@);
        if has_prefix(&parts[i], &key) {
            return slice_chars(&parts[i], 9, parts[i].len());
        }
        proof {
            lemma_first_with_prefix_step(all, filename_key(), i as int);
        }
        i = i + 1;
    }
    vec!['a', 't', 't', 'a', 'c', 'h', 'm', 'e', 'n', 't']
}

/// The extension of the file written for a data URI with parameters `meta`.
fn extension_of(meta: &Vec<char>) -> (r: String)
    ensures
        r@ == attachment_extension(meta@),
{
    let name = string_from_chars(&filename_of(meta));
    match file_extension(name.as_str()) {
        Some(e) => e,
        None => {
            let bin = "bin";
            proof {
                reveal_strlit("bin");
            }
            bin.to_owned()
        },
    }
}

/// The files that the data URIs in a request body's attachment list are written to, in
/// the order of the list; the first data URI whose payload is not valid base64 is an
/// error. A body with no attachment list asks for no file.
pub fn plan_spill(body: &Json) -> (r: Result<SpillPlan, SpillError>)
    ensures
        r is Ok == (attachment_items(body@) is None || all_payloads_decode(
            attachment_items(body@)->0,
        )),
        r matches Ok(plan) ==> plan.has_attachment_list == attachment_items(body@) is Some,
        r matches Ok(plan) ==> (attachment_items(body@) is None ==> plan.files@.len() == 0),
        r matches Ok(plan) ==> (attachment_items(body@) matches Some(items) ==> plans_files(
            items,
            plan.files@,
        )),
        plan_fits(body@, r),
{
    let list = match body.get(ATTACHMENT_KEY) {
        Some(Json::Array(list)) => list,
        _ => {
            return Ok(SpillPlan { has_attachment_list: false, files: Vec::new() });
        },
    };
    let ghost items = items_view(list@);
    proof {
        lemma_items_view(list@);
    }
    assert(attachment_items(body@) == Some(items));
    let scheme: Vec<char> = vec!['d', 'a', 't', 'a', ':'];
    let marker: Vec<char> = vec![';', 'b', 'a', 's', 'e', '6', '4', ','];
    let mut files: Vec<SpillFile> = Vec::new();
    let mut i: usize = 0;
    while i < list.len()
        invariant
            i <= list.len(),
            items == items_view(list@),
            attachment_items(body@) == Some(items),
            items.len() == list@.len(),
            forall|k: int| 0 <= k < list@.len() ==> #[trigger] items[k] == json_view(list@[k]),
            scheme@ == data_scheme(),
            marker@ == base64_marker(),
            all_payloads_decode(items.take(i as int)),
            plans_files(items.take(i as int), files@),
        decreases list.len() - i,
    {
        proof {
            lemma_take_push(items, i as int);
        }
        if let Json::Str(text) = &list[i] {
            let chars = chars_of(text.as_str());
            if has_prefix(&chars, &scheme) {
                if let Some(k) = find(&chars, &marker, 5) {
                    assert(marker@.len() == 8);
                    assert(k + 8 <= chars@.len());
                    assert(chars@.len() == chars.len());
                    assert(data_uri_marker(text@) == Some(k as nat));
                    assert(is_data_uri(items[i as int]));
                    let meta = slice_chars(&chars, 5, k);
                    let payload = text.as_str().substring_char(k + 8, chars.len());
                    assert(payload@ =~= data_uri_payload(text@, k as nat));
                    match decode_standard_base64(payload) {
                        Ok(bytes) => {
                            let extension = extension_of(&meta);
                            let f = SpillFile { index: i, extension, bytes };
                            proof {
                                lemma_plan_push(items, i as int, files@, f);
                            }
                            files.push(f);
                        },
                        Err(e) => {
                            proof {
                                lemma_not_all_decode(items, i as int);
                            }
                            return Err(SpillError::InvalidBase64(e));
                        },
                    }
                } else {
                    proof {
                        lemma_plan_skip(items, i as int, files@);
                    }
                }
            } else {
                proof {
                    lemma_plan_skip(items, i as int, files@);
                }
            }
        } else {
            proof {
                lemma_plan_skip(items, i as int, files@);
            }
        }
        i = i + 1;
    }
    assert(items.take(list.len() as int) =~= items);
    Ok(SpillPlan { has_attachment_list: true, files })
}

/// A data URI at position `i` whose payload does not decode makes the whole list fail.
proof fn lemma_not_all_decode(items: Seq<JsonView>, i: int)
    requires
        0 <= i < items.len(),
        is_data_uri(items[i]),
        payload_bytes(items[i]) is None,
    ensures
        !all_payloads_decode(items),
    decreases items.len(),
{
    lemma_spill_indices(items);
    if i == items.len() - 1 {
        let j = spill_indices(items).len() - 1;
        assert(spill_indices(items)[j] == i);
    } else {
        let p = items.drop_last();
        lemma_not_all_decode(p, i);
        let j = choose|j: int|
            0 <= j < spill_indices(p).len() && (#[trigger] payload_bytes(
                p[spill_indices(p)[j]],
            )) is None;
        lemma_spill_indices(p);
        assert(spill_indices(items)[j] == spill_indices(p)[j]);
        assert(items[spill_indices(p)[j]] == p[spill_indices(p)[j]]);
    }
}


/// The positions that `files` replace.
pub open spec fn file_indices(files: Seq<SpillFile>) -> Seq<int> {
    files.map_values(|f: SpillFile| f.index as int)
}

/// The texts of `paths`.
pub open spec fn path_texts(paths: Seq<String>) -> Seq<Seq<char>> {
    paths.map_values(|p: String| p@)
}

/// `items` with the value at each position `idx[j]` replaced by the string `paths[j]`.
pub open spec fn replace_with_paths(
    items: Seq<JsonView>,
    idx: Seq<int>,
    paths: Seq<Seq<char>>,
) -> Seq<JsonView>
    decreases idx.len(),
{
    if idx.len() == 0 || paths.len() == 0 {
        items
    } else {
        replace_with_paths(items, idx.drop_last(), paths.drop_last()).update(
            idx.last(),
            JsonView::Str(paths.last()),
        )
    }
}

/// The body handed on once its data URIs were written to the files `paths`: the same
/// body, with the attachment list in which each written entry is replaced by its path.
pub open spec fn spilled_body(body: JsonView, idx: Seq<int>, paths: Seq<Seq<char>>) -> JsonView {
    JsonView::Object(
        fields(body).insert(
            ATTACHMENT_KEY@,
            JsonView::Array(replace_with_paths(attachment_items(body)->0, idx, paths)),
        ),
    )
}

proof fn lemma_replace_len(items: Seq<JsonView>, idx: Seq<int>, paths: Seq<Seq<char>>)
    requires
        forall|j: int| 0 <= j < idx.len() ==> 0 <= #[trigger] idx[j] < items.len(),
    ensures
        replace_with_paths(items, idx, paths).len() == items.len(),
    decreases idx.len(),
{
    if idx.len() > 0 && paths.len() > 0 {
        lemma_replace_len(items, idx.drop_last(), paths.drop_last());
    }
}

/// Whether every data URI of a body's attachment list holds valid base64 (a body with
/// no attachment list has none).
pub open spec fn body_decodes(body: JsonView) -> bool {
    attachment_items(body) is None || all_payloads_decode(attachment_items(body)->0)
}

/// Whether `plan` is what `plan_spill` gives for `body`.
pub open spec fn plan_fits(body: JsonView, plan: Result<SpillPlan, SpillError>) -> bool {
    match plan {
        Ok(p) => {
            &&& body_decodes(body)
            &&& p.has_attachment_list == attachment_items(body) is Some
            &&& attachment_items(body) is None ==> p.files@.len() == 0
            &&& attachment_items(body) matches Some(items) ==> plans_files(items, p.files@)
        },
        Err(_) => !body_decodes(body),
    }
}

/// The body handed on once the files `files` were written to `paths`: a body with an
/// attachment list gets the paths in place of its data URIs, any other body is handed
/// on as it came.
pub open spec fn spilled_view(body: JsonView, files: Seq<SpillFile>, paths: Seq<String>) -> JsonView {
    if attachment_items(body) is Some {
        spilled_body(body, file_indices(files), path_texts(paths))
    } else {
        body
    }
}

/// The body handed on for a request with an attachment list: each data URI of the list
/// is replaced by the path its own bytes were written to (the `j`-th planned file by the
/// `j`-th path), every other entry and every other member stays as it came, and the list
/// keeps its length.
pub proof fn lemma_spilled_view(body: JsonView, files: Seq<SpillFile>, paths: Seq<String>)
    requires
        attachment_items(body) is Some,
        plans_files(attachment_items(body)->0, files),
        paths.len() == files.len(),
    ensures
        ({
            let out = spilled_view(body, files, paths);
            let items = attachment_items(body)->0;
            &&& out is Object
            &&& attachment_items(out) is Some
            &&& attachment_items(out)->0.len() == items.len()
            &&& forall|j: int|
                0 <= j < files.len() ==> attachment_items(out)->0[#[trigger] files[j].index as int]
                    == JsonView::Str(paths[j]@)
            &&& forall|q: int|
                0 <= q < items.len() && !is_data_uri(items[q]) ==> #[trigger] attachment_items(
                    out,
                )->0[q] == items[q]
            &&& forall|k: Seq<char>|
                k != ATTACHMENT_KEY@ ==> (#[trigger] fields(out).contains_key(k) == fields(
                    body,
                ).contains_key(k) && fields(out)[k] == fields(body)[k])
        }),
{
    lemma_send_passthrough(body, files, paths);
}

/// A request without an attachment list is handed on as it came.
pub proof fn lemma_spilled_view_without_list(body: JsonView, files: Seq<SpillFile>, paths: Seq<String>)
    requires
        attachment_items(body) is None,
    ensures
        spilled_view(body, files, paths) == body,
{
}

/// The body to hand on once the files that `plan` plans for `body` were written, to
/// the paths in `written` (in the order of the plan), or the reason to refuse the
/// request: a data URI that is not valid base64, or a file that could not be written.
pub fn finish_spill(
    body: Json,
    plan: Result<SpillPlan, SpillError>,
    written: Result<Vec<String>, String>,
) -> (r: Result<Json, String>)
    requires
        plan_fits(body@, plan),
        plan matches Ok(p) ==> (written matches Ok(paths) ==> paths.len() == p.files.len()),
    ensures
        r is Ok == (plan is Ok && written is Ok),
        !body_decodes(body@) ==> r is Err,
        plan is Ok ==> (written matches Err(m) ==> r == Err::<Json, String>(m)),
        r matches Ok(out) ==> ({
            &&& plan matches Ok(p)
            &&& written matches Ok(paths)
            &&& out@ == spilled_view(body@, p.files@, paths@)
        }),
        r matches Ok(out) ==> ({
            &&& plan matches Ok(p)
            &&& written matches Ok(paths)
            &&& attachment_items(body@) is None ==> out@ == body@
            &&& attachment_items(body@) is Some ==> {
                &&& attachment_items(out@) is Some
                &&& attachment_items(out@)->0.len() == attachment_items(body@)->0.len()
                &&& forall|j: int|
                    0 <= j < p.files.len() ==> attachment_items(out@)->0[#[trigger] p.files@[j].index as int]
                        == JsonView::Str(paths@[j]@)
            }
        }),
{
    match plan {
        Err(e) => Err(e.message()),
        Ok(p) => match written {
            Err(m) => Err(m),
            Ok(paths) => {
                let ghost before = body@;
                let mut out = body;
                if p.has_attachment_list {
                    proof {
                        lemma_spill_indices(attachment_items(out@)->0);
                    }
                    apply_spill(&mut out, &p.files, &paths);
                    proof {
                        lemma_spilled_view(before, p.files@, paths@);
                    }
                }
                Ok(out)
            },
        },
    }
}

/// Puts the paths of the written files in place of the data URIs they hold.
pub fn apply_spill(body: &mut Json, files: &Vec<SpillFile>, paths: &Vec<String>)
    requires
        attachment_items(old(body)@) is Some,
        files.len() == paths.len(),
        forall|j: int|
            0 <= j < files.len() ==> #[trigger] files@[j].index < attachment_items(
                old(body)@,
            )->0.len(),
    ensures
        final(body)@ == spilled_body(old(body)@, file_indices(files@), path_texts(paths@)),
{
    let ghost items0 = attachment_items(body@)->0;
    assert(*body is Object);
    let taken = body.remove_key(ATTACHMENT_KEY);
    let mut list: Vec<Json> = match taken {
        Some(Json::Array(l)) => l,
        _ => Vec::new(),
    };
    proof {
        lemma_items_view(list@);
    }
    let mut j: usize = 0;
    while j < files.len()
        invariant
            j <= files.len(),
            files.len() == paths.len(),
            list@.len() == items0.len(),
            forall|k: int| 0 <= k < files.len() ==> #[trigger] files@[k].index < items0.len(),
            items_view(list@) == replace_with_paths(
                items0,
                file_indices(files@).take(j as int),
                path_texts(paths@).take(j as int),
            ),
        decreases files.len() - j,
    {
        let idx = files[j].index;
        let value = Json::Str(paths[j].clone());
        proof {
            lemma_items_update(list@, idx as int, value);
            let fi = file_indices(files@);
            let pt = path_texts(paths@);
            assert(fi.take(j + 1).drop_last() =~= fi.take(j as int));
            assert(pt.take(j + 1).drop_last() =~= pt.take(j as int));
            assert(fi.take(j + 1).last() == idx as int);
            assert(pt.take(j + 1).last() == paths@[j as int]@);
        }
        list.set(idx, value);
        j = j + 1;
    }
    proof {
        assert(file_indices(files@).take(files.len() as int) =~= file_indices(files@));
        assert(path_texts(paths@).take(files.len() as int) =~= path_texts(paths@));
    }
    let ghost removed = fields(body@);
    body.set(ATTACHMENT_KEY, Json::Array(list));
    assert(removed.insert(ATTACHMENT_KEY@, JsonView::Array(items_view(list@))) =~= fields(
        old(body)@,
    ).insert(ATTACHMENT_KEY@, JsonView::Array(items_view(list@))));
}

/// What is handed on is what was received, except for the data URIs written to files: every
/// member other than the attachment list is the same, and so is every entry of that list
/// that is not replaced by a path; each replaced entry is its file's path.
pub proof fn lemma_spilled_body_keeps_the_rest(
    body: JsonView,
    idx: Seq<int>,
    paths: Seq<Seq<char>>,
)
    requires
        attachment_items(body) is Some,
        idx.len() == paths.len(),
        forall|j: int, l: int| 0 <= j < l < idx.len() ==> #[trigger] idx[j] < #[trigger] idx[l],
        forall|j: int|
            0 <= j < idx.len() ==> 0 <= #[trigger] idx[j] < attachment_items(body)->0.len(),
    ensures
        forall|k: Seq<char>|
            k != ATTACHMENT_KEY@ ==> (#[trigger] fields(spilled_body(body, idx, paths)).contains_key(k)
                == fields(body).contains_key(k) && fields(spilled_body(body, idx, paths))[k]
                == fields(body)[k]),
        replace_with_paths(attachment_items(body)->0, idx, paths).len()
            == attachment_items(body)->0.len(),
        forall|p: int|
            0 <= p < attachment_items(body)->0.len() && !idx.contains(p) ==> #[trigger] replace_with_paths(
                attachment_items(body)->0,
                idx,
                paths,
            )[p] == attachment_items(body)->0[p],
        forall|j: int|
            0 <= j < idx.len() ==> replace_with_paths(attachment_items(body)->0, idx, paths)[#[trigger] idx[j]]
                == JsonView::Str(paths[j]),
{
    lemma_replace_entries(attachment_items(body)->0, idx, paths);
}

proof fn lemma_replace_entries(items: Seq<JsonView>, idx: Seq<int>, paths: Seq<Seq<char>>)
    requires
        idx.len() == paths.len(),
        forall|j: int, l: int| 0 <= j < l < idx.len() ==> #[trigger] idx[j] < #[trigger] idx[l],
        forall|j: int| 0 <= j < idx.len() ==> 0 <= #[trigger] idx[j] < items.len(),
    ensures
        replace_with_paths(items, idx, paths).len() == items.len(),
        forall|p: int|
            0 <= p < items.len() && !idx.contains(p) ==> #[trigger] replace_with_paths(
                items,
                idx,
                paths,
            )[p] == items[p],
        forall|j: int|
            0 <= j < idx.len() ==> replace_with_paths(items, idx, paths)[#[trigger] idx[j]]
                == JsonView::Str(paths[j]),
    decreases idx.len(),
{
    lemma_replace_len(items, idx, paths);
    if idx.len() > 0 {
        let pi = idx.drop_last();
        let pp = paths.drop_last();
        lemma_replace_entries(items, pi, pp);
        let r = replace_with_paths(items, pi, pp);
        assert forall|p: int| 0 <= p < items.len() && !idx.contains(p) implies #[trigger] replace_with_paths(
            items,
            idx,
            paths,
        )[p] == items[p] by {
            assert(p != idx.last()) by {
                assert(idx[idx.len() - 1] == idx.last());
            }
            if pi.contains(p) {
                let j = choose|j: int| 0 <= j < pi.len() && pi[j] == p;
                assert(idx[j] == p);
            }
        }
        assert forall|j: int| 0 <= j < idx.len() implies replace_with_paths(
            items,
            idx,
            paths,
        )[#[trigger] idx[j]] == JsonView::Str(paths[j]) by {
            if j < idx.len() - 1 {
                assert(idx[j] < idx[idx.len() - 1]);
                assert(pi[j] == idx[j]);
                assert(pp[j] == paths[j]);
            }
        }
    }
}

/// The positions of the files in a plan increase, and each lies inside the list.
proof fn lemma_plan_positions(items: Seq<JsonView>, files: Seq<SpillFile>)
    requires
        plans_files(items, files),
    ensures
        forall|j: int, l: int|
            0 <= j < l < files.len() ==> #[trigger] file_indices(files)[j] < #[trigger] file_indices(
                files,
            )[l],
        forall|j: int| 0 <= j < files.len() ==> #[trigger] files[j].index < items.len(),
{
    lemma_spill_indices(items);
    assert forall|j: int, l: int| 0 <= j < l < files.len() implies #[trigger] file_indices(
        files,
    )[j] < #[trigger] file_indices(files)[l] by {
        assert(files[j].index == spill_indices(items)[j]);
        assert(files[l].index == spill_indices(items)[l]);
    }
    assert forall|j: int| 0 <= j < files.len() implies #[trigger] files[j].index < items.len() by {
        assert(files[j].index == spill_indices(items)[j]);
    }
}

/// The path that the attachment numbered `unique` of process `pid` is written to:
/// `outgoing-attachments/<pid>-<unique>.<extension>`.
pub open spec fn attachment_path(pid: u32, unique: u64, extension: Seq<char>) -> Seq<char> {
    SPILL_DIR@ + seq!['/'] + decimal(pid as nat) + seq!['-'] + decimal(unique as nat) + seq!['.']
        + extension
}

/// The path that the avatar numbered `unique` of process `pid` is written to:
/// `outgoing-attachments/avatar-<pid>-<unique>.jpg`.
pub open spec fn avatar_path(pid: u32, unique: u64) -> Seq<char> {
    SPILL_DIR@ + seq!['/', 'a', 'v', 'a', 't', 'a', 'r', '-'] + decimal(pid as nat) + seq!['-']
        + decimal(unique as nat) + seq!['.', 'j', 'p', 'g']
}

/// The `send` passthrough: once the data URIs of a body's attachment list are written to
/// the files that `plan_spill` plans, the body handed on is the one that came in except
/// that each data URI is replaced by the path of its file. Every other member, and every
/// entry of the list that is no data URI, is forwarded as it came.
pub proof fn lemma_send_passthrough(body: JsonView, files: Seq<SpillFile>, paths: Seq<String>)
    requires
        attachment_items(body) is Some,
        plans_files(attachment_items(body)->0, files),
        paths.len() == files.len(),
    ensures
        ({
            let out = spilled_body(body, file_indices(files), path_texts(paths));
            forall|k: Seq<char>|
                k != ATTACHMENT_KEY@ ==> (#[trigger] fields(out).contains_key(k)
                    == fields(body).contains_key(k) && fields(out)[k] == fields(body)[k])
        }),
        ({
            let items = attachment_items(body)->0;
            let out_items = replace_with_paths(items, file_indices(files), path_texts(paths));
            &&& out_items.len() == items.len()
            &&& forall|p: int|
                0 <= p < items.len() && !is_data_uri(items[p]) ==> #[trigger] out_items[p] == items[p]
            &&& forall|j: int|
                0 <= j < files.len() ==> out_items[#[trigger] files[j].index as int] == JsonView::Str(
                    paths[j]@,
                )
        }),
{
    let items = attachment_items(body)->0;
    let idx = file_indices(files);
    let texts = path_texts(paths);
    lemma_plan_positions(items, files);
    lemma_spill_indices(items);
    assert forall|j: int| 0 <= j < idx.len() implies 0 <= #[trigger] idx[j] < items.len() by {
        assert(idx[j] == files[j].index);
    }
    lemma_spilled_body_keeps_the_rest(body, idx, texts);
    let out_items = replace_with_paths(items, idx, texts);
    assert forall|p: int| 0 <= p < items.len() && !is_data_uri(items[p]) implies #[trigger] out_items[p]
        == items[p] by {
        if idx.contains(p) {
            let j = choose|j: int| 0 <= j < idx.len() && idx[j] == p;
            assert(files[j].index == spill_indices(items)[j]);
        }
    }
    assert forall|j: int| 0 <= j < files.len() implies out_items[#[trigger] files[j].index as int]
        == JsonView::Str(paths[j]@) by {
        assert(idx[j] == files[j].index);
        assert(texts[j] == paths[j]@);
    }
}

/// A numeral followed by a separator that is no digit can be told apart from what follows.
proof fn lemma_numeral_then_separator(
    d1: Seq<char>,
    t1: Seq<char>,
    d2: Seq<char>,
    t2: Seq<char>,
    sep: char,
)
    requires
        all_digits(d1),
        all_digits(d2),
        !('0' <= sep && sep <= '9'),
        d1 + seq![sep] + t1 == d2 + seq![sep] + t2,
    ensures
        d1 == d2,
        t1 == t2,
{
    let x = d1 + seq![sep] + t1;
    let y = d2 + seq![sep] + t2;
    if d1.len() < d2.len() {
        assert(x[d1.len() as int] == sep);
        assert(y[d1.len() as int] == d2[d1.len() as int]);
    } else if d2.len() < d1.len() {
        assert(y[d2.len() as int] == sep);
        assert(x[d2.len() as int] == d1[d2.len() as int]);
    }
    assert(d1 =~= x.take(d1.len() as int));
    assert(d2 =~= y.take(d2.len() as int));
    assert(t1 =~= x.skip(d1.len() + 1int));
    assert(t2 =~= y.skip(d2.len() + 1int));
}

pub(crate) proof fn lemma_decimal_injective(a: nat, b: nat)
    requires
        decimal(a) == decimal(b),
    ensures
        a == b,
{
    lemma_decimal(a);
    lemma_decimal(b);
}

proof fn lemma_same_prefix(p: Seq<char>, x: Seq<char>, y: Seq<char>)
    requires
        p + x == p + y,
    ensures
        x == y,
{
    assert(x =~= (p + x).skip(p.len() as int));
    assert(y =~= (p + y).skip(p.len() as int));
}

/// Each attachment file has a path of its own: two paths are the same only for the same
/// process, the same counter value and the same extension.
pub proof fn lemma_attachment_paths_distinct(
    pid1: u32,
    unique1: u64,
    ext1: Seq<char>,
    pid2: u32,
    unique2: u64,
    ext2: Seq<char>,
)
    requires
        attachment_path(pid1, unique1, ext1) == attachment_path(pid2, unique2, ext2),
    ensures
        pid1 == pid2,
        unique1 == unique2,
        ext1 == ext2,
{
    let p = SPILL_DIR@ + seq!['/'];
    let tail1 = decimal(unique1 as nat) + seq!['.'] + ext1;
    let tail2 = decimal(unique2 as nat) + seq!['.'] + ext2;
    let rest1 = decimal(pid1 as nat) + seq!['-'] + tail1;
    let rest2 = decimal(pid2 as nat) + seq!['-'] + tail2;
    assert(attachment_path(pid1, unique1, ext1) =~= p + rest1);
    assert(attachment_path(pid2, unique2, ext2) =~= p + rest2);
    lemma_same_prefix(p, rest1, rest2);
    lemma_decimal(pid1 as nat);
    lemma_decimal(pid2 as nat);
    lemma_decimal(unique1 as nat);
    lemma_decimal(unique2 as nat);
    lemma_numeral_then_separator(decimal(pid1 as nat), tail1, decimal(pid2 as nat), tail2, '-');
    lemma_numeral_then_separator(decimal(unique1 as nat), ext1, decimal(unique2 as nat), ext2, '.');
    lemma_decimal_injective(pid1 as nat, pid2 as nat);
    lemma_decimal_injective(unique1 as nat, unique2 as nat);
}

/// Each avatar file has a path of its own: two paths are the same only for the same
/// process and the same counter value.
pub proof fn lemma_avatar_paths_distinct(pid1: u32, unique1: u64, pid2: u32, unique2: u64)
    requires
        avatar_path(pid1, unique1) == avatar_path(pid2, unique2),
    ensures
        pid1 == pid2,
        unique1 == unique2,
{
    let p = SPILL_DIR@ + seq!['/', 'a', 'v', 'a', 't', 'a', 'r', '-'];
    let jpg = seq!['j', 'p', 'g'];
    let tail1 = decimal(unique1 as nat) + seq!['.'] + jpg;
    let tail2 = decimal(unique2 as nat) + seq!['.'] + jpg;
    let rest1 = decimal(pid1 as nat) + seq!['-'] + tail1;
    let rest2 = decimal(pid2 as nat) + seq!['-'] + tail2;
    assert(avatar_path(pid1, unique1) =~= p + rest1);
    assert(avatar_path(pid2, unique2) =~= p + rest2);
    lemma_same_prefix(p, rest1, rest2);
    lemma_decimal(pid1 as nat);
    lemma_decimal(pid2 as nat);
    lemma_decimal(unique1 as nat);
    lemma_decimal(unique2 as nat);
    lemma_numeral_then_separator(decimal(pid1 as nat), tail1, decimal(pid2 as nat), tail2, '-');
    lemma_numeral_then_separator(decimal(unique1 as nat), jpg, decimal(unique2 as nat), jpg, '.');
    lemma_decimal_injective(pid1 as nat, pid2 as nat);
    lemma_decimal_injective(unique1 as nat, unique2 as nat);
}

/// The path of an attachment file, see `attachment_path`.
pub fn attachment_file_path(pid: u32, unique: u64, extension: &str) -> (r: String)
    ensures
        r@ == attachment_path(pid, unique, extension@),
{
    let mut out = SPILL_DIR.to_owned();
    let slash = "/";
    let dash = "-";
    let dot = ".";
    proof {
        reveal_strlit("/");
        reveal_strlit("-");
        reveal_strlit(".");
    }
    out.append(slash);
    out.append(decimal_string(pid as u64).as_str());
    out.append(dash);
    out.append(decimal_string(unique).as_str());
    out.append(dot);
    out.append(extension);
    out
}

/// The path of an avatar file, see `avatar_path`.
pub fn avatar_file_path(pid: u32, unique: u64) -> (r: String)
    ensures
        r@ == avatar_path(pid, unique),
{
    let mut out = SPILL_DIR.to_owned();
    let head = "/avatar-";
    let dash = "-";
    let tail = ".jpg";
    proof {
        reveal_strlit("/avatar-");
        reveal_strlit("-");
        reveal_strlit(".jpg");
    }
    out.append(head);
    out.append(decimal_string(pid as u64).as_str());
    out.append(dash);
    out.append(decimal_string(unique).as_str());
    out.append(tail);
    out
}

/// The bytes of a base64 avatar, for writing to its file.
pub fn decode_avatar(base64_avatar: &str) -> (r: Result<Vec<u8>, SpillError>)
    ensures
        r is Ok == standard_base64_decode(base64_avatar@) is Some,
        r matches Ok(bytes) ==> standard_base64_decode(base64_avatar@) == Some(bytes@),
{
    match decode_standard_base64(base64_avatar) {
        Ok(bytes) => Ok(bytes),
        Err(e) => Err(SpillError::InvalidBase64(e)),
    }
}

} // verus!
