//! Looking up whether numbers and usernames are registered.

use vstd::prelude::*;

use crate::json::{Json, JsonView};
use crate::routes::{Reply, RpcCall};
use crate::text::{
    flatten, keep_nonempty, lemma_keep_nonempty, lemma_segments_flatten, segments, split_nonempty,
    without_char,
};

verus! {

/// The search terms in a comma-separated query parameter: the non-empty pieces between
/// its commas, in order.
pub open spec fn search_terms(list: Seq<char>) -> Seq<Seq<char>> {
    keep_nonempty(segments(list, ','))
}

/// The model of a list of texts: an array of string values.
pub open spec fn terms_view(terms: Seq<Seq<char>>) -> JsonView {
    JsonView::Array(terms.map_values(|t: Seq<char>| JsonView::Str(t)))
}

fn terms_of(list: &str) -> (r: Json)
    ensures
        r@ == terms_view(search_terms(list@)),
{
    let terms = split_nonempty(list, ',');
    let r = Json::text_list(&terms);
    assert(terms@.map_values(|x: String| JsonView::Str(x@)) =~= search_terms(list@).map_values(
        |t: Seq<char>| JsonView::Str(t),
    )) by {
        assert(terms@.map_values(|x: String| x@) == search_terms(list@));
        assert forall|i: int| 0 <= i < terms@.len() implies #[trigger] terms@[i]@ == search_terms(
            list@,
        )[i] by {
            assert(terms@.map_values(|x: String| x@)[i] == terms@[i]@);
        }
    }
    r
}

/// GET /v1/search/{number}?numbers=..&usernames=..: whether the phone numbers and the
/// usernames, each a comma-separated list, are registered on Signal.
pub fn search_numbers(number: &str, numbers: &str, usernames: &str) -> (call: RpcCall)
    ensures
        call.method@ == "getUserStatus"@,
        call.reply == Reply::Success,
        call.params@ == JsonView::Object(
            map![
                "account"@ => JsonView::Str(number@),
                "recipient"@ => terms_view(search_terms(numbers@)),
                "username"@ => terms_view(search_terms(usernames@)),
            ],
        ),
{
    let mut params = Json::empty_object();
    params.set("account", Json::text(number));
    params.set("recipient", terms_of(numbers));
    params.set("username", terms_of(usernames));
    RpcCall::new("getUserStatus", params, Reply::Success)
}

/// Every search term is non-empty and holds no comma, and the terms, written one after
/// another, are the query with its commas left out: splitting loses nothing but commas.
pub proof fn lemma_search_terms(list: Seq<char>)
    ensures
        forall|i: int| 0 <= i < search_terms(list).len() ==> #[trigger] search_terms(list)[i].len() > 0,
        forall|i: int, j: int|
            0 <= i < search_terms(list).len() && 0 <= j < search_terms(list)[i].len()
                ==> #[trigger] search_terms(list)[i][j] != ',',
        flatten(search_terms(list)) == without_char(list, ','),
{
    lemma_segments_flatten(list, ',');
    lemma_keep_nonempty(segments(list, ','));
    let parts = segments(list, ',');
    let terms = search_terms(list);
    assert forall|i: int, j: int| 0 <= i < terms.len() && 0 <= j < terms[i].len() implies #[trigger] terms[i][j]
        != ',' by {
        let k = choose|k: int| 0 <= k < parts.len() && parts[k] == terms[i];
        assert(parts[k][j] == terms[i][j]);
    }
}

} // verus!
