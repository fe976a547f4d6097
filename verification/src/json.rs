//! JSON values, their mathematical model, and the object operations the endpoints use.

use vstd::prelude::*;

use crate::text::same_text;

verus! {

/// Mathematical model of a JSON value. An object is a finite map from keys to values.
pub enum JsonView {
    Null,
    Bool(bool),
    Int(int),
    Decimal(Seq<char>),
    Str(Seq<char>),
    Array(Seq<JsonView>),
    Object(Map<Seq<char>, JsonView>),
}

/// A JSON value. An object keeps its members in a vector; where a key occurs more
/// than once, the last member with that key is the one that counts.
/// A number that is not an integer keeps its decimal text.
#[derive(Debug)]
pub enum Json {
    Null,
    Bool(bool),
    Int(i128),
    Decimal(String),
    Str(String),
    Array(Vec<Json>),
    Object(Vec<(String, Json)>),
}

/// The model of a value.
pub open spec fn json_view(j: Json) -> JsonView
    decreases j, 1int,
{
    match j {
        Json::Null => JsonView::Null,
        Json::Bool(b) => JsonView::Bool(b),
        Json::Int(n) => JsonView::Int(n as int),
        Json::Decimal(s) => JsonView::Decimal(s@),
        Json::Str(s) => JsonView::Str(s@),
        Json::Array(items) => JsonView::Array(items_view(items@)),
        Json::Object(entries) => JsonView::Object(entries_view(entries@)),
    }
}

/// The models of a sequence of values.
pub open spec fn items_view(s: Seq<Json>) -> Seq<JsonView>
    decreases s, 0int,
{
    if s.len() == 0 {
        Seq::empty()
    } else {
        items_view(s.drop_last()).push(json_view(s.last()))
    }
}

/// The map that a sequence of members stands for: later members override earlier ones.
pub open spec fn entries_view(s: Seq<(String, Json)>) -> Map<Seq<char>, JsonView>
    decreases s, 0int,
{
    if s.len() == 0 {
        Map::empty()
    } else {
        entries_view(s.drop_last()).insert(s.last().0@, json_view(s.last().1))
    }
}

impl View for Json {
    type V = JsonView;

    open spec fn view(&self) -> JsonView {
        json_view(*self)
    }
}

/// The members of an object model; any other value has none.
pub open spec fn fields(v: JsonView) -> Map<Seq<char>, JsonView> {
    match v {
        JsonView::Object(m) => m,
        _ => Map::empty(),
    }
}

/// `m` with `key` bound to the value in `opt`, or `m` itself when `opt` is empty.
pub open spec fn put_opt(
    m: Map<Seq<char>, JsonView>,
    key: Seq<char>,
    opt: Option<JsonView>,
) -> Map<Seq<char>, JsonView> {
    match opt {
        Some(v) => m.insert(key, v),
        None => m,
    }
}

/// The model of an optional string.
pub open spec fn opt_str(o: Option<String>) -> Option<JsonView> {
    match o {
        Some(s) => Some(JsonView::Str(s@)),
        None => None,
    }
}

/// The model of an optional boolean.
pub open spec fn opt_bool(o: Option<bool>) -> Option<JsonView> {
    match o {
        Some(b) => Some(JsonView::Bool(b)),
        None => None,
    }
}

/// The model of an optional unsigned integer.
pub open spec fn opt_u64(o: Option<u64>) -> Option<JsonView> {
    match o {
        Some(n) => Some(JsonView::Int(n as int)),
        None => None,
    }
}

/// The model of an optional signed integer.
pub open spec fn opt_i64(o: Option<i64>) -> Option<JsonView> {
    match o {
        Some(n) => Some(JsonView::Int(n as int)),
        None => None,
    }
}

/// The model of an optional string put in a one-element array.
pub open spec fn opt_one(o: Option<String>) -> Option<JsonView> {
    match o {
        Some(s) => Some(JsonView::Array(seq![JsonView::Str(s@)])),
        None => None,
    }
}

/// `true` where the option is `Some(true)`, nothing otherwise.
pub open spec fn flag(o: Option<bool>) -> Option<JsonView> {
    if o == Some(true) {
        Some(JsonView::Bool(true))
    } else {
        None
    }
}

/// `true` where the option is `Some(false)`, nothing otherwise.
pub open spec fn flag_off(o: Option<bool>) -> Option<JsonView> {
    if o == Some(false) {
        Some(JsonView::Bool(true))
    } else {
        None
    }
}

/// The model of a list of strings: an array of string values.
pub open spec fn str_list_view(s: Seq<String>) -> JsonView {
    JsonView::Array(s.map_values(|x: String| JsonView::Str(x@)))
}

/// The members of `s` whose key is not `k`, in order.
pub open spec fn without_key(s: Seq<(String, Json)>, k: Seq<char>) -> Seq<(String, Json)>
    decreases s.len(),
{
    if s.len() == 0 {
        s
    } else if s.last().0@ == k {
        without_key(s.drop_last(), k)
    } else {
        without_key(s.drop_last(), k).push(s.last())
    }
}

/// The model of the value of the last member of `s` with key `k`.
pub open spec fn lookup(s: Seq<(String, Json)>, k: Seq<char>) -> Option<JsonView>
    decreases s.len(),
{
    if s.len() == 0 {
        None
    } else if s.last().0@ == k {
        Some(json_view(s.last().1))
    } else {
        lookup(s.drop_last(), k)
    }
}

proof fn lemma_entries_push(s: Seq<(String, Json)>, e: (String, Json))
    ensures
        entries_view(s.push(e)) == entries_view(s).insert(e.0@, json_view(e.1)),
{
    assert(s.push(e).drop_last() =~= s);
}

pub proof fn lemma_items_push(s: Seq<Json>, e: Json)
    ensures
        items_view(s.push(e)) == items_view(s).push(json_view(e)),
{
    assert(s.push(e).drop_last() =~= s);
}

/// The model of a sequence of values is the sequence of their models.
pub proof fn lemma_items_view(s: Seq<Json>)
    ensures
        items_view(s).len() == s.len(),
        forall|i: int| 0 <= i < s.len() ==> #[trigger] items_view(s)[i] == json_view(s[i]),
    decreases s.len(),
{
    if s.len() > 0 {
        lemma_items_view(s.drop_last());
        assert forall|i: int| 0 <= i < s.len() implies #[trigger] items_view(s)[i] == json_view(
            s[i],
        ) by {
            if i < s.len() - 1 {
                assert(s.drop_last()[i] == s[i]);
            }
        }
    }
}

/// Replacing one value replaces its model.
pub proof fn lemma_items_update(s: Seq<Json>, i: int, x: Json)
    requires
        0 <= i < s.len(),
    ensures
        items_view(s.update(i, x)) == items_view(s).update(i, json_view(x)),
{
    lemma_items_view(s);
    lemma_items_view(s.update(i, x));
    assert(items_view(s.update(i, x)) =~= items_view(s).update(i, json_view(x)));
}

proof fn lemma_without_key(s: Seq<(String, Json)>, k: Seq<char>)
    ensures
        entries_view(without_key(s, k)) == entries_view(s).remove(k),
    decreases s.len(),
{
    if s.len() == 0 {
        assert(entries_view(s).remove(k) =~= Map::empty());
    } else {
        let p = s.drop_last();
        let e = s.last();
        lemma_without_key(p, k);
        if e.0@ == k {
            assert(entries_view(s).remove(k) =~= entries_view(p).remove(k));
        } else {
            lemma_entries_push(without_key(p, k), e);
            assert(entries_view(s).remove(k) =~= entries_view(p).remove(k).insert(
                e.0@,
                json_view(e.1),
            ));
        }
    }
}

proof fn lemma_lookup(s: Seq<(String, Json)>, k: Seq<char>)
    ensures
        entries_view(s).contains_key(k) == (lookup(s, k) is Some),
        lookup(s, k) matches Some(v) ==> entries_view(s)[k] == v,
    decreases s.len(),
{
    if s.len() > 0 {
        lemma_lookup(s.drop_last(), k);
    }
}

pub proof fn lemma_take_push<A>(s: Seq<A>, i: int)
    requires
        0 <= i < s.len(),
    ensures
        s.take(i + 1) == s.take(i).push(s[i]),
        s.take(i + 1).drop_last() == s.take(i),
        s.take(i + 1).last() == s[i],
{
    assert(s.take(i + 1) =~= s.take(i).push(s[i]));
    assert(s.take(i + 1).drop_last() =~= s.take(i));
}

impl Json {
    /// An object with no members.
    pub fn empty_object() -> (r: Json)
        ensures
            r@ == JsonView::Object(Map::empty()),
            r is Object,
    {
        Json::Object(Vec::new())
    }

    /// An array with no items.
    pub fn empty_array() -> (r: Json)
        ensures
            r@ == JsonView::Array(Seq::empty()),
            r is Array,
    {
        Json::Array(Vec::new())
    }

    /// Appends `item` to an array.
    pub fn push_item(&mut self, item: Json)
        requires
            *old(self) is Array,
        ensures
            *final(self) is Array,
            final(self)@ == JsonView::Array(old(self)@->Array_0.push(item@)),
    {
        let mut taken = Json::Null;
        std::mem::swap(self, &mut taken);
        let mut items: Vec<Json> = match taken {
            Json::Array(v) => v,
            _ => Vec::new(),
        };
        proof {
            lemma_items_push(items@, item);
        }
        items.push(item);
        *self = Json::Array(items);
    }

    /// A string value holding the characters of `s`.
    pub fn text(s: &str) -> (r: Json)
        ensures
            r@ == JsonView::Str(s@),
    {
        Json::Str(s.to_owned())
    }

    /// An array holding one string value.
    pub fn one_text(s: &str) -> (r: Json)
        ensures
            r@ == JsonView::Array(seq![JsonView::Str(s@)]),
    {
        let mut v: Vec<Json> = Vec::new();
        v.push(Json::text(s));
        proof {
            lemma_items_push(Seq::empty(), v@[0]);
            assert(Seq::<Json>::empty().push(v@[0]) =~= v@);
        }
        Json::Array(v)
    }

    /// An array of string values, one for each string of `items`, in order.
    pub fn text_list(items: &Vec<String>) -> (r: Json)
        ensures
            r@ == str_list_view(items@),
    {
        let mut v: Vec<Json> = Vec::new();
        let mut i: usize = 0;
        while i < items.len()
            invariant
                i <= items.len(),
                items_view(v@) == items@.take(i as int).map_values(|x: String| JsonView::Str(x@)),
            decreases items.len() - i,
        {
            let e = Json::text(items[i].as_str());
            proof {
                lemma_items_push(v@, e);
                lemma_take_push(items@, i as int);
                assert(items@.take(i + 1).map_values(|x: String| JsonView::Str(x@)) =~= items@.take(
                    i as int,
                ).map_values(|x: String| JsonView::Str(x@)).push(JsonView::Str(items@[i as int]@)));
            }
            v.push(e);
            i = i + 1;
        }
        assert(items@.take(items.len() as int) =~= items@);
        Json::Array(v)
    }

    /// Removes every member with key `key` from an object and hands back the value that
    /// counted for it, if any.
    pub fn remove_key(&mut self, key: &str) -> (found: Option<Json>)
        requires
            *old(self) is Object,
        ensures
            *final(self) is Object,
            final(self)@ == JsonView::Object(fields(old(self)@).remove(key@)),
            found is Some == fields(old(self)@).contains_key(key@),
            found matches Some(v) ==> v@ == fields(old(self)@)[key@],
    {
        let mut taken = Json::Null;
        std::mem::swap(self, &mut taken);
        let mut entries: Vec<(String, Json)> = match taken {
            Json::Object(e) => e,
            _ => Vec::new(),
        };
        let ghost orig = entries@;
        let mut kept: Vec<(String, Json)> = Vec::new();
        let mut found: Option<Json> = None;
        let n = entries.len();
        let mut i: usize = 0;
        while i < n
            invariant
                i <= n,
                n == orig.len(),
                entries@ == orig.skip(i as int),
                kept@ == without_key(orig.take(i as int), key@),
                found is Some == (lookup(orig.take(i as int), key@) is Some),
                found matches Some(v) ==> Some(v@) == lookup(orig.take(i as int), key@),
            decreases n - i,
        {
            proof {
                lemma_take_push(orig, i as int);
                assert(orig.skip(i as int)[0] == orig[i as int]);
                assert(orig.skip(i as int).remove(0) =~= orig.skip(i + 1));
            }
            let (k, v) = entries.remove(0);
            if same_text(k.as_str(), key) {
                found = Some(v);
            } else {
                kept.push((k, v));
            }
            i = i + 1;
        }
        proof {
            assert(orig.take(n as int) =~= orig);
            lemma_without_key(orig, key@);
            lemma_lookup(orig, key@);
        }
        *self = Json::Object(kept);
        found
    }

    /// Binds `key` to `value` in an object, as `value[key] = ..` does; `null` becomes an
    /// object first.
    pub fn set(&mut self, key: &str, value: Json)
        requires
            *old(self) is Object || *old(self) is Null,
        ensures
            *final(self) is Object,
            final(self)@ == JsonView::Object(fields(old(self)@).insert(key@, value@)),
    {
        if let Json::Null = self {
            *self = Json::empty_object();
        }
        let ghost before = fields(self@);
        let _ = self.remove_key(key);
        let mut taken = Json::Null;
        std::mem::swap(self, &mut taken);
        let mut entries: Vec<(String, Json)> = match taken {
            Json::Object(e) => e,
            _ => Vec::new(),
        };
        let ghost old_entries = entries@;
        let item = (key.to_owned(), value);
        entries.push(item);
        proof {
            lemma_entries_push(old_entries, item);
            assert(before.remove(key@).insert(key@, value@) =~= before.insert(key@, value@));
        }
        *self = Json::Object(entries);
    }

    /// The value that counts for `key` in an object; none for any other value.
    pub fn get(&self, key: &str) -> (r: Option<&Json>)
        ensures
            self is Object ==> (r is Some == fields(self@).contains_key(key@)),
            self is Object ==> (r matches Some(v) ==> v@ == fields(self@)[key@]),
            !(self is Object) ==> r is None,
    {
        match self {
            Json::Object(entries) => {
                proof {
                    lemma_lookup(entries@, key@);
                    assert(entries@.take(entries@.len() as int) =~= entries@);
                }
                let mut i: usize = entries.len();
                while i > 0
                    invariant
                        i <= entries.len(),
                        self@ == JsonView::Object(entries_view(entries@)),
                        lookup(entries@, key@) == lookup(entries@.take(i as int), key@),
                    decreases i,
                {
                    proof {
                        lemma_take_push(entries@, i - 1);
                    }
                    if same_text(entries[i - 1].0.as_str(), key) {
                        proof {
                            lemma_lookup(entries@, key@);
                        }
                        return Some(&entries[i - 1].1);
                    }
                    i = i - 1;
                }
                None
            },
            _ => None,
        }
    }

    /// The text of a string value.
    pub fn as_text(&self) -> (r: Option<&String>)
        ensures
            self is Str ==> r == Some(&self->Str_0),
            !(self is Str) ==> r is None,
    {
        match self {
            Json::Str(s) => Some(s),
            _ => None,
        }
    }
}

} // verus!
