//! JSON documents as values of the library's own.

use vstd::prelude::*;

verus! {

broadcast use vstd::std_specs::vec::group_vec_axioms;

/// The mathematical content of a JSON document.
pub enum JsonView {
    Null,
    Bool(bool),
    Number(Seq<char>),
    Text(Seq<char>),
    Array(Seq<JsonView>),
    Object(Seq<(Seq<char>, JsonView)>),
}

impl JsonView {
    /// The value of the first member called `key`, where this is an object
    /// that has one.
    pub open spec fn field(self, key: Seq<char>) -> Option<JsonView> {
        match self {
            JsonView::Object(members) => lookup(members, key),
            _ => None,
        }
    }

    /// The text, where this is one.
    pub open spec fn text(self) -> Option<Seq<char>> {
        match self {
            JsonView::Text(s) => Some(s),
            _ => None,
        }
    }

    /// The items, where this is an array.
    pub open spec fn items(self) -> Option<Seq<JsonView>> {
        match self {
            JsonView::Array(items) => Some(items),
            _ => None,
        }
    }

    /// The member `key` as a text, where it is there and is one.
    pub open spec fn text_field(self, key: Seq<char>) -> Option<Seq<char>> {
        match self.field(key) {
            Some(v) => v.text(),
            None => None,
        }
    }

    /// This object with the member `key` set to `value`; anything but an
    /// object stays as it is.
    pub open spec fn with_field(self, key: Seq<char>, value: JsonView) -> JsonView {
        match self {
            JsonView::Object(members) => JsonView::Object(updated(members, key, value)),
            _ => self,
        }
    }
}

/// The value of the first member called `key`.
pub open spec fn lookup(members: Seq<(Seq<char>, JsonView)>, key: Seq<char>) -> Option<JsonView>
    decreases members.len(),
{
    if members.len() == 0 {
        None
    } else if members[0].0 == key {
        Some(members[0].1)
    } else {
        lookup(members.skip(1), key)
    }
}

/// The members with `key` set to `value`: the first member of that name gets
/// the new value and keeps its place; where there is none, the new member
/// comes last.
pub open spec fn updated(
    members: Seq<(Seq<char>, JsonView)>,
    key: Seq<char>,
    value: JsonView,
) -> Seq<(Seq<char>, JsonView)>
    decreases members.len(),
{
    if members.len() == 0 {
        seq![(key, value)]
    } else if members[0].0 == key {
        seq![(key, value)] + members.skip(1)
    } else {
        seq![members[0]] + updated(members.skip(1), key, value)
    }
}

/// After `key` is set, looking it up gives the new value, and every other
/// name gives what it gave before.
pub proof fn lemma_updated_lookup(
    members: Seq<(Seq<char>, JsonView)>,
    key: Seq<char>,
    value: JsonView,
    other: Seq<char>,
)
    ensures
        lookup(updated(members, key, value), key) == Some(value),
        other != key ==> lookup(updated(members, key, value), other) == lookup(members, other),
    decreases members.len(),
{
    let after = updated(members, key, value);
    if members.len() == 0 {
        assert(after[0] == (key, value));
        assert(after.skip(1).len() == 0);
        assert(lookup(after.skip(1), other) is None);
    } else if members[0].0 == key {
        assert(after[0] == (key, value));
        assert(after.skip(1) =~= members.skip(1));
    } else {
        lemma_updated_lookup(members.skip(1), key, value, other);
        assert(after[0] == members[0]);
        assert(after.skip(1) =~= updated(members.skip(1), key, value));
    }
    if other != key {
        assert(after.len() > 0);
        if after[0].0 != other {
            assert(lookup(after, other) == lookup(after.skip(1), other));
        }
    }
}

/// A JSON document. A number is held as the text that stands for it; an
/// object as its members in order, of which the first of a name counts.
#[derive(Debug, PartialEq, Eq)]
pub enum Json {
    Null,
    Bool(bool),
    Number(String),
    Text(String),
    Array(Vec<Json>),
    Object(Vec<(String, Json)>),
}

impl View for Json {
    type V = JsonView;

    open spec fn view(&self) -> JsonView
        decreases self,
    {
        match self {
            Json::Null => JsonView::Null,
            Json::Bool(b) => JsonView::Bool(*b),
            Json::Number(n) => JsonView::Number(n@),
            Json::Text(s) => JsonView::Text(s@),
            Json::Array(items) => JsonView::Array(
                Seq::new(
                    items.len() as nat,
                    |i: int|
                        if 0 <= i < items.len() {
                            items[i]@
                        } else {
                            JsonView::Null
                        },
                ),
            ),
            Json::Object(fields) => JsonView::Object(
                Seq::new(
                    fields.len() as nat,
                    |i: int|
                        (
                            fields[i].0@,
                            if 0 <= i < fields.len() {
                                fields[i].1@
                            } else {
                                JsonView::Null
                            },
                        ),
                ),
            ),
        }
    }
}

impl Clone for Json {
    #[verifier::loop_isolation(false)]
    fn clone(&self) -> (r: Json)
        ensures
            r@ == self@,
        decreases self,
    {
        match self {
            Json::Null => Json::Null,
            Json::Bool(b) => Json::Bool(*b),
            Json::Number(n) => Json::Number(n.clone()),
            Json::Text(s) => Json::Text(s.clone()),
            Json::Array(items) => {
                let mut out: Vec<Json> = Vec::new();
                let mut i: usize = 0;
                while i < items.len()
                    invariant
                        i <= items.len(),
                        out.len() == i,
                        forall|k: int| 0 <= k < i ==> out[k]@ == items[k]@,
                    decreases items.len() - i,
                {
                    out.push(items[i].clone());
                    i = i + 1;
                }
                let r = Json::Array(out);
                assert(r@->Array_0 =~= self@->Array_0);
                r
            },
            Json::Object(fields) => {
                let mut out: Vec<(String, Json)> = Vec::new();
                let mut i: usize = 0;
                while i < fields.len()
                    invariant
                        i <= fields.len(),
                        out.len() == i,
                        forall|k: int|
                            0 <= k < i ==> out[k].0@ == fields[k].0@ && out[k].1@ == fields[k].1@,
                    decreases fields.len() - i,
                {
                    out.push((fields[i].0.clone(), fields[i].1.clone()));
                    i = i + 1;
                }
                let r = Json::Object(out);
                assert(r@->Object_0 =~= self@->Object_0);
                r
            },
        }
    }
}

/// `serde_json::Value`, a decoded JSON value. Nothing inside it is visible
/// to the verifier; `value_tree` names what it holds.
#[verifier::external_type_specification]
#[verifier::external_body]
pub struct ExValue(serde_json::Value);

/// What a `serde_json::Value` holds: its variant and, level by level, what
/// is inside it, as `unpack` hands it out.
pub uninterp spec fn value_tree(v: serde_json::Value) -> JsonView;

/// What `serde_json::from_str` makes of a text: the document it decodes to,
/// or nothing where it reports an error.
pub uninterp spec fn decoded(text: Seq<char>) -> Option<JsonView>;

/// One level of a decoded value: its own kind and content, with nested
/// values still undecoded.
enum Shallow {
    Null,
    Bool(bool),
    Number(String),
    Text(String),
    Array(Vec<serde_json::Value>),
    Object(Vec<(String, serde_json::Value)>),
}

impl Shallow {
    /// The content of the value that this level was taken from.
    spec fn tree(&self) -> JsonView {
        match self {
            Shallow::Null => JsonView::Null,
            Shallow::Bool(b) => JsonView::Bool(*b),
            Shallow::Number(n) => JsonView::Number(n@),
            Shallow::Text(s) => JsonView::Text(s@),
            Shallow::Array(items) => JsonView::Array(
                Seq::new(items.len() as nat, |i: int| value_tree(items[i])),
            ),
            Shallow::Object(fields) => JsonView::Object(
                Seq::new(fields.len() as nat, |i: int| (fields[i].0@, value_tree(fields[i].1))),
            ),
        }
    }
}

/// Calls `serde_json::from_str` for a `serde_json::Value`. The result is
/// `Some` exactly where the call returns `Ok`, and holds what it returned.
#[verifier::external_body]
fn decode(text: &str) -> (r: Option<serde_json::Value>)
    ensures
        match r {
            Some(v) => decoded(text@) == Some(value_tree(v)),
            None => decoded(text@) is None,
        },
{
    serde_json::from_str::<serde_json::Value>(text).ok()
}

/// Takes a `serde_json::Value` apart by its variant. A number is carried as
/// the text that `serde_json::Number` displays, an object as its entries in
/// the order in which its map yields them.
#[verifier::external_body]
fn unpack(v: serde_json::Value) -> (r: Shallow)
    ensures
        r.tree() == value_tree(v),
{
    match v {
        serde_json::Value::Null => Shallow::Null,
        serde_json::Value::Bool(b) => Shallow::Bool(b),
        serde_json::Value::Number(n) => Shallow::Number(n.to_string()),
        serde_json::Value::String(s) => Shallow::Text(s),
        serde_json::Value::Array(items) => Shallow::Array(items),
        serde_json::Value::Object(map) => Shallow::Object(map.into_iter().collect()),
    }
}

/// Rebuilds a decoded value as a document of the library.
fn lift(v: serde_json::Value) -> (r: Json)
    ensures
        r@ == value_tree(v),
    decreases value_tree(v),
{
    match unpack(v) {
        Shallow::Null => Json::Null,
        Shallow::Bool(b) => Json::Bool(b),
        Shallow::Number(n) => Json::Number(n),
        Shallow::Text(s) => Json::Text(s),
        Shallow::Array(items) => {
            let ghost tree = value_tree(v);
            let mut out: Vec<Json> = Vec::new();
            for item in it: items
                invariant
                    tree == value_tree(v),
                    tree is Array,
                    it.seq().len() == tree->Array_0.len(),
                    forall|k: int| 0 <= k < it.seq().len() ==> value_tree(it.seq()[k]) == tree->Array_0[k],
                    out.len() == it.index(),
                    forall|k: int| 0 <= k < out.len() ==> out[k]@ == tree->Array_0[k],
            {
                proof {
                    let k = it.index() as int;
                    assert(value_tree(item) == tree->Array_0[k]);
                    vstd::seq::axiom_seq_index_decreases(tree->Array_0, k);
                }
                out.push(lift(item));
            }
            let r = Json::Array(out);
            assert(r@->Array_0 =~= tree->Array_0);
            r
        },
        Shallow::Object(fields) => {
            let ghost tree = value_tree(v);
            let mut out: Vec<(String, Json)> = Vec::new();
            for field in it: fields
                invariant
                    tree == value_tree(v),
                    tree is Object,
                    it.seq().len() == tree->Object_0.len(),
                    forall|k: int|
                        0 <= k < it.seq().len() ==> (it.seq()[k].0@, value_tree(it.seq()[k].1))
                            == tree->Object_0[k],
                    out.len() == it.index(),
                    forall|k: int|
                        0 <= k < out.len() ==> (out[k].0@, out[k].1@) == tree->Object_0[k],
            {
                let (key, value) = field;
                proof {
                    let k = it.index() as int;
                    assert((key@, value_tree(value)) == tree->Object_0[k]);
                    vstd::seq::axiom_seq_index_decreases(tree->Object_0, k);
                    assert(decreases_to!(tree => tree->Object_0));
                    assert(decreases_to!(tree->Object_0 => tree->Object_0[k]));
                    assert(decreases_to!(tree->Object_0[k] => tree->Object_0[k].1));
                    assert(tree->Object_0[k].1 == value_tree(value));
                }
                out.push((key, lift(value)));
            }
            let r = Json::Object(out);
            assert(r@ is Object);
            assert(r@->Object_0.len() == out.len());
            assert forall|k: int| 0 <= k < out.len() implies r@->Object_0[k] == tree->Object_0[k] by {
                assert((out[k].0@, out[k].1@) == tree->Object_0[k]);
            }
            assert(r@->Object_0 =~= tree->Object_0);
            r
        },
    }
}

impl Json {
    /// The value of the first member called `key`, where this is an object
    /// that has one.
    pub fn get(&self, key: &str) -> (r: Option<&Json>)
        ensures
            match r {
                Some(v) => self@.field(key@) == Some(v@),
                None => self@.field(key@) is None,
            },
    {
        match self {
            Json::Object(fields) => {
                let ghost members = self@->Object_0;
                let mut i: usize = 0;
                assert(members.skip(0) =~= members);
                while i < fields.len()
                    invariant
                        i <= fields.len(),
                        self@ == JsonView::Object(members),
                        members.len() == fields.len(),
                        forall|k: int|
                            0 <= k < fields.len() ==> members[k] == (fields[k].0@, fields[k].1@),
                        lookup(members, key@) == lookup(members.skip(i as int), key@),
                    decreases fields.len() - i,
                {
                    let ghost rest = members.skip(i as int);
                    assert(rest[0] == members[i as int]);
                    assert(members[i as int] == (fields[i as int].0@, fields[i as int].1@));
                    assert(rest.skip(1) =~= members.skip(i + 1));
                    if fields[i].0.as_str().eq(key) {
                        assert(rest[0].0 == key@);
                        assert(lookup(rest, key@) == Some(rest[0].1));
                        return Some(&fields[i].1);
                    }
                    assert(rest[0].0 != key@);
                    assert(lookup(rest, key@) == lookup(rest.skip(1), key@));
                    i = i + 1;
                }
                None
            },
            _ => None,
        }
    }

    /// The text, where this is one.
    pub fn as_text(&self) -> (r: Option<&String>)
        ensures
            match r {
                Some(s) => self@.text() == Some(s@),
                None => self@.text() is None,
            },
    {
        match self {
            Json::Text(s) => Some(s),
            _ => None,
        }
    }

    /// The items, where this is an array.
    pub fn as_array(&self) -> (r: Option<&Vec<Json>>)
        ensures
            match r {
                Some(v) => self@.items() is Some && self@.items()->0.len() == v.len() && forall|
                    k: int,
                | 0 <= k < v.len() ==> self@.items()->0[k] == #[trigger] v[k]@,
                None => self@.items() is None,
            },
    {
        match self {
            Json::Array(items) => Some(items),
            _ => None,
        }
    }

    /// Whether this is an object.
    pub fn is_object(&self) -> (r: bool)
        ensures
            r == (self@ is Object),
    {
        match self {
            Json::Object(_) => true,
            _ => false,
        }
    }

    /// The member `key` as a text, where it is there and is one.
    pub fn text_field(&self, key: &str) -> (r: Option<&String>)
        ensures
            match r {
                Some(s) => self@.text_field(key@) == Some(s@),
                None => self@.text_field(key@) is None,
            },
    {
        match self.get(key) {
            Some(v) => v.as_text(),
            None => None,
        }
    }

    /// This object with the member `key` set to `value`; anything but an
    /// object comes back as it is.
    pub fn with_field(self, key: String, value: Json) -> (r: Json)
        ensures
            r@ == self@.with_field(key@, value@),
    {
        match self {
            Json::Object(fields) => {
                let ghost members = self@->Object_0;
                let ghost target = updated(members, key@, value@);
                let mut fields = fields;
                let mut i: usize = 0;
                assert(members.skip(0) =~= members);
                assert(members.take(0) + updated(members, key@, value@) =~= target);
                while i < fields.len()
                    invariant
                        i <= fields.len(),
                        self@ == JsonView::Object(members),
                        target == updated(members, key@, value@),
                        members.len() == fields.len(),
                        forall|k: int|
                            0 <= k < fields.len() ==> members[k] == (fields[k].0@, fields[k].1@),
                        target == members.take(i as int) + updated(
                            members.skip(i as int),
                            key@,
                            value@,
                        ),
                    decreases fields.len() - i,
                {
                    let ghost rest = members.skip(i as int);
                    assert(rest[0] == members[i as int]);
                    assert(rest.skip(1) =~= members.skip(i + 1));
                    if fields[i].0 == key {
                        fields.set(i, (key, value));
                        let r = Json::Object(fields);
                        proof {
                            assert(r@->Object_0 =~= members.take(i as int) + (seq![(key@, value@)]
                                + rest.skip(1)));
                        }
                        return r;
                    }
                    assert(members.take(i + 1) =~= members.take(i as int) + seq![members[i as int]]);
                    assert(members.take(i as int) + (seq![rest[0]] + updated(rest.skip(1), key@, value@))
                        =~= members.take(i + 1) + updated(members.skip(i + 1), key@, value@));
                    i = i + 1;
                }
                fields.push((key, value));
                let r = Json::Object(fields);
                proof {
                    assert(members.skip(members.len() as int).len() == 0);
                    assert(members.take(members.len() as int) =~= members);
                    assert(r@->Object_0 =~= members + seq![(key@, value@)]);
                }
                r
            },
            other => other,
        }
    }

    /// Decodes a JSON text. `None` where the text is not one JSON value.
    pub fn parse(text: &str) -> (r: Option<Json>)
        ensures
            match r {
                Some(doc) => decoded(text@) == Some(doc@),
                None => decoded(text@) is None,
            },
    {
        match decode(text) {
            Some(v) => Some(lift(v)),
            None => None,
        }
    }
}

} // verus!
