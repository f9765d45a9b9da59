//! JSON documents as the service builds and reads them: task inputs, runner
//! payloads and results. Numbers are kept as the text that JSON writes for
//! them, so that no floating point enters the library.

use vstd::prelude::*;
use crate::text::{decimal, signed_decimal, u64_text, i64_text};

verus! {

/// A JSON value.
#[derive(Debug, PartialEq, Eq)]
pub enum JsonValue {
    Null,
    Bool(bool),
    /// A number, as its JSON text.
    Number(String),
    String(String),
    Array(Vec<JsonValue>),
    Object(Vec<JsonMember>),
}

/// One member of a JSON object.
#[derive(Debug, PartialEq, Eq)]
pub struct JsonMember {
    pub key: String,
    pub value: JsonValue,
}

/// The mathematical model of a JSON value.
pub enum JsonView {
    Null,
    Bool(bool),
    Number(Seq<char>),
    Text(Seq<char>),
    Array(Seq<JsonView>),
    Object(Seq<(Seq<char>, JsonView)>),
}

/// The model of a JSON value.
pub open spec fn json_view(v: JsonValue) -> JsonView
    decreases v,
{
    match v {
        JsonValue::Null => JsonView::Null,
        JsonValue::Bool(b) => JsonView::Bool(b),
        JsonValue::Number(n) => JsonView::Number(n@),
        JsonValue::String(s) => JsonView::Text(s@),
        JsonValue::Array(items) => JsonView::Array(items_view(items@)),
        JsonValue::Object(members) => JsonView::Object(members_view(members@)),
    }
}

/// The models of a sequence of values.
pub open spec fn items_view(items: Seq<JsonValue>) -> Seq<JsonView>
    decreases items,
{
    if items.len() == 0 {
        Seq::empty()
    } else {
        items_view(items.drop_last()).push(json_view(items.last()))
    }
}

/// The models of a sequence of object members, as key and value.
pub open spec fn members_view(members: Seq<JsonMember>) -> Seq<(Seq<char>, JsonView)>
    decreases members,
{
    if members.len() == 0 {
        Seq::empty()
    } else {
        members_view(members.drop_last()).push(
            (members.last().key@, json_view(members.last().value)),
        )
    }
}

impl View for JsonValue {
    type V = JsonView;

    open spec fn view(&self) -> JsonView {
        json_view(*self)
    }
}

/// The value under `key` in the member list `members`: the first member
/// with that key.
pub open spec fn lookup(members: Seq<(Seq<char>, JsonView)>, key: Seq<char>) -> Option<JsonView>
    decreases members.len(),
{
    if members.len() == 0 {
        None
    } else if members[0].0 == key {
        Some(members[0].1)
    } else {
        lookup(members.drop_first(), key)
    }
}

/// The value under `key` when `v` is an object.
pub open spec fn field(v: JsonView, key: Seq<char>) -> Option<JsonView> {
    match v {
        JsonView::Object(members) => lookup(members, key),
        _ => None,
    }
}

/// The JSON model of an optional text: the text, or null.
pub open spec fn opt_text(s: Option<Seq<char>>) -> JsonView {
    match s {
        Some(t) => JsonView::Text(t),
        None => JsonView::Null,
    }
}

/// The text of an optional string.
pub open spec fn opt_string_view(s: Option<String>) -> Option<Seq<char>> {
    match s {
        Some(t) => Some(t@),
        None => None,
    }
}

/// The model of an optional JSON value.
pub open spec fn opt_json_view(v: Option<JsonValue>) -> Option<JsonView> {
    match v {
        Some(x) => Some(x@),
        None => None,
    }
}

/// The JSON model of an optional unsigned integer: its decimal number, or null.
pub open spec fn opt_unsigned(n: Option<u64>) -> JsonView {
    match n {
        Some(k) => JsonView::Number(decimal(k as nat)),
        None => JsonView::Null,
    }
}

/// The JSON model of an optional signed integer: its decimal number, or null.
pub open spec fn opt_signed(n: Option<i32>) -> JsonView {
    match n {
        Some(k) => JsonView::Number(signed_decimal(k as int)),
        None => JsonView::Null,
    }
}

/// The text of an optional `&str`.
pub open spec fn opt_str_view(s: Option<&str>) -> Option<Seq<char>> {
    match s {
        Some(t) => Some(t@),
        None => None,
    }
}

/// The models of a sequence of values, one by one.
pub(crate) proof fn lemma_items_view_len(items: Seq<JsonValue>)
    ensures
        items_view(items).len() == items.len(),
        forall|i: int| 0 <= i < items.len() ==> #[trigger] items_view(items)[i] == json_view(items[i]),
    decreases items.len(),
{
    if items.len() > 0 {
        lemma_items_view_len(items.drop_last());
        assert forall|i: int| 0 <= i < items.len() implies #[trigger] items_view(items)[i] == json_view(items[i]) by {
            if i < items.len() - 1 {
                assert(items.drop_last()[i] == items[i]);
            }
        }
    }
}

/// The models of a sequence of members, one by one.
pub(crate) proof fn lemma_members_view_len(members: Seq<JsonMember>)
    ensures
        members_view(members).len() == members.len(),
        forall|i: int| 0 <= i < members.len() ==> #[trigger] members_view(members)[i] == (members[i].key@, json_view(members[i].value)),
    decreases members.len(),
{
    if members.len() > 0 {
        lemma_members_view_len(members.drop_last());
        assert forall|i: int| 0 <= i < members.len() implies #[trigger] members_view(members)[i] == (members[i].key@, json_view(members[i].value)) by {
            if i < members.len() - 1 {
                assert(members.drop_last()[i] == members[i]);
            }
        }
    }
}

/// A lookup finds the first member with the key.
pub(crate) proof fn lemma_lookup_index(members: Seq<(Seq<char>, JsonView)>, key: Seq<char>, i: int)
    requires
        0 <= i < members.len(),
        members[i].0 == key,
        forall|j: int| 0 <= j < i ==> members[j].0 != key,
    ensures
        lookup(members, key) == Some(members[i].1),
    decreases i,
{
    if i > 0 {
        assert(members[0].0 != key);
        lemma_lookup_index(members.drop_first(), key, i - 1);
    }
}

/// A lookup of a key no member has finds nothing.
proof fn lemma_lookup_absent(members: Seq<(Seq<char>, JsonView)>, key: Seq<char>)
    requires
        forall|j: int| 0 <= j < members.len() ==> members[j].0 != key,
    ensures
        lookup(members, key) == None::<JsonView>,
    decreases members.len(),
{
    if members.len() > 0 {
        assert(members[0].0 != key);
        lemma_lookup_absent(members.drop_first(), key);
    }
}

impl JsonValue {
    /// The value under `key` when this is an object holding it.
    pub fn get(&self, key: &str) -> (r: Option<&JsonValue>)
        ensures
            r is Some <==> field(self@, key@) is Some,
            r matches Some(v) ==> Some(v@) == field(self@, key@),
    {
        match self {
            JsonValue::Object(members) => {
                proof {
                    lemma_members_view_len(members@);
                    assert(self@ == JsonView::Object(members_view(members@)));
                }
                let k = key.to_string();
                let mut i: usize = 0;
                while i < members.len()
                    invariant
                        i <= members@.len(),
                        k@ == key@,
                        self@ == JsonView::Object(members_view(members@)),
                        members_view(members@).len() == members@.len(),
                        forall|j: int| 0 <= j < members@.len() ==> #[trigger] members_view(members@)[j] == (members@[j].key@, json_view(members@[j].value)),
                        forall|j: int| 0 <= j < i ==> members_view(members@)[j].0 != key@,
                    decreases members@.len() - i,
                {
                    if members[i].key == k {
                        proof {
                            lemma_lookup_index(members_view(members@), key@, i as int);
                        }
                        return Some(&members[i].value);
                    }
                    i = i + 1;
                }
                proof {
                    lemma_lookup_absent(members_view(members@), key@);
                }
                None
            },
            _ => None,
        }
    }

    /// The text when this is a string.
    pub fn as_str(&self) -> (r: Option<&str>)
        ensures
            match self@ {
                JsonView::Text(t) => r is Some && r->0@ == t,
                _ => r is None,
            },
    {
        match self {
            JsonValue::String(s) => Some(s.as_str()),
            _ => None,
        }
    }

    /// The items when this is an array.
    pub fn as_array(&self) -> (r: Option<&Vec<JsonValue>>)
        ensures
            match self@ {
                JsonView::Array(items) => r is Some && items_view(r->0@) == items,
                _ => r is None,
            },
    {
        match self {
            JsonValue::Array(items) => Some(items),
            _ => None,
        }
    }

    /// A copy of this value.
    pub fn deep_clone(&self) -> (r: JsonValue)
        ensures
            r@ == self@,
        decreases self,
    {
        match self {
            JsonValue::Null => JsonValue::Null,
            JsonValue::Bool(b) => JsonValue::Bool(*b),
            JsonValue::Number(n) => JsonValue::Number(n.clone()),
            JsonValue::String(s) => JsonValue::String(s.clone()),
            JsonValue::Array(items) => {
                let mut out: Vec<JsonValue> = Vec::new();
                let mut i: usize = 0;
                while i < items.len()
                    invariant
                        i <= items@.len(),
                        out@.len() == i,
                        *self == JsonValue::Array(*items),
                        forall|j: int| 0 <= j < i ==> json_view(#[trigger] out@[j]) == json_view(items@[j]),
                    decreases items@.len() - i,
                {
                    proof {
                        assert(decreases_to!(*self => self->Array_0));
                        assert(decreases_to!(self->Array_0 => self->Array_0@));
                        assert(decreases_to!(self->Array_0@ => self->Array_0@[i as int]));
                    }
                    let c = items[i].deep_clone();
                    out.push(c);
                    i = i + 1;
                }
                proof {
                    lemma_items_view_len(items@);
                    lemma_items_view_len(out@);
                    assert(items_view(out@) =~= items_view(items@));
                }
                JsonValue::Array(out)
            },
            JsonValue::Object(members) => {
                let mut out: Vec<JsonMember> = Vec::new();
                let mut i: usize = 0;
                while i < members.len()
                    invariant
                        i <= members@.len(),
                        out@.len() == i,
                        *self == JsonValue::Object(*members),
                        forall|j: int| 0 <= j < i ==> (#[trigger] out@[j]).key@ == members@[j].key@
                            && json_view(out@[j].value) == json_view(members@[j].value),
                    decreases members@.len() - i,
                {
                    proof {
                        assert(decreases_to!(*self => self->Object_0));
                        assert(decreases_to!(self->Object_0 => self->Object_0@));
                        assert(decreases_to!(self->Object_0@ => self->Object_0@[i as int]));
                        assert(decreases_to!(self->Object_0@[i as int] => self->Object_0@[i as int].value));
                    }
                    let v = members[i].value.deep_clone();
                    out.push(JsonMember { key: members[i].key.clone(), value: v });
                    i = i + 1;
                }
                proof {
                    lemma_members_view_len(members@);
                    lemma_members_view_len(out@);
                    assert(members_view(out@) =~= members_view(members@));
                }
                JsonValue::Object(out)
            },
        }
    }
}

/// A string value.
pub fn text(s: &str) -> (v: JsonValue)
    ensures
        v@ == JsonView::Text(s@),
{
    JsonValue::String(s.to_string())
}

/// A string value, or null.
pub fn opt_text_value(s: &Option<String>) -> (v: JsonValue)
    ensures
        v@ == opt_text(opt_string_view(*s)),
{
    match s {
        Some(t) => JsonValue::String(t.clone()),
        None => JsonValue::Null,
    }
}

/// A string value for an optional `&str`, or null.
pub fn opt_str_value(s: Option<&str>) -> (v: JsonValue)
    ensures
        v@ == opt_text(opt_str_view(s)),
{
    match s {
        Some(t) => JsonValue::String(t.to_string()),
        None => JsonValue::Null,
    }
}

/// A string value taking an optional string, or null.
pub fn opt_string_into(s: Option<String>) -> (v: JsonValue)
    ensures
        v@ == opt_text(opt_string_view(s)),
{
    match s {
        Some(t) => JsonValue::String(t),
        None => JsonValue::Null,
    }
}

/// A number value for an optional unsigned integer, or null.
pub fn opt_unsigned_value(n: Option<u64>) -> (v: JsonValue)
    ensures
        v@ == opt_unsigned(n),
{
    match n {
        Some(k) => unsigned_number(k),
        None => JsonValue::Null,
    }
}

/// A number value for an optional signed integer, or null.
pub fn opt_signed_value(n: Option<i32>) -> (v: JsonValue)
    ensures
        v@ == opt_signed(n),
{
    match n {
        Some(k) => signed_number(k as i64),
        None => JsonValue::Null,
    }
}

/// A number value for `n`.
pub fn unsigned_number(n: u64) -> (v: JsonValue)
    ensures
        v@ == JsonView::Number(decimal(n as nat)),
{
    JsonValue::Number(u64_text(n))
}

/// A number value for `n`.
pub fn signed_number(n: i64) -> (v: JsonValue)
    ensures
        v@ == JsonView::Number(signed_decimal(n as int)),
{
    JsonValue::Number(i64_text(n))
}

/// A member of an object.
pub fn member(key: &str, value: JsonValue) -> (m: JsonMember)
    ensures
        m.key@ == key@,
        m.value == value,
{
    JsonMember { key: key.to_string(), value }
}

/// Whether no two members share a key, as in a JSON object's map.
pub open spec fn keys_unique(members: Seq<(Seq<char>, JsonView)>) -> bool {
    forall|i: int, j: int| 0 <= i < members.len() && 0 <= j < members.len() && i != j
        ==> (#[trigger] members[i]).0 != (#[trigger] members[j]).0
}

/// An object holding `members` in order; no two of them may share a key.
pub fn object(members: Vec<JsonMember>) -> (v: JsonValue)
    requires
        keys_unique(members_view(members@)),
    ensures
        v@ == JsonView::Object(members_view(members@)),
{
    JsonValue::Object(members)
}

/// An array holding `items` in order.
pub fn array(items: Vec<JsonValue>) -> (v: JsonValue)
    ensures
        v@ == JsonView::Array(items_view(items@)),
{
    JsonValue::Array(items)
}

} // verus!
