//! JSON values as plain data, and their text form.
//!
//! `Json` holds what a parsed document holds. Reading and writing JSON text is
//! left to `serde_json`; everything else here is ordinary data handling.

use vstd::prelude::*;

verus! {

/// A JSON value.
///
/// A number is held by its literal, the text that stands for it in a
/// document: `15`, `-3`, `30.0`, `1e-7`. An object keeps its members as a
/// list; where a key occurs twice, the later member is the one that counts.
#[derive(Debug, PartialEq, Eq)]
pub enum Json {
    Null,
    Bool(bool),
    Number(String),
    Text(String),
    Array(Vec<Json>),
    Object(Vec<Member>),
}

/// One member of an object: a key and its value.
#[derive(Debug, PartialEq, Eq)]
pub struct Member {
    pub key: String,
    pub value: Json,
}

/// The mathematical value of a `Json`.
pub enum JsonValue {
    Null,
    Bool(bool),
    Number(Seq<char>),
    Text(Seq<char>),
    Array(Seq<JsonValue>),
    Object(Seq<(Seq<char>, JsonValue)>),
}

/// The members of an object, by their views.
pub type Members = Seq<(Seq<char>, JsonValue)>;

/// The value that `json` holds.
pub open spec fn value_of_json(json: Json) -> JsonValue
    decreases json,
{
    match json {
        Json::Null => JsonValue::Null,
        Json::Bool(b) => JsonValue::Bool(b),
        Json::Number(literal) => JsonValue::Number(literal@),
        Json::Text(s) => JsonValue::Text(s@),
        Json::Array(items) => JsonValue::Array(
            Seq::new(
                items@.len(),
                |i: int|
                    if 0 <= i < items@.len() {
                        value_of_json(items@[i])
                    } else {
                        JsonValue::Null
                    },
            ),
        ),
        Json::Object(members) => JsonValue::Object(
            Seq::new(
                members@.len(),
                |i: int|
                    if 0 <= i < members@.len() {
                        (members@[i].key@, value_of_json(members@[i].value))
                    } else {
                        (Seq::empty(), JsonValue::Null)
                    },
            ),
        ),
    }
}

impl View for Json {
    type V = JsonValue;

    open spec fn view(&self) -> JsonValue {
        value_of_json(*self)
    }
}

/// The views of a list of values.
pub open spec fn items_view(items: Seq<Json>) -> Seq<JsonValue> {
    Seq::new(items.len(), |i: int| items[i]@)
}

/// The views of a list of members.
pub open spec fn members_view(members: Seq<Member>) -> Members {
    Seq::new(members.len(), |i: int| (members[i].key@, members[i].value@))
}

/// The view of an array is the list of its items' views.
pub proof fn lemma_array_view(items: Vec<Json>)
    ensures
        Json::Array(items)@ == JsonValue::Array(items_view(items@)),
{
    assert(Json::Array(items)@->Array_0 =~= items_view(items@));
}

/// The view of an object is the list of its members' views.
pub proof fn lemma_object_view(members: Vec<Member>)
    ensures
        Json::Object(members)@ == JsonValue::Object(members_view(members@)),
{
    assert(Json::Object(members)@->Object_0 =~= members_view(members@));
}

/// The value of the member `key`: that of the last member with this key.
pub open spec fn member(members: Members, key: Seq<char>) -> Option<JsonValue>
    decreases members.len(),
{
    if members.len() == 0 {
        None
    } else if members.last().0 == key {
        Some(members.last().1)
    } else {
        member(members.drop_last(), key)
    }
}

/// The value of the member `key` where there is one other than `null`.
pub open spec fn present(members: Members, key: Seq<char>) -> Option<JsonValue> {
    match member(members, key) {
        Some(JsonValue::Null) => None,
        other => other,
    }
}

/// Looking a key up after one more member was added.
pub broadcast proof fn lemma_member_push(
    members: Members,
    key: Seq<char>,
    value: JsonValue,
    wanted: Seq<char>,
)
    ensures
        #[trigger] member(members.push((key, value)), wanted) == if key == wanted {
            Some(value)
        } else {
            member(members, wanted)
        },
{
    assert(members.push((key, value)).drop_last() =~= members);
}

/// A member that stands in the list is found under its key.
pub proof fn lemma_member_of_entry(members: Members, i: int)
    requires
        0 <= i < members.len(),
    ensures
        member(members, members[i].0) is Some,
    decreases members.len(),
{
    if i < members.len() - 1 && members.last().0 != members[i].0 {
        lemma_member_of_entry(members.drop_last(), i);
    }
}

/// The key of the first member whose key is one of those `wanted`.
pub open spec fn first_key(members: Members, wanted: spec_fn(Seq<char>) -> bool) -> Option<
    Seq<char>,
>
    decreases members.len(),
{
    if members.len() == 0 {
        None
    } else if wanted(members[0].0) {
        Some(members[0].0)
    } else {
        first_key(members.drop_first(), wanted)
    }
}

/// The first wanted key is wanted and is found; there is none exactly where
/// no member has a wanted key.
pub proof fn lemma_first_key(members: Members, wanted: spec_fn(Seq<char>) -> bool)
    ensures
        first_key(members, wanted) matches Some(key) ==> wanted(key) && member(members, key)
            is Some,
        first_key(members, wanted) is None <==> forall|i: int|
            0 <= i < members.len() ==> !wanted((#[trigger] members[i]).0),
    decreases members.len(),
{
    if members.len() > 0 {
        let rest = members.drop_first();
        lemma_first_key(rest, wanted);
        if wanted(members[0].0) {
            lemma_member_of_entry(members, 0);
        } else {
            if first_key(rest, wanted) is Some {
                let key = first_key(rest, wanted)->Some_0;
                if forall|i: int| 0 <= i < members.len() ==> !wanted((#[trigger] members[i]).0) {
                    assert forall|i: int| 0 <= i < rest.len() implies !wanted(
                        (#[trigger] rest[i]).0,
                    ) by {}
                }
                lemma_first_key_found(rest, wanted);
                let i = choose|i: int| 0 <= i < rest.len() && rest[i].0 == key;
                lemma_member_of_entry(members, i + 1);
            } else {
                assert forall|i: int| 0 <= i < members.len() implies !wanted(
                    (#[trigger] members[i]).0,
                ) by {
                    if i > 0 {
                        assert(rest[i - 1] == members[i]);
                    }
                }
            }
        }
    }
}

/// The first wanted key is the key of a member.
pub proof fn lemma_first_key_found(members: Members, wanted: spec_fn(Seq<char>) -> bool)
    requires
        first_key(members, wanted) is Some,
    ensures
        exists|i: int|
            0 <= i < members.len() && (#[trigger] members[i]).0 == first_key(
                members,
                wanted,
            )->Some_0,
    decreases members.len(),
{
    if !wanted(members[0].0) {
        let rest = members.drop_first();
        lemma_first_key_found(rest, wanted);
        let i = choose|i: int|
            0 <= i < rest.len() && (#[trigger] rest[i]).0 == first_key(rest, wanted)->Some_0;
    }
}

/// Looking for the first wanted key after one more member was added.
pub proof fn lemma_first_key_push(
    members: Members,
    key: Seq<char>,
    value: JsonValue,
    wanted: spec_fn(Seq<char>) -> bool,
)
    ensures
        first_key(members.push((key, value)), wanted) == match first_key(members, wanted) {
            Some(k) => Some(k),
            None => if wanted(key) {
                Some(key)
            } else {
                None
            },
        },
    decreases members.len(),
{
    let more = members.push((key, value));
    if members.len() == 0 {
        assert(first_key(more.drop_first(), wanted) is None);
    } else {
        assert(more.drop_first() =~= members.drop_first().push((key, value)));
        if !wanted(members[0].0) {
            lemma_first_key_push(members.drop_first(), key, value, wanted);
        }
    }
}

/// The last member of `members` whose key is `key`.
pub fn find_member<'a>(members: &'a Vec<Member>, key: &str) -> (found: Option<&'a Json>)
    ensures
        match found {
            Some(value) => member(members_view(members@), key@) == Some(value@),
            None => member(members_view(members@), key@) is None,
        },
{
    let ghost all = members_view(members@);
    let mut i: usize = members.len();
    assert(all.take(i as int) =~= all);
    while i > 0
        invariant
            i <= members@.len(),
            all == members_view(members@),
            member(all, key@) == member(all.take(i as int), key@),
        decreases i,
    {
        i = i - 1;
        assert(all.take(i + 1).drop_last() =~= all.take(i as int));
        if members[i].key.as_str().eq(key) {
            return Some(&members[i].value);
        }
    }
    None
}

impl Json {
    /// The member `key` of an object; `None` for other values and where the
    /// object has no such member.
    pub fn get(&self, key: &str) -> (found: Option<&Json>)
        ensures
            match found {
                Some(value) => self@ is Object && member(self@->Object_0, key@) == Some(value@),
                None => !(self@ is Object) || member(self@->Object_0, key@) is None,
            },
    {
        match self {
            Json::Object(members) => {
                proof {
                    lemma_object_view(*members);
                }
                find_member(members, key)
            },
            _ => None,
        }
    }

    /// A copy of this value.
    pub fn duplicate(&self) -> (copy: Json)
        ensures
            copy@ == self@,
        decreases self,
    {
        match self {
            Json::Null => Json::Null,
            Json::Bool(b) => Json::Bool(*b),
            Json::Number(literal) => Json::Number(literal.clone()),
            Json::Text(s) => Json::Text(s.clone()),
            Json::Array(items) => {
                let mut out: Vec<Json> = Vec::new();
                let mut i: usize = 0;
                while i < items.len()
                    invariant
                        *self == Json::Array(*items),
                        i <= items@.len(),
                        out@.len() == i,
                        forall|k: int| 0 <= k < i ==> (#[trigger] out@[k])@ == items@[k]@,
                    decreases items@.len() - i,
                {
                    proof {
                        assert(decreases_to!(self => self->Array_0));
                    }
                    let item = items[i].duplicate();
                    out.push(item);
                    i = i + 1;
                }
                proof {
                    assert(items_view(out@) =~= items_view(items@));
                    lemma_array_view(*items);
                    lemma_array_view(out);
                }
                Json::Array(out)
            },
            Json::Object(members) => {
                let mut out: Vec<Member> = Vec::new();
                let mut i: usize = 0;
                while i < members.len()
                    invariant
                        *self == Json::Object(*members),
                        i <= members@.len(),
                        out@.len() == i,
                        forall|k: int|
                            0 <= k < i ==> (#[trigger] out@[k]).key@ == members@[k].key@
                                && out@[k].value@ == members@[k].value@,
                    decreases members@.len() - i,
                {
                    proof {
                        assert(decreases_to!(self => self->Object_0));
                    }
                    let value = members[i].value.duplicate();
                    out.push(Member { key: members[i].key.clone(), value });
                    i = i + 1;
                }
                proof {
                    assert(members_view(out@) =~= members_view(members@));
                    lemma_object_view(*members);
                    lemma_object_view(out);
                }
                Json::Object(out)
            },
        }
    }

    /// Reads JSON text. `None` where the text is not one JSON value.
    pub fn from_text(text: &str) -> (parsed: Option<Json>)
        ensures
            parsed is Some == json_of_text(text@) is Some,
            parsed is Some ==> parsed->Some_0@ == json_of_text(text@)->Some_0,
    {
        parse_text(text)
    }

    /// Writes this value as JSON text.
    pub fn to_text(&self) -> (text: String)
        ensures
            text@ == text_of_json(self@),
    {
        render_text(self)
    }
}

impl Clone for Json {
    fn clone(&self) -> (copy: Json)
        ensures
            copy@ == self@,
    {
        self.duplicate()
    }
}

impl Clone for Member {
    fn clone(&self) -> (copy: Member)
        ensures
            copy.key@ == self.key@,
            copy.value@ == self.value@,
    {
        Member { key: self.key.clone(), value: self.value.duplicate() }
    }
}

/// The value that `serde_json` reads from `text`, if it reads one.
pub uninterp spec fn json_of_text(text: Seq<char>) -> Option<JsonValue>;

/// The compact text that `serde_json` writes for `value`.
pub uninterp spec fn text_of_json(value: JsonValue) -> Seq<char>;

/// `serde_json::Value`, the parsed form that `serde_json` reads and writes.
#[verifier::external_type_specification]
#[verifier::external_body]
pub struct ExSerdeValue(serde_json::Value);

/// Takes a `serde_json::Value` apart into a `Json`, kind by kind: a number
/// comes as the text that `Number`'s `Display` writes for it, and an object's
/// members come in the order in which its `Map` holds them, which is that of
/// the document. Nothing is claimed of the result here; `parse_text` names
/// what comes of it.
#[verifier::external_body]
fn json_of(value: serde_json::Value) -> Json {
    match value {
        serde_json::Value::Null => Json::Null,
        serde_json::Value::Bool(b) => Json::Bool(b),
        serde_json::Value::Number(n) => Json::Number(n.to_string()),
        serde_json::Value::String(s) => Json::Text(s),
        serde_json::Value::Array(items) => Json::Array(items.into_iter().map(json_of).collect()),
        serde_json::Value::Object(map) => Json::Object(
            map.into_iter().map(|(key, v)| Member { key, value: json_of(v) }).collect(),
        ),
    }
}

/// Puts a `serde_json::Value` together from a `Json`, kind by kind.
/// Collecting members into the `Map` keeps their order and, of two members
/// with one key, the later value; a number is read from its literal by
/// `serde_json::from_str`, and a literal that is not taken for a number
/// becomes `null`. Nothing is claimed of the result here; `render_text`
/// names what comes of it.
#[verifier::external_body]
fn value_of(json: &Json) -> serde_json::Value {
    match json {
        Json::Null => serde_json::Value::Null,
        Json::Bool(b) => serde_json::Value::Bool(*b),
        Json::Number(literal) => serde_json::from_str::<serde_json::Number>(literal).map_or(
            serde_json::Value::Null,
            serde_json::Value::Number,
        ),
        Json::Text(s) => serde_json::Value::String(s.clone()),
        Json::Array(items) => serde_json::Value::Array(items.iter().map(value_of).collect()),
        Json::Object(members) => serde_json::Value::Object(
            members.iter().map(|m| (m.key.clone(), value_of(&m.value))).collect(),
        ),
    }
}

/// `serde_json::from_str` at `serde_json::Value`: the value read from `text`.
/// The contract only names the result: the same text gives the same value.
#[verifier::external_body]
fn parse_text(text: &str) -> (parsed: Option<Json>)
    ensures
        parsed is Some == json_of_text(text@) is Some,
        parsed is Some ==> parsed->Some_0@ == json_of_text(text@)->Some_0,
{
    serde_json::from_str::<serde_json::Value>(text).ok().map(json_of)
}

/// `serde_json::to_string` on a `serde_json::Value`: the compact text of
/// `json`. The contract only names the result.
#[verifier::external_body]
fn render_text(json: &Json) -> (text: String)
    ensures
        text@ == text_of_json(json@),
{
    serde_json::to_string(&value_of(json)).unwrap_or_default()
}

} // verus!
