//! JSON values as the library reads them, and the parser that produces them.
use vstd::prelude::*;
use vstd::string::*;
use crate::request::{push_quoted, quoted};
use crate::text::str_eq;

verus! {

/// The value type of `serde_json`: what its parser returns. The library
/// looks into it nowhere but where it copies it into a [`Json`].
#[verifier::external_type_specification]
#[verifier::external_body]
pub struct ExValue(serde_json::Value);

/// The error type of `serde_json`. The library notes only that there is an
/// error and reads nothing from it.
#[verifier::external_type_specification]
#[verifier::external_body]
pub struct ExError(serde_json::Error);

/// One member of a JSON object.
#[derive(Debug, PartialEq, Eq)]
pub struct Member {
    pub key: String,
    pub value: Json,
}

/// A JSON value. A number is kept as the numeral that stands for it.
#[derive(Debug, PartialEq, Eq)]
pub enum Json {
    Null,
    Bool(bool),
    Number(String),
    Text(String),
    Array(Vec<Json>),
    Object(Vec<Member>),
}

/// The value that `serde_json::from_str` reads from a text, in the form of
/// [`Json`]; `None` where it reports an error.
pub uninterp spec fn json_of_text(text: Seq<char>) -> Option<Json>;

/// What a `serde_json::Value` holds, in the form of [`Json`]: each variant
/// as the variant of the same kind, a number as the text that its `Display`
/// writes, the members of an object in the order in which the map hands
/// them out.
pub uninterp spec fn json_of_value(value: serde_json::Value) -> Json;

/// Calls `serde_json::from_str` for a `serde_json::Value`. The contract
/// claims only that the outcome is a function of the text: the same text
/// always fails, or always gives a value that holds the same JSON.
#[verifier::external_body]
fn value_from_text(text: &str) -> (r: Result<serde_json::Value, serde_json::Error>)
    ensures
        match r {
            Ok(value) => json_of_text(text@) == Some(json_of_value(value)),
            Err(_) => json_of_text(text@) is None,
        },
{
    serde_json::from_str::<serde_json::Value>(text)
}

/// Copies a `serde_json::Value` into a [`Json`], variant by variant. The
/// contract gives the result its name and claims nothing else.
#[verifier::external_body]
fn json_from_value(value: &serde_json::Value) -> (json: Json)
    ensures
        json == json_of_value(*value),
{
    match value {
        serde_json::Value::Null => Json::Null,
        serde_json::Value::Bool(b) => Json::Bool(*b),
        serde_json::Value::Number(n) => Json::Number(n.to_string()),
        serde_json::Value::String(s) => Json::Text(s.clone()),
        serde_json::Value::Array(items) => Json::Array(items.iter().map(json_from_value).collect()),
        serde_json::Value::Object(map) => Json::Object(
            map.iter().map(|(k, v)| Member { key: k.clone(), value: json_from_value(v) }).collect(),
        ),
    }
}

/// The value of the first member of `members` whose key is `key`.
pub open spec fn find_member(members: Seq<Member>, key: Seq<char>) -> Option<Json>
    decreases members.len(),
{
    if members.len() == 0 {
        None
    } else if members[0].key@ == key {
        Some(members[0].value)
    } else {
        find_member(members.drop_first(), key)
    }
}

/// The texts of the first `count` of `items`, with commas between them.
pub open spec fn items_text(items: Seq<Json>, count: nat) -> Seq<char>
    decreases items, count,
{
    if count == 0 || count > items.len() {
        Seq::empty()
    } else if count == 1 {
        items[0].text()
    } else {
        items_text(items, (count - 1) as nat) + seq![','] + items[count - 1].text()
    }
}

/// The texts of the first `count` of `members`, each as its key, a colon
/// and its value, with commas between them.
pub open spec fn members_text(members: Seq<Member>, count: nat) -> Seq<char>
    decreases members, count,
{
    if count == 0 || count > members.len() {
        Seq::empty()
    } else if count == 1 {
        quoted(members[0].key@) + seq![':'] + members[0].value.text()
    } else {
        members_text(members, (count - 1) as nat) + seq![','] + quoted(members[count - 1].key@)
            + seq![':'] + members[count - 1].value.text()
    }
}

impl Json {
    /// The value as JSON text, without white space.
    pub open spec fn text(self) -> Seq<char>
        decreases self,
    {
        match self {
            Json::Null => "null"@,
            Json::Bool(b) => if b {
                "true"@
            } else {
                "false"@
            },
            Json::Number(numeral) => numeral@,
            Json::Text(text) => quoted(text@),
            Json::Array(items) => seq!['['] + items_text(items@, items@.len()) + seq![']'],
            Json::Object(members) => seq!['{'] + members_text(members@, members@.len()) + seq![
                '}',
            ],
        }
    }

    /// Appends the value as JSON text.
    pub fn push_to(&self, out: &mut String)
        ensures
            final(out)@ == old(out)@ + self.text(),
        decreases self,
    {
        match self {
            Json::Null => {
                out.append("null");
            },
            Json::Bool(b) => {
                if *b {
                    out.append("true");
                } else {
                    out.append("false");
                }
            },
            Json::Number(numeral) => {
                out.append(numeral.as_str());
            },
            Json::Text(text) => {
                push_quoted(out, text.as_str());
            },
            Json::Array(items) => {
                out.push('[');
                let ghost start = out@;
                let mut i: usize = 0;
                while i < items.len()
                    invariant
                        i <= items.len(),
                        *self == Json::Array(*items),
                        out@ == start + items_text(items@, i as nat),
                    decreases items.len() - i,
                {
                    if i > 0 {
                        out.push(',');
                    }
                    assert(decreases_to!(*self => self->Array_0));
                    assert(decreases_to!(self->Array_0 => self->Array_0[i as int]));
                    items[i].push_to(out);
                    i += 1;
                    assert(out@ =~= start + items_text(items@, i as nat));
                }
                out.push(']');
                assert(out@ =~= old(out)@ + self.text());
            },
            Json::Object(members) => {
                out.push('{');
                let ghost start = out@;
                let mut i: usize = 0;
                while i < members.len()
                    invariant
                        i <= members.len(),
                        *self == Json::Object(*members),
                        out@ == start + members_text(members@, i as nat),
                    decreases members.len() - i,
                {
                    if i > 0 {
                        out.push(',');
                    }
                    push_quoted(out, members[i].key.as_str());
                    out.push(':');
                    assert(decreases_to!(*self => self->Object_0));
                    assert(decreases_to!(self->Object_0 => self->Object_0[i as int]));
                    assert(decreases_to!(self->Object_0[i as int] => self->Object_0[i as int].value));
                    members[i].value.push_to(out);
                    i += 1;
                    assert(out@ =~= start + members_text(members@, i as nat));
                }
                out.push('}');
                assert(out@ =~= old(out)@ + self.text());
            },
        }
    }

    /// The value as JSON text, without white space.
    pub fn to_text(&self) -> (r: String)
        ensures
            r@ == self.text(),
    {
        let mut out = String::new();
        self.push_to(&mut out);
        out
    }

    /// The member `key` of an object; `None` where `self` is no object or has
    /// no such member.
    pub open spec fn member(self, key: Seq<char>) -> Option<Json> {
        match self {
            Json::Object(members) => find_member(members@, key),
            _ => None,
        }
    }

    /// Reads a JSON text. `None` where the text is not well-formed JSON.
    pub fn parse(text: &str) -> (r: Option<Json>)
        ensures
            r == json_of_text(text@),
    {
        match value_from_text(text) {
            Ok(value) => Some(json_from_value(&value)),
            Err(_) => None,
        }
    }

    /// Looks up the member `key` of an object.
    pub fn get(&self, key: &str) -> (r: Option<&Json>)
        ensures
            r == match self.member(key@) {
                Some(value) => Some(&value),
                None => None,
            },
    {
        match self {
            Json::Object(members) => {
                let mut i: usize = 0;
                assert(members@.skip(0) =~= members@);
                while i < members.len()
                    invariant
                        i <= members.len(),
                        self.member(key@) == find_member(members@, key@),
                        find_member(members@, key@) == find_member(members@.skip(i as int), key@),
                    decreases members.len() - i,
                {
                    assert(members@.skip(i as int)[0] == members@[i as int]);
                    if str_eq(members[i].key.as_str(), key) {
                        return Some(&members[i].value);
                    }
                    assert(members@.skip(i as int).drop_first() =~= members@.skip(i + 1));
                    i += 1;
                }
                None
            },
            _ => None,
        }
    }
}

} // verus!
