//! JSON documents as plain values.
//!
//! The text of a document is read by `serde_json`; the tree that it builds is
//! then copied into a [`Json`], which the decoders of this crate work on.

use crate::text::same_text;
use serde_json::Value;
use vstd::prelude::*;

verus! {

/// `serde_json::Value`, the tree that the parser builds. What the library
/// knows of one is its [`value_model`].
#[verifier::external_type_specification]
#[verifier::external_body]
pub struct ExValue(serde_json::Value);

/// Why a text is no JSON document, in the parser's words.
#[derive(Debug)]
pub struct SyntaxError {
    pub message: String,
}

/// One member of a JSON object.
#[derive(Debug)]
pub struct Member {
    pub name: String,
    pub value: Json,
}

/// A JSON value.
#[derive(Debug)]
pub enum Json {
    Null,
    Bool(bool),
    /// An integer that is not negative.
    Unsigned(u64),
    /// An integer, as the parser hands out those below zero.
    Signed(i64),
    /// A number with a fraction or an exponent, or beyond 64 bits.
    Fraction,
    Text(String),
    Array(Vec<Json>),
    /// The members in the order in which they are held. Where a name occurs
    /// more than once, the last member of that name counts.
    Object(Vec<Member>),
}

/// The mathematical value of a [`Json`].
pub enum JsonView {
    Null,
    Bool(bool),
    Integer(int),
    Fraction,
    Text(Seq<char>),
    Array(Seq<JsonView>),
    Object(Seq<(Seq<char>, JsonView)>),
}

impl Json {
    /// The value that `self` stands for.
    pub open spec fn model(&self) -> JsonView
        decreases self,
    {
        match self {
            Json::Null => JsonView::Null,
            Json::Bool(flag) => JsonView::Bool(*flag),
            Json::Unsigned(number) => JsonView::Integer(*number as int),
            Json::Signed(number) => JsonView::Integer(*number as int),
            Json::Fraction => JsonView::Fraction,
            Json::Text(text) => JsonView::Text(text@),
            Json::Array(items) => JsonView::Array(
                Seq::new(
                    items@.len(),
                    |i: int|
                        if 0 <= i < items@.len() {
                            items@[i].model()
                        } else {
                            JsonView::Null
                        },
                ),
            ),
            Json::Object(members) => JsonView::Object(
                Seq::new(
                    members@.len(),
                    |i: int|
                        if 0 <= i < members@.len() {
                            (members@[i].name@, members@[i].value.model())
                        } else {
                            (Seq::empty(), JsonView::Null)
                        },
                ),
            ),
        }
    }
}

impl View for Json {
    type V = JsonView;

    open spec fn view(&self) -> JsonView {
        self.model()
    }
}

/// The value of the last member called `name`, if there is one.
pub open spec fn member(members: Seq<(Seq<char>, JsonView)>, name: Seq<char>) -> Option<JsonView>
    decreases members.len(),
{
    if members.len() == 0 {
        None
    } else if members.last().0 == name {
        Some(members.last().1)
    } else {
        member(members.drop_last(), name)
    }
}

/// Of two members with one name the later counts: a member put behind the
/// others is the one that its name gives, and it hides no member of another
/// name.
pub proof fn law_last_member_counts(
    members: Seq<(Seq<char>, JsonView)>,
    name: Seq<char>,
    value: JsonView,
    other: Seq<char>,
)
    ensures
        member(members.push((name, value)), name) == Some(value),
        other != name ==> member(members.push((name, value)), other) == member(members, other),
{
    assert(members.push((name, value)).drop_last() =~= members);
}

impl JsonView {
    /// The member `name` of an object; nothing for any other value.
    pub open spec fn get(self, name: Seq<char>) -> Option<JsonView> {
        match self {
            JsonView::Object(members) => member(members, name),
            _ => None,
        }
    }
}

/// The tree that a `serde_json::Value` holds: `null`, a flag, a text, the
/// items of an array in their order, the members of an object in the order
/// of the crate's map, and for a number the integer that `Number::as_u64` or
/// `Number::as_i64` gives, or `Fraction` where neither gives one.
pub uninterp spec fn value_model(value: serde_json::Value) -> JsonView;

/// The document that a text spells, if it is a JSON document: the tree of the
/// value that `serde_json::from_str` reads from it.
pub uninterp spec fn json_document(text: Seq<char>) -> Option<JsonView>;

/// `serde_json::from_str` for a `serde_json::Value`. The contract only names
/// the outcome: the document that [`json_document`] stands for, the same for
/// the same text, and an error exactly where it stands for none. Of the
/// crate's error the message is kept, of which nothing is claimed.
#[verifier::external_body]
fn value_from_str(text: &str) -> (parsed: Result<serde_json::Value, SyntaxError>)
    ensures
        match parsed {
            Ok(value) => json_document(text@) == Some(value_model(value)),
            Err(_) => json_document(text@) is None,
        },
{
    serde_json::from_str::<serde_json::Value>(text).map_err(
        |error| SyntaxError { message: error.to_string() },
    )
}

/// Copies a `serde_json::Value` into a [`Json`], variant by variant, so that
/// the copy stands for the tree of the value. A number becomes `Unsigned`
/// where `Number::as_u64` gives it, else `Signed` where `Number::as_i64`
/// gives it, else `Fraction`; the members of an object come in the order of
/// the crate's map, each name once.
#[verifier::external_body]
fn json_from_value(value: serde_json::Value) -> (json: Json)
    ensures
        json@ == value_model(value),
{
    match value {
        Value::Null => Json::Null,
        Value::Bool(flag) => Json::Bool(flag),
        Value::Number(n) => match (n.as_u64(), n.as_i64()) {
            (Some(u), _) => Json::Unsigned(u),
            (None, Some(i)) => Json::Signed(i),
            (None, None) => Json::Fraction,
        },
        Value::String(text) => Json::Text(text),
        Value::Array(items) => Json::Array(items.into_iter().map(json_from_value).collect()),
        Value::Object(map) => Json::Object(
            map.into_iter().map(|(name, v)| Member { name, value: json_from_value(v) }).collect(),
        ),
    }
}

impl Json {
    /// Reads a JSON document.
    pub fn parse(text: &str) -> (parsed: Result<Json, SyntaxError>)
        ensures
            match parsed {
                Ok(json) => json_document(text@) == Some(json@),
                Err(_) => json_document(text@) is None,
            },
    {
        match value_from_str(text) {
            Ok(value) => Ok(json_from_value(value)),
            Err(error) => Err(error),
        }
    }

    /// The members of an object; an empty list for any other value.
    pub open spec fn members(self) -> Seq<(Seq<char>, JsonView)> {
        match self@ {
            JsonView::Object(members) => members,
            _ => Seq::empty(),
        }
    }

    /// The member `name` of an object.
    pub fn get(&self, name: &str) -> (found: Option<&Json>)
        ensures
            match found {
                Some(value) => self@.get(name@) == Some(value@),
                None => self@.get(name@) is None,
            },
    {
        match self {
            Json::Object(members) => {
                let ghost all = self.members();
                let mut i: usize = members.len();
                assert(all.take(i as int) =~= all);
                while i > 0
                    invariant
                        i <= members.len(),
                        self@ == JsonView::Object(all),
                        all.len() == members.len(),
                        forall|k: int|
                            0 <= k < all.len() ==> all[k] == (
                                #[trigger] members@[k].name@,
                                members@[k].value@,
                            ),
                        member(all, name@) == member(all.take(i as int), name@),
                    decreases i,
                {
                    i = i - 1;
                    assert(all.take(i as int + 1).drop_last() =~= all.take(i as int));
                    assert(all.take(i as int + 1).last() == all[i as int]);
                    if same_text(members[i].name.as_str(), name) {
                        return Some(&members[i].value);
                    }
                }
                None
            },
            _ => None,
        }
    }
}

} // verus!
