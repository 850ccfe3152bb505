//! JSON documents as plain values.
//!
//! Parsing is left to `serde_json`. What it returns is copied, node by node,
//! into [`Json`], a type that verified code can read.

use vstd::prelude::*;

verus! {

/// A JSON document. Numbers keep no value: nothing here reads one.
#[derive(Debug)]
pub enum Json {
    Null,
    Bool(bool),
    Number,
    Text(String),
    List(Vec<Json>),
    /// The members of an object, each with its name.
    Object(Vec<(String, Json)>),
}

/// The mathematical value of a [`Json`] document.
pub enum JsonView {
    Null,
    Bool(bool),
    Number,
    Text(Seq<char>),
    List(Seq<JsonView>),
    Object(Seq<(Seq<char>, JsonView)>),
}

/// The mathematical value of a document, node by node.
pub open spec fn value_of(doc: Json) -> JsonView
    decreases doc,
{
    match doc {
        Json::Null => JsonView::Null,
        Json::Bool(b) => JsonView::Bool(b),
        Json::Number => JsonView::Number,
        Json::Text(s) => JsonView::Text(s@),
        Json::List(items) => JsonView::List(
            Seq::new(
                items@.len(),
                |i: int|
                    if 0 <= i < items@.len() {
                        value_of(items@[i])
                    } else {
                        JsonView::Null
                    },
            ),
        ),
        Json::Object(members) => JsonView::Object(
            Seq::new(
                members@.len(),
                |i: int|
                    if 0 <= i < members@.len() {
                        (members@[i].0@, value_of(members@[i].1))
                    } else {
                        (Seq::empty(), JsonView::Null)
                    },
            ),
        ),
    }
}

impl View for Json {
    type V = JsonView;

    open spec fn view(&self) -> JsonView {
        value_of(*self)
    }
}

/// The value of the first member of `members` that is named `name`.
pub open spec fn member(members: Seq<(Seq<char>, JsonView)>, name: Seq<char>) -> Option<JsonView>
    decreases members.len(),
{
    if members.len() == 0 {
        None
    } else if members[0].0 == name {
        Some(members[0].1)
    } else {
        member(members.drop_first(), name)
    }
}

/// The member of an object by its name; a document that is no object has
/// no members.
pub open spec fn field(doc: JsonView, name: Seq<char>) -> Option<JsonView> {
    match doc {
        JsonView::Object(members) => member(members, name),
        _ => None,
    }
}

/// Looking a member up after skipping `k` members that are not named `name`
/// gives what looking it up in the whole gives.
pub proof fn lemma_member_skip(members: Seq<(Seq<char>, JsonView)>, name: Seq<char>, k: int)
    requires
        0 <= k <= members.len(),
        forall|i: int| 0 <= i < k ==> (#[trigger] members[i]).0 != name,
    ensures
        member(members, name) == member(members.skip(k), name),
    decreases k,
{
    if k == 0 {
        assert(members.skip(0) =~= members);
    } else {
        let rest = members.drop_first();
        assert forall|i: int| 0 <= i < k - 1 implies (#[trigger] rest[i]).0 != name by {
            assert(rest[i] == members[i + 1]);
        }
        lemma_member_skip(rest, name, k - 1);
        assert(rest.skip(k - 1) =~= members.skip(k));
    }
}

impl Json {
    /// The member of an object by its name, the first where several bear it.
    pub fn get(&self, name: &str) -> (found: Option<&Json>)
        ensures
            match found {
                Some(value) => field(self@, name@) == Some(value@),
                None => field(self@, name@) is None,
            },
    {
        match self {
            Json::Object(members) => {
                let wanted = String::from_str(name);
                let mut i: usize = 0;
                while i < members.len()
                    invariant
                        i <= members.len(),
                        wanted@ == name@,
                        self@ matches JsonView::Object(all) && all.len() == members.len() && (
                        forall|k: int|
                            0 <= k < members.len() ==> #[trigger] all[k] == (
                                members[k].0@,
                                members[k].1@,
                            )),
                        forall|k: int|
                            0 <= k < i ==> (#[trigger] self@->Object_0[k]).0 != name@,
                    decreases members.len() - i,
                {
                    if members[i].0 == wanted {
                        proof {
                            let all = self@->Object_0;
                            lemma_member_skip(all, name@, i as int);
                            assert(all.skip(i as int)[0] == all[i as int]);
                        }
                        return Some(&members[i].1);
                    }
                    i = i + 1;
                }
                proof {
                    let all = self@->Object_0;
                    lemma_member_skip(all, name@, all.len() as int);
                    assert(all.skip(all.len() as int).len() == 0);
                }
                None
            },
            _ => None,
        }
    }
}

/// Declares `serde_json::Value` so that it can be named; nothing is known
/// of what a value holds.
#[verifier::external_type_specification]
#[verifier::external_body]
pub struct ExValue(serde_json::Value);

/// Declares `serde_json::Error` so that it can be named; nothing is known
/// of what an error holds.
#[verifier::external_type_specification]
#[verifier::external_body]
pub struct ExError(serde_json::Error);

/// The document that `serde_json::from_str` reads from a text, or `None`
/// where it rejects the text.
pub uninterp spec fn json_document(text: Seq<char>) -> Option<JsonView>;

/// Copies a `serde_json::Value` into a [`Json`], variant by variant; the
/// members of an object come in the order in which its map hands them out.
/// Nothing is claimed of the copy: a `Value` cannot be spoken of here.
#[verifier::external_body]
fn copy_value(value: serde_json::Value) -> Json {
    match value {
        serde_json::Value::Null => Json::Null,
        serde_json::Value::Bool(b) => Json::Bool(b),
        serde_json::Value::Number(_) => Json::Number,
        serde_json::Value::String(s) => Json::Text(s),
        serde_json::Value::Array(items) => Json::List(items.into_iter().map(copy_value).collect()),
        serde_json::Value::Object(members) => Json::Object(
            members.into_iter().map(|(name, v)| (name, copy_value(v))).collect(),
        ),
    }
}

/// Calls `serde_json::from_str` for a `serde_json::Value`. The contract
/// gives the result a name, [`json_document`], and claims that the call
/// depends on the text alone: the same text is read as the same document,
/// or rejected, every time.
#[verifier::external_body]
fn read_document(text: &str) -> (r: Result<Json, serde_json::Error>)
    ensures
        match r {
            Ok(doc) => json_document(text@) == Some(doc@),
            Err(_) => json_document(text@) is None,
        },
{
    match serde_json::from_str::<serde_json::Value>(text) {
        Ok(value) => Ok(copy_value(value)),
        Err(e) => Err(e),
    }
}

/// Reads a text as a JSON document; `None` where the text is not JSON.
pub fn parse(text: &str) -> (doc: Option<Json>)
    ensures
        match doc {
            Some(d) => json_document(text@) == Some(d@),
            None => json_document(text@) is None,
        },
{
    match read_document(text) {
        Ok(d) => Some(d),
        Err(_) => None,
    }
}

} // verus!
