//! The JSON document model and the boundary to the JSON reader.

use vstd::prelude::*;
use crate::error::{Cause, DecodeError};
use crate::text::{fold_equal, same_name, same_text};

verus! {

/// The kinds of JSON value; a number is either whole or not.
#[derive(Debug, Clone, Copy, PartialEq, Eq, Structural)]
pub enum JsonKind {
    Null,
    Bool,
    Integer,
    Real,
    String,
    Array,
    Object,
}

/// A JSON document as a mathematical value.
pub enum JsonValue {
    Null,
    Bool(bool),
    Integer(int),
    Real,
    String(Seq<char>),
    Array(Seq<JsonValue>),
    Object(Seq<(Seq<char>, JsonValue)>),
}

impl JsonValue {
    /// The kind of the value.
    pub open spec fn kind(self) -> JsonKind {
        match self {
            JsonValue::Null => JsonKind::Null,
            JsonValue::Bool(_) => JsonKind::Bool,
            JsonValue::Integer(_) => JsonKind::Integer,
            JsonValue::Real => JsonKind::Real,
            JsonValue::String(_) => JsonKind::String,
            JsonValue::Array(_) => JsonKind::Array,
            JsonValue::Object(_) => JsonKind::Object,
        }
    }
}

/// The members of an object, in the order of the document.
pub type Members = Seq<(Seq<char>, JsonValue)>;

/// Whether no name stands twice among the entries.
pub open spec fn distinct_names<T>(entries: Seq<(Seq<char>, T)>) -> bool {
    forall|i: int, j: int| 0 <= i < j < entries.len() ==> (#[trigger] entries[i]).0 != (#[trigger] entries[j]).0
}

impl JsonValue {
    /// Whether no object in the value has two members of one name.
    pub open spec fn well_named(self) -> bool
        decreases self,
    {
        match self {
            JsonValue::Array(items) => forall|i: int|
                0 <= i < items.len() ==> (#[trigger] items[i]).well_named(),
            JsonValue::Object(members) => distinct_names(members) && forall|i: int|
                0 <= i < members.len() ==> (#[trigger] members[i]).1.well_named(),
            _ => true,
        }
    }
}

/// The value of the first member called `name`, if there is one.
pub open spec fn find(members: Members, name: Seq<char>) -> Option<JsonValue>
    decreases members.len(),
{
    if members.len() == 0 {
        None
    } else if members[0].0 == name {
        Some(members[0].1)
    } else {
        find(members.drop_first(), name)
    }
}

/// The first member whose name is `name` but for the case of ASCII letters,
/// if there is one.
pub open spec fn find_folded(members: Members, name: Seq<char>) -> Option<(Seq<char>, JsonValue)>
    decreases members.len(),
{
    if members.len() == 0 {
        None
    } else if same_name(members[0].0, name) {
        Some(members[0])
    } else {
        find_folded(members.drop_first(), name)
    }
}

/// A JSON document held in memory. A number that is not whole is kept as
/// `Real`, without its value; the members of an object keep their order.
#[derive(Debug)]
pub enum Json {
    Null,
    Bool(bool),
    Integer(i128),
    Real,
    String(String),
    Array(Vec<Json>),
    Object(Vec<(String, Json)>),
}

impl View for Json {
    type V = JsonValue;

    open spec fn view(&self) -> JsonValue
        decreases self,
    {
        match self {
            Json::Null => JsonValue::Null,
            Json::Bool(b) => JsonValue::Bool(*b),
            Json::Integer(i) => JsonValue::Integer(*i as int),
            Json::Real => JsonValue::Real,
            Json::String(s) => JsonValue::String(s@),
            Json::Array(items) => JsonValue::Array(
                Seq::new(
                    items@.len(),
                    |i: int|
                        if 0 <= i < items@.len() {
                            items@[i]@
                        } else {
                            JsonValue::Null
                        },
                ),
            ),
            Json::Object(fields) => JsonValue::Object(
                Seq::new(
                    fields@.len(),
                    |i: int|
                        (
                            fields@[i].0@,
                            if 0 <= i < fields@.len() {
                                fields@[i].1@
                            } else {
                                JsonValue::Null
                            },
                        ),
                ),
            ),
        }
    }
}

/// `serde_json::Value`, the document as the JSON reader hands it over. It is
/// opaque here: what it holds is `value_view`.
#[verifier::external_type_specification]
#[verifier::external_body]
pub struct ExValue(serde_json::Value);

/// `serde_json::Error`, the reader's account of a text that is not JSON.
#[verifier::external_type_specification]
#[verifier::external_body]
pub struct ExJsonError(serde_json::Error);

/// `serde_path_to_error::Error`, an error of a reader with the place in the
/// document where it arose.
#[verifier::external_type_specification]
#[verifier::external_body]
#[verifier::reject_recursive_types(E)]
pub struct ExPathError<E>(serde_path_to_error::Error<E>);

/// What a `serde_json::Value` holds: the document, with each number as the
/// whole number that it is or as `Real`, and with the members of each
/// object in the order in which the value hands them out.
pub uninterp spec fn value_view(v: serde_json::Value) -> JsonValue;

/// The document that the JSON reader finds at the start of a text, if it
/// finds one. The reader is `serde_json`; what it finds depends on the text alone.
pub uninterp spec fn document_of(text: Seq<char>) -> Option<JsonValue>;

/// One level of a `serde_json::Value`: the value with its outermost variant
/// told apart, and the values inside it as the reader's own.
enum Node {
    Null,
    Bool(bool),
    Number(Option<i128>),
    Text(String),
    Items(Vec<serde_json::Value>),
    Fields(Vec<(String, serde_json::Value)>),
}

impl Node {
    /// Whether the node is the outermost level of the document `j`.
    spec fn shows(self, j: JsonValue) -> bool {
        match self {
            Node::Null => j is Null,
            Node::Bool(b) => j == JsonValue::Bool(b),
            Node::Number(Some(i)) => j == JsonValue::Integer(i as int),
            Node::Number(None) => j is Real,
            Node::Text(s) => j == JsonValue::String(s@),
            Node::Items(items) => j == JsonValue::Array(
                Seq::new(items@.len(), |i: int| value_view(items@[i])),
            ),
            Node::Fields(fields) => j == JsonValue::Object(
                Seq::new(fields@.len(), |i: int| (fields@[i].0@, value_view(fields@[i].1))),
            ),
        }
    }
}

/// Runs the JSON reader on a text: `serde_path_to_error::deserialize` on
/// `serde_json::Deserializer::from_str`, reading a `serde_json::Value`.
///
/// The contract claims that the reader succeeds exactly on the texts that
/// `document_of` has a document for, and that the value read holds that
/// document. The reader reads one value from the start of the text and
/// does not look at what follows it.
#[verifier::external_body]
fn read_document(text: &str) -> (r: Result<
    serde_json::Value,
    serde_path_to_error::Error<serde_json::Error>,
>)
    ensures
        match r {
            Ok(v) => document_of(text@) == Some(value_view(v)),
            Err(_) => document_of(text@) is None,
        },
{
    let mut reader = serde_json::Deserializer::from_str(text);
    serde_path_to_error::deserialize(&mut reader)
}

/// Takes a `serde_json::Value` apart by one level: its variants are told
/// apart, a number is asked for its whole value with
/// `serde_json::Number::as_i128`, and the members of an object are handed
/// out by `serde_json::Map::into_iter`.
///
/// The contract claims that the node shows what the value holds: `null`, a
/// truth value and a text as they are; a number as its whole value, or as no
/// value where it is not whole; an array as its elements in order; an object
/// as its members in the order of `into_iter`. It claims, too, that no two
/// members of an object have the same name, which is so of a map.
#[verifier::external_body]
fn open_value(v: serde_json::Value) -> (r: Node)
    ensures
        r.shows(value_view(v)),
        r matches Node::Fields(fields) ==> forall|i: int, j: int|
            0 <= i < j < fields@.len() ==> (#[trigger] fields@[i]).0@ != (#[trigger] fields@[j]).0@,
{
    match v {
        serde_json::Value::Null => Node::Null,
        serde_json::Value::Bool(b) => Node::Bool(b),
        serde_json::Value::Number(n) => Node::Number(n.as_i128()),
        serde_json::Value::String(s) => Node::Text(s),
        serde_json::Value::Array(a) => Node::Items(a),
        serde_json::Value::Object(m) => Node::Fields(m.into_iter().collect()),
    }
}

/// Copies what a `serde_json::Value` holds into a document of this library.
fn convert(v: serde_json::Value) -> (j: Json)
    ensures
        j@ == value_view(v),
        j@.well_named(),
    decreases value_view(v),
{
    let ghost whole = value_view(v);
    match open_value(v) {
        Node::Null => Json::Null,
        Node::Bool(b) => Json::Bool(b),
        Node::Number(Some(i)) => Json::Integer(i),
        Node::Number(None) => Json::Real,
        Node::Text(s) => Json::String(s),
        Node::Items(items) => {
            let ghost all = items@;
            let ghost views = Seq::new(all.len(), |i: int| value_view(all[i]));
            let mut out: Vec<Json> = Vec::new();
            for item in it: items
                invariant
                    it.seq() == all,
                    views == Seq::new(all.len(), |i: int| value_view(all[i])),
                    whole == value_view(v),
                    whole == JsonValue::Array(views),
                    out@.len() == it.index(),
                    forall|i: int| 0 <= i < out@.len() ==> (#[trigger] out@[i])@ == value_view(all[i]),
                    forall|i: int| 0 <= i < out@.len() ==> (#[trigger] out@[i])@.well_named(),
            {
                proof {
                    let k = it.index() as int;
                    assert(views[k] == value_view(item));
                    assert(decreases_to!(whole => whole->Array_0));
                    assert(decreases_to!(views => views[k]));
                }
                let j = convert(item);
                out.push(j);
            }
            let r = Json::Array(out);
            proof {
                assert(r@->Array_0 =~= views);
                assert forall|i: int| 0 <= i < views.len() implies (#[trigger] views[i]).well_named() by {
                    assert(out@[i]@ == views[i]);
                }
            }
            r
        }
        Node::Fields(fields) => {
            let ghost all = fields@;
            let ghost views = Seq::new(all.len(), |i: int| (all[i].0@, value_view(all[i].1)));
            let mut out: Vec<(String, Json)> = Vec::new();
            for field in it: fields
                invariant
                    it.seq() == all,
                    views == Seq::new(all.len(), |i: int| (all[i].0@, value_view(all[i].1))),
                    whole == value_view(v),
                    whole == JsonValue::Object(views),
                    out@.len() == it.index(),
                    forall|i: int| 0 <= i < out@.len() ==> (#[trigger] out@[i]).0@ == all[i].0@ && out@[i].1@ == value_view(all[i].1),
                    forall|i: int| 0 <= i < out@.len() ==> (#[trigger] out@[i]).1@.well_named(),
                    forall|i: int, j: int|
                        0 <= i < j < all.len() ==> (#[trigger] all[i]).0@ != (#[trigger] all[j]).0@,
            {
                proof {
                    let k = it.index() as int;
                    assert(views[k].1 == value_view(field.1));
                    assert(decreases_to!(whole => whole->Object_0));
                    assert(decreases_to!(views => views[k]));
                    assert(decreases_to!(views[k] => views[k].1));
                }
                let (key, value) = field;
                let j = convert(value);
                out.push((key, j));
            }
            let r = Json::Object(out);
            proof {
                assert(r@->Object_0 =~= views);
                assert forall|i: int| 0 <= i < views.len() implies (#[trigger] views[i]).1.well_named() by {
                    assert(out@[i].1@ == views[i].1);
                }
                assert forall|i: int, j: int| 0 <= i < j < views.len() implies (#[trigger] views[i]).0
                    != (#[trigger] views[j]).0 by {
                    assert(all[i].0@ != all[j].0@);
                }
            }
            r
        }
    }
}


/// The members of an object held in memory, as mathematical values.
pub open spec fn members_of(fields: Seq<(String, Json)>) -> Members {
    Seq::new(fields.len(), |i: int| (fields[i].0@, fields[i].1@))
}

/// The elements of an array held in memory, as mathematical values.
pub open spec fn elements_of(items: Seq<Json>) -> Seq<JsonValue> {
    Seq::new(items.len(), |i: int| items[i]@)
}

/// What the view of an object or an array is made of.
pub proof fn lemma_view_parts(j: Json)
    ensures
        j matches Json::Object(fields) ==> j@ == JsonValue::Object(members_of(fields@)),
        j matches Json::Array(items) ==> j@ == JsonValue::Array(elements_of(items@)),
{
    match j {
        Json::Object(fields) => {
            assert(j@->Object_0 =~= members_of(fields@));
        },
        Json::Array(items) => {
            assert(j@->Array_0 =~= elements_of(items@));
        },
        _ => {},
    }
}

impl Json {
    /// The kind of the value.
    pub fn kind(&self) -> (k: JsonKind)
        ensures
            k == self@.kind(),
    {
        match self {
            Json::Null => JsonKind::Null,
            Json::Bool(_) => JsonKind::Bool,
            Json::Integer(_) => JsonKind::Integer,
            Json::Real => JsonKind::Real,
            Json::String(_) => JsonKind::String,
            Json::Array(_) => JsonKind::Array,
            Json::Object(_) => JsonKind::Object,
        }
    }
}

/// Looks a member up by its name.
pub fn member<'a>(fields: &'a Vec<(String, Json)>, name: &str) -> (r: Option<&'a Json>)
    ensures
        match r {
            Some(j) => find(members_of(fields@), name@) == Some(j@),
            None => find(members_of(fields@), name@) is None,
        },
{
    let ghost all = members_of(fields@);
    let mut i: usize = 0;
    assert(all.skip(0) =~= all);
    while i < fields.len()
        invariant
            i <= fields.len(),
            all == members_of(fields@),
            find(all, name@) == find(all.skip(i as int), name@),
        decreases fields.len() - i,
    {
        proof {
            assert(all.skip(i as int).drop_first() =~= all.skip(i + 1));
        }
        if same_text(fields[i].0.as_str(), name) {
            return Some(&fields[i].1);
        }
        i += 1;
    }
    None
}

/// Looks a member up by its name, taking no account of the case of ASCII
/// letters; the name as the document spells it comes back with the value.
pub fn member_folded<'a>(fields: &'a Vec<(String, Json)>, name: &str) -> (r: Option<
    (&'a str, &'a Json),
>)
    ensures
        match r {
            Some((k, j)) => find_folded(members_of(fields@), name@) == Some((k@, j@)),
            None => find_folded(members_of(fields@), name@) is None,
        },
{
    let ghost all = members_of(fields@);
    let mut i: usize = 0;
    assert(all.skip(0) =~= all);
    while i < fields.len()
        invariant
            i <= fields.len(),
            all == members_of(fields@),
            find_folded(all, name@) == find_folded(all.skip(i as int), name@),
        decreases fields.len() - i,
    {
        proof {
            assert(all.skip(i as int).drop_first() =~= all.skip(i + 1));
        }
        if fold_equal(fields[i].0.as_str(), name) {
            return Some((fields[i].0.as_str(), &fields[i].1));
        }
        i += 1;
    }
    None
}

/// The reader's own account of why a text is not JSON: the `Display` of
/// `serde_path_to_error::Error`, taken with `to_string`. Nothing is claimed of it.
#[verifier::external_body]
fn failure_text(e: &serde_path_to_error::Error<serde_json::Error>) -> (r: String) {
    e.to_string()
}

/// Reads the JSON document at the start of a text.
///
/// The text is a document exactly when the reader finds one; what it finds is
/// `document_of`. Where it finds none, the failure is `MalformedDocument` at
/// the root, with the reader's message.
pub fn parse_json(text: &str) -> (r: Result<Json, DecodeError>)
    ensures
        match document_of(text@) {
            Some(j) => r is Ok && r->Ok_0@ == j && j.well_named(),
            None => r is Err && r->Err_0.deep_view().path.len() == 0
                && r->Err_0.cause is MalformedDocument,
        },
{
    match read_document(text) {
        Ok(v) => Ok(convert(v)),
        Err(e) => Err(DecodeError::here(Cause::MalformedDocument(failure_text(&e)))),
    }
}

} // verus!
