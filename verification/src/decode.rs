//! The building blocks of the decoder: members of objects, lists and tables.

use vstd::prelude::*;
use crate::coerce::{coerce_number, number_of, plain_number, plain_number_of};
use crate::error::{outcome, within, Cause, DecodeError, Failure, Reason, Segment, Step};
use crate::json::{
    elements_of, find, find_folded, lemma_view_parts, member, member_folded, members_of, Json,
    JsonValue, Members,
};
use crate::types::Table;

verus! {

/// The failure of a value whose kind its place does not accept.
pub open spec fn mismatch(j: JsonValue) -> Failure {
    Failure::here(Reason::TypeMismatch(j.kind()))
}

/// A bare verdict as the outcome of decoding the value itself.
pub open spec fn at_value(r: Result<u32, Reason>) -> Result<u32, Failure> {
    match r {
        Ok(n) => Ok(n),
        Err(c) => Err(Failure::here(c)),
    }
}

/// A text, as it stands.
pub open spec fn text_of(j: JsonValue) -> Result<Seq<char>, Failure> {
    match j {
        JsonValue::String(s) => Ok(s),
        _ => Err(mismatch(j)),
    }
}

/// A number that must be a JSON number.
pub open spec fn plain_number_at(j: JsonValue) -> Result<u32, Failure> {
    at_value(plain_number(j))
}

/// A number that may be a JSON number or a numeral.
pub open spec fn number_at(j: JsonValue) -> Result<u32, Failure> {
    at_value(number_of(j))
}

/// What decoding makes of the first member called `name`: a missing member
/// is a failure at that name, and a failure inside the member lies under it.
pub open spec fn required<T>(
    members: Members,
    name: Seq<char>,
    decode: spec_fn(JsonValue) -> Result<T, Failure>,
) -> Result<T, Failure> {
    match find(members, name) {
        Some(v) => within(Step::Key(name), decode(v)),
        None => Err(Failure::missing(name)),
    }
}

/// As `required`, but the member is found whatever the case of its ASCII
/// letters; a failure inside it lies under the name as the document spells it.
pub open spec fn required_folded<T>(
    members: Members,
    name: Seq<char>,
    decode: spec_fn(JsonValue) -> Result<T, Failure>,
) -> Result<T, Failure> {
    match find_folded(members, name) {
        Some((k, v)) => within(Step::Key(k), decode(v)),
        None => Err(Failure::missing(name)),
    }
}

/// Every element decoded in turn. The first element that fails decides the
/// failure, which lies under its position.
pub open spec fn each<T>(items: Seq<JsonValue>, decode: spec_fn(JsonValue) -> Result<T, Failure>) -> Result<
    Seq<T>,
    Failure,
>
    decreases items.len(),
{
    if items.len() == 0 {
        Ok(Seq::empty())
    } else {
        match each(items.drop_last(), decode) {
            Err(f) => Err(f),
            Ok(front) => match decode(items.last()) {
                Err(f) => Err(f.under(Step::Index((items.len() - 1) as nat))),
                Ok(v) => Ok(front.push(v)),
            },
        }
    }
}

/// Every member decoded in turn and kept under its name. The first member
/// that fails decides the failure, which lies under its name.
pub open spec fn each_named<T>(
    members: Members,
    decode: spec_fn(JsonValue) -> Result<T, Failure>,
) -> Result<Seq<(Seq<char>, T)>, Failure>
    decreases members.len(),
{
    if members.len() == 0 {
        Ok(Seq::empty())
    } else {
        match each_named(members.drop_last(), decode) {
            Err(f) => Err(f),
            Ok(front) => match decode(members.last().1) {
                Err(f) => Err(f.under(Step::Key(members.last().0))),
                Ok(v) => Ok(front.push((members.last().0, v))),
            },
        }
    }
}

/// An array, each element decoded.
pub open spec fn list_of<T>(j: JsonValue, decode: spec_fn(JsonValue) -> Result<T, Failure>) -> Result<
    Seq<T>,
    Failure,
> {
    match j {
        JsonValue::Array(items) => each(items, decode),
        _ => Err(mismatch(j)),
    }
}

/// An object, each member decoded.
pub open spec fn table_of<T>(j: JsonValue, decode: spec_fn(JsonValue) -> Result<T, Failure>) -> Result<
    Seq<(Seq<char>, T)>,
    Failure,
> {
    match j {
        JsonValue::Object(members) => each_named(members, decode),
        _ => Err(mismatch(j)),
    }
}

/// Whether an executable decoder computes what `model` says, on every value.
pub open spec fn computes<T: DeepView, F: Fn(&Json) -> Result<T, DecodeError>>(
    decode: F,
    model: spec_fn(JsonValue) -> Result<T::V, Failure>,
) -> bool {
    &&& forall|j: &Json| #[trigger] call_requires(decode, (j,))
    &&& forall|j: &Json, r: Result<T, DecodeError>| #[trigger]
        call_ensures(decode, (j,), r) ==> outcome(r) == model(j@)
}

/// The failure of a value whose kind its place does not accept.
pub fn mismatch_at(j: &Json) -> (e: DecodeError)
    ensures
        e.deep_view() == mismatch(j@),
{
    DecodeError::here(Cause::TypeMismatch(j.kind()))
}

/// Reads a text.
pub fn read_text(j: &Json) -> (r: Result<String, DecodeError>)
    ensures
        outcome(r) == text_of(j@),
{
    match j {
        Json::String(s) => Ok(s.clone()),
        _ => Err(mismatch_at(j)),
    }
}

/// Reads a number that must be a JSON number.
pub fn read_plain_number(j: &Json) -> (r: Result<u32, DecodeError>)
    ensures
        outcome(r) == plain_number_at(j@),
{
    match plain_number_of(j) {
        Ok(n) => Ok(n),
        Err(c) => Err(DecodeError::here(c)),
    }
}

/// Reads a number that may be a JSON number or a numeral.
pub fn read_number(j: &Json) -> (r: Result<u32, DecodeError>)
    ensures
        outcome(r) == number_at(j@),
{
    match coerce_number(j) {
        Ok(n) => Ok(n),
        Err(c) => Err(DecodeError::here(c)),
    }
}

/// Decodes the member called `name`.
pub(crate) fn read_required<T: DeepView, F: Fn(&Json) -> Result<T, DecodeError>>(
    fields: &Vec<(String, Json)>,
    name: &str,
    decode: F,
    Ghost(model): Ghost<spec_fn(JsonValue) -> Result<T::V, Failure>>,
) -> (r: Result<T, DecodeError>)
    requires
        computes(decode, model),
    ensures
        outcome(r) == required(members_of(fields@), name@, model),
{
    match member(fields, name) {
        Some(j) => match decode(j) {
            Ok(v) => Ok(v),
            Err(e) => Err(e.under_key(name)),
        },
        None => Err(DecodeError::missing(name)),
    }
}

/// Decodes the member called `name`, whatever the case of its ASCII letters.
pub(crate) fn read_required_folded<T: DeepView, F: Fn(&Json) -> Result<T, DecodeError>>(
    fields: &Vec<(String, Json)>,
    name: &str,
    decode: F,
    Ghost(model): Ghost<spec_fn(JsonValue) -> Result<T::V, Failure>>,
) -> (r: Result<T, DecodeError>)
    requires
        computes(decode, model),
    ensures
        outcome(r) == required_folded(members_of(fields@), name@, model),
{
    match member_folded(fields, name) {
        Some((k, j)) => match decode(j) {
            Ok(v) => Ok(v),
            Err(e) => Err(e.under_key(k)),
        },
        None => Err(DecodeError::missing(name)),
    }
}

/// Decodes an array, element by element.
pub(crate) fn read_list<T: DeepView, F: Fn(&Json) -> Result<T, DecodeError>>(
    j: &Json,
    decode: F,
    Ghost(model): Ghost<spec_fn(JsonValue) -> Result<T::V, Failure>>,
) -> (r: Result<Vec<T>, DecodeError>)
    requires
        computes(decode, model),
    ensures
        outcome(r) == list_of(j@, model),
{
    match j {
        Json::Array(items) => {
            proof {
                lemma_view_parts(*j);
            }
            let ghost all = elements_of(items@);
            let mut out: Vec<T> = Vec::new();
            let mut i: usize = 0;
            assert(all.take(0) =~= Seq::<JsonValue>::empty());
            assert(out.deep_view() =~= Seq::<T::V>::empty());
            while i < items.len()
                invariant
                    i <= items@.len(),
                    all == elements_of(items@),
                    j@ == JsonValue::Array(all),
                    computes(decode, model),
                    each(all.take(i as int), model) == Ok::<Seq<T::V>, Failure>(out.deep_view()),
                decreases items@.len() - i,
            {
                proof {
                    assert(all.take(i + 1).drop_last() =~= all.take(i as int));
                    assert(all.take(i + 1).last() == items@[i as int]@);
                }
                match decode(&items[i]) {
                    Ok(v) => {
                        let ghost before = out.deep_view();
                        out.push(v);
                        assert(out.deep_view() =~= before.push(v.deep_view()));
                    },
                    Err(e) => {
                        let r = Err(e.under(Segment::Index(i)));
                        proof {
                            assert(each(all.take(i + 1), model) is Err);
                            lemma_each_stops(all, model, i + 1);
                        }
                        return r;
                    },
                }
                i += 1;
            }
            assert(all.take(i as int) =~= all);
            Ok(out)
        },
        _ => Err(mismatch_at(j)),
    }
}

/// Decodes an object, member by member.
pub(crate) fn read_table<T: DeepView, F: Fn(&Json) -> Result<T, DecodeError>>(
    j: &Json,
    decode: F,
    Ghost(model): Ghost<spec_fn(JsonValue) -> Result<T::V, Failure>>,
) -> (r: Result<Table<T>, DecodeError>)
    requires
        computes(decode, model),
    ensures
        outcome(r) == table_of(j@, model),
{
    match j {
        Json::Object(fields) => {
            proof {
                lemma_view_parts(*j);
            }
            let ghost all = members_of(fields@);
            let mut out: Vec<(String, T)> = Vec::new();
            let mut i: usize = 0;
            assert(all.take(0) =~= Seq::<(Seq<char>, JsonValue)>::empty());
            assert(out.deep_view() =~= Seq::<(Seq<char>, T::V)>::empty());
            while i < fields.len()
                invariant
                    i <= fields@.len(),
                    all == members_of(fields@),
                    j@ == JsonValue::Object(all),
                    computes(decode, model),
                    each_named(all.take(i as int), model) == Ok::<Seq<(Seq<char>, T::V)>, Failure>(
                        out.deep_view(),
                    ),
                decreases fields@.len() - i,
            {
                proof {
                    assert(all.take(i + 1).drop_last() =~= all.take(i as int));
                    assert(all.take(i + 1).last() == (fields@[i as int].0@, fields@[i as int].1@));
                }
                match decode(&fields[i].1) {
                    Ok(v) => {
                        let ghost before = out.deep_view();
                        let name = fields[i].0.clone();
                        out.push((name, v));
                        assert(out.deep_view() =~= before.push((name@, v.deep_view())));
                    },
                    Err(e) => {
                        let r = Err(e.under_key(fields[i].0.as_str()));
                        proof {
                            assert(each_named(all.take(i + 1), model) is Err);
                            lemma_each_named_stops(all, model, i + 1);
                        }
                        return r;
                    },
                }
                i += 1;
            }
            assert(all.take(i as int) =~= all);
            Ok(Table { entries: out })
        },
        _ => Err(mismatch_at(j)),
    }
}

/// Once an element has failed, the elements after it change nothing.
pub proof fn lemma_each_stops<T>(
    items: Seq<JsonValue>,
    decode: spec_fn(JsonValue) -> Result<T, Failure>,
    n: int,
)
    requires
        0 <= n <= items.len(),
        each(items.take(n), decode) is Err,
    ensures
        each(items, decode) == each(items.take(n), decode),
    decreases items.len(),
{
    if n < items.len() {
        assert(items.drop_last().take(n) =~= items.take(n));
        lemma_each_stops(items.drop_last(), decode, n);
    } else {
        assert(items.take(n) =~= items);
    }
}

/// Once a member has failed, the members after it change nothing.
pub proof fn lemma_each_named_stops<T>(
    members: Members,
    decode: spec_fn(JsonValue) -> Result<T, Failure>,
    n: int,
)
    requires
        0 <= n <= members.len(),
        each_named(members.take(n), decode) is Err,
    ensures
        each_named(members, decode) == each_named(members.take(n), decode),
    decreases members.len(),
{
    if n < members.len() {
        assert(members.drop_last().take(n) =~= members.take(n));
        lemma_each_named_stops(members.drop_last(), decode, n);
    } else {
        assert(members.take(n) =~= members);
    }
}


/// A list that decodes has one element for each element of the array, in
/// the same order: what that element decodes to.
pub proof fn lemma_list_keeps_order<T>(
    items: Seq<JsonValue>,
    decode: spec_fn(JsonValue) -> Result<T, Failure>,
)
    requires
        each(items, decode) is Ok,
    ensures
        each(items, decode)->Ok_0.len() == items.len(),
        forall|i: int|
            0 <= i < items.len() ==> decode(#[trigger] items[i]) == Ok::<T, Failure>(
                each(items, decode)->Ok_0[i],
            ),
    decreases items.len(),
{
    if items.len() > 0 {
        lemma_list_keeps_order(items.drop_last(), decode);
        assert forall|i: int| 0 <= i < items.len() implies decode(#[trigger] items[i]) == Ok::<
            T,
            Failure,
        >(each(items, decode)->Ok_0[i]) by {
            if i < items.len() - 1 {
                assert(items.drop_last()[i] == items[i]);
            }
        }
    }
}

/// A list fails where its first failing element does: the failure is that
/// of the element, under its position.
pub proof fn lemma_list_fails_at_first<T>(
    items: Seq<JsonValue>,
    decode: spec_fn(JsonValue) -> Result<T, Failure>,
    i: int,
)
    requires
        0 <= i < items.len(),
        decode(items[i]) is Err,
        forall|k: int| 0 <= k < i ==> decode(#[trigger] items[k]) is Ok,
    ensures
        each(items, decode) == Err::<Seq<T>, Failure>(
            decode(items[i])->Err_0.under(Step::Index(i as nat)),
        ),
    decreases items.len(),
{
    if i < items.len() - 1 {
        assert(items.drop_last()[i] == items[i]);
        assert forall|k: int| 0 <= k < i implies decode(#[trigger] items.drop_last()[k]) is Ok by {
            assert(items.drop_last()[k] == items[k]);
        }
        lemma_list_fails_at_first(items.drop_last(), decode, i);
    } else {
        lemma_all_decode(items.drop_last(), decode);
    }
}

/// A list decodes where each of its elements does.
pub proof fn lemma_all_decode<T>(items: Seq<JsonValue>, decode: spec_fn(JsonValue) -> Result<T, Failure>)
    requires
        forall|k: int| 0 <= k < items.len() ==> decode(#[trigger] items[k]) is Ok,
    ensures
        each(items, decode) is Ok,
    decreases items.len(),
{
    if items.len() > 0 {
        assert forall|k: int| 0 <= k < items.len() - 1 implies decode(
            #[trigger] items.drop_last()[k],
        ) is Ok by {
            assert(items.drop_last()[k] == items[k]);
        }
        lemma_all_decode(items.drop_last(), decode);
        assert(decode(items[items.len() - 1]) is Ok);
    }
}

/// A table that decodes has one entry for each member of the object, in the
/// same order and under the same name: what that member decodes to.
pub proof fn lemma_table_keeps_names<T>(
    members: Members,
    decode: spec_fn(JsonValue) -> Result<T, Failure>,
)
    requires
        each_named(members, decode) is Ok,
    ensures
        each_named(members, decode)->Ok_0.len() == members.len(),
        forall|i: int|
            0 <= i < members.len() ==> (#[trigger] each_named(members, decode)->Ok_0[i]).0
                == members[i].0 && decode(members[i].1) == Ok::<T, Failure>(
                each_named(members, decode)->Ok_0[i].1,
            ),
    decreases members.len(),
{
    if members.len() > 0 {
        lemma_table_keeps_names(members.drop_last(), decode);
        let whole = each_named(members, decode)->Ok_0;
        let front = each_named(members.drop_last(), decode)->Ok_0;
        assert forall|i: int| 0 <= i < members.len() implies (#[trigger] whole[i]).0
            == members[i].0 && decode(members[i].1) == Ok::<T, Failure>(whole[i].1) by {
            if i < members.len() - 1 {
                assert(members.drop_last()[i] == members[i]);
                assert(whole[i] == front[i]);
            }
        }
    }
}

/// A table decodes where each of its members does.
pub proof fn lemma_all_members_decode<T>(
    members: Members,
    decode: spec_fn(JsonValue) -> Result<T, Failure>,
)
    requires
        forall|k: int| 0 <= k < members.len() ==> decode((#[trigger] members[k]).1) is Ok,
    ensures
        each_named(members, decode) is Ok,
    decreases members.len(),
{
    if members.len() > 0 {
        assert forall|k: int| 0 <= k < members.len() - 1 implies decode(
            (#[trigger] members.drop_last()[k]).1,
        ) is Ok by {
            assert(members.drop_last()[k] == members[k]);
        }
        lemma_all_members_decode(members.drop_last(), decode);
        assert(decode(members[members.len() - 1].1) is Ok);
    }
}

/// A table fails where its first failing member does: the failure is that
/// of the member, under its name.
pub proof fn lemma_table_fails_at_first<T>(
    members: Members,
    decode: spec_fn(JsonValue) -> Result<T, Failure>,
    i: int,
)
    requires
        0 <= i < members.len(),
        decode(members[i].1) is Err,
        forall|k: int| 0 <= k < i ==> decode((#[trigger] members[k]).1) is Ok,
    ensures
        each_named(members, decode) == Err::<Seq<(Seq<char>, T)>, Failure>(
            decode(members[i].1)->Err_0.under(Step::Key(members[i].0)),
        ),
    decreases members.len(),
{
    if i < members.len() - 1 {
        assert(members.drop_last()[i] == members[i]);
        assert forall|k: int| 0 <= k < i implies decode((#[trigger] members.drop_last()[k]).1)
            is Ok by {
            assert(members.drop_last()[k] == members[k]);
        }
        lemma_table_fails_at_first(members.drop_last(), decode, i);
    } else {
        lemma_all_members_decode(members.drop_last(), decode);
    }
}

} // verus!
