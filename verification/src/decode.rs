//! Strict decoding of JSON documents into the values of the response model.
//!
//! A document is taken for a value only where it has the shape of that
//! value and nothing else: a member that the schema does not know, a value
//! of another type, a name that is not among an enumeration's names, each
//! is an error. What the provider keeps to itself is carried as it came.

use crate::json::{items_model, lemma_view_unfolds, lookup, members_model, same_text, Json, JsonNumber, JsonValue};
use crate::table::Table;
use vstd::prelude::*;

verus! {

/// Why a document is not the value that was looked for.
#[derive(Clone, Copy, Debug, PartialEq, Eq, Structural)]
pub enum DecodeError {
    /// The value is of another JSON type than the schema asks for.
    WrongType,
    /// The number is an integer that the field cannot hold.
    OutOfRange,
    /// The object has a member that the schema does not know.
    UnknownField,
    /// The object lacks a member that the schema asks for.
    MissingField,
    /// The object has the same field under two names.
    DuplicateField,
    /// The string is not among the names of the enumeration.
    UnknownTag,
    /// The price amount is a string or a number that is no 64-bit integer.
    BadPrice,
}

/// The model of the outcome of a decoding.
pub open spec fn decoded<T: DeepView>(r: Result<T, DecodeError>) -> Result<T::V, DecodeError> {
    match r {
        Ok(value) => Ok(value.deep_view()),
        Err(e) => Err(e),
    }
}

/// A value that can be decoded from a JSON document.
pub trait Decode: Sized + DeepView {
    /// The value that the document `j` stands for, or why it stands for none.
    spec fn spec_decode(j: Json) -> Result<Self::V, DecodeError>;

    /// Decodes `v`.
    fn decode(v: &JsonValue) -> (r: Result<Self, DecodeError>)
        ensures
            decoded(r) == Self::spec_decode(v@),
    ;
}

/// Whether every member of `members` has one of the names `names`.
pub open spec fn all_known(members: Seq<(Seq<char>, Json)>, names: Seq<Seq<char>>) -> bool {
    forall|i: int| 0 <= i < members.len() ==> names.contains(#[trigger] members[i].0)
}

/// The characters of each of `names`.
pub open spec fn names_model(names: Seq<&'static str>) -> Seq<Seq<char>> {
    Seq::new(names.len(), |i: int| names[i]@)
}

/// The members of the object `j`, which may be named by `names` only.
pub open spec fn spec_members(j: Json, names: Seq<Seq<char>>) -> Result<
    Seq<(Seq<char>, Json)>,
    DecodeError,
> {
    match j {
        Json::Object(members) => if all_known(members, names) {
            Ok(members)
        } else {
            Err(DecodeError::UnknownField)
        },
        _ => Err(DecodeError::WrongType),
    }
}

fn is_known(name: &str, names: &[&'static str]) -> (r: bool)
    ensures
        r == names_model(names@).contains(name@),
{
    let mut i: usize = 0;
    while i < names.len()
        invariant
            i <= names.len(),
            forall|k: int| 0 <= k < i ==> names@[k]@ != name@,
        decreases names.len() - i,
    {
        if same_text(names[i], name) {
            assert(names_model(names@)[i as int] == name@);
            return true;
        }
        i += 1;
    }
    false
}

/// The members of the object `v`, which may be named by `names` only.
pub fn members_of<'a>(v: &'a JsonValue, names: &[&'static str]) -> (r: Result<
    &'a Vec<(String, JsonValue)>,
    DecodeError,
>)
    ensures
        match r {
            Ok(members) => spec_members(v@, names_model(names@)) == Ok::<_, DecodeError>(
                members_model(members@),
            ),
            Err(e) => spec_members(v@, names_model(names@)) == Err::<Seq<(Seq<char>, Json)>, _>(e),
        },
{
    proof {
        lemma_view_unfolds(*v);
    }
    match v {
        JsonValue::Object(members) => {
            let mut i: usize = 0;
            while i < members.len()
                invariant
                    i <= members.len(),
                    v@ == Json::Object(members_model(members@)),
                    forall|k: int|
                        0 <= k < i ==> names_model(names@).contains(
                            #[trigger] members_model(members@)[k].0,
                        ),
                decreases members.len() - i,
            {
                if !is_known(members[i].0.as_str(), names) {
                    assert(!names_model(names@).contains(members_model(members@)[i as int].0));
                    return Err(DecodeError::UnknownField);
                }
                i += 1;
            }
            Ok(members)
        },
        _ => Err(DecodeError::WrongType),
    }
}

/// The value of the member `key`, which has to be there.
pub open spec fn spec_required<T: Decode>(members: Seq<(Seq<char>, Json)>, key: Seq<char>) -> Result<
    T::V,
    DecodeError,
> {
    match lookup(members, key) {
        Some(j) => T::spec_decode(j),
        None => Err(DecodeError::MissingField),
    }
}

/// The value of the member `key`, which has to be there.
pub fn required<T: Decode>(members: &Vec<(String, JsonValue)>, key: &str) -> (r: Result<
    T,
    DecodeError,
>)
    ensures
        decoded(r) == spec_required::<T>(members_model(members@), key@),
{
    match JsonValue::member(members, key) {
        Some(v) => T::decode(v),
        None => Err(DecodeError::MissingField),
    }
}

/// The value of the member `key`, which may be left out or be `null`.
pub open spec fn spec_optional<T: Decode>(members: Seq<(Seq<char>, Json)>, key: Seq<char>) -> Result<
    Option<T::V>,
    DecodeError,
> {
    match lookup(members, key) {
        None | Some(Json::Null) => Ok(None),
        Some(j) => match T::spec_decode(j) {
            Ok(value) => Ok(Some(value)),
            Err(e) => Err(e),
        },
    }
}

/// The value of the member `key`, which may be left out or be `null`.
pub fn optional<T: Decode>(members: &Vec<(String, JsonValue)>, key: &str) -> (r: Result<
    Option<T>,
    DecodeError,
>)
    ensures
        decoded(r) == spec_optional::<T>(members_model(members@), key@),
{
    match JsonValue::member(members, key) {
        None => Ok(None),
        Some(JsonValue::Null) => Ok(None),
        Some(v) => match T::decode(v) {
            Ok(value) => Ok(Some(value)),
            Err(e) => Err(e),
        },
    }
}

impl Decode for String {
    open spec fn spec_decode(j: Json) -> Result<Seq<char>, DecodeError> {
        match j {
            Json::String(s) => Ok(s),
            _ => Err(DecodeError::WrongType),
        }
    }

    fn decode(v: &JsonValue) -> (r: Result<String, DecodeError>) {
        match v {
            JsonValue::String(s) => Ok(s.clone()),
            _ => Err(DecodeError::WrongType),
        }
    }
}

impl Decode for bool {
    open spec fn spec_decode(j: Json) -> Result<bool, DecodeError> {
        match j {
            Json::Bool(b) => Ok(b),
            _ => Err(DecodeError::WrongType),
        }
    }

    fn decode(v: &JsonValue) -> (r: Result<bool, DecodeError>) {
        match v {
            JsonValue::Bool(b) => Ok(*b),
            _ => Err(DecodeError::WrongType),
        }
    }
}

impl Decode for JsonNumber {
    open spec fn spec_decode(j: Json) -> Result<JsonNumber, DecodeError> {
        match j {
            Json::Number(n) => Ok(n),
            _ => Err(DecodeError::WrongType),
        }
    }

    fn decode(v: &JsonValue) -> (r: Result<JsonNumber, DecodeError>) {
        match v {
            JsonValue::Number(n) => Ok(*n),
            _ => Err(DecodeError::WrongType),
        }
    }
}

/// The integer that `n` holds, where an `i32` can hold it. A float is no
/// integer, whatever its value.
pub open spec fn spec_i32(n: JsonNumber) -> Result<i32, DecodeError> {
    match n {
        JsonNumber::PosInt(u) => if u <= i32::MAX {
            Ok(u as i32)
        } else {
            Err(DecodeError::OutOfRange)
        },
        JsonNumber::NegInt(i) => if i32::MIN <= i <= i32::MAX {
            Ok(i as i32)
        } else {
            Err(DecodeError::OutOfRange)
        },
        JsonNumber::Float(_) => Err(DecodeError::WrongType),
    }
}

impl Decode for i32 {
    open spec fn spec_decode(j: Json) -> Result<i32, DecodeError> {
        match j {
            Json::Number(n) => spec_i32(n),
            _ => Err(DecodeError::WrongType),
        }
    }

    fn decode(v: &JsonValue) -> (r: Result<i32, DecodeError>) {
        match v {
            JsonValue::Number(JsonNumber::PosInt(u)) => if *u <= i32::MAX as u64 {
                Ok(*u as i32)
            } else {
                Err(DecodeError::OutOfRange)
            },
            JsonValue::Number(JsonNumber::NegInt(i)) => if i32::MIN as i64 <= *i && *i
                <= i32::MAX as i64 {
                Ok(*i as i32)
            } else {
                Err(DecodeError::OutOfRange)
            },
            JsonValue::Number(JsonNumber::Float(_)) => Err(DecodeError::WrongType),
            _ => Err(DecodeError::WrongType),
        }
    }
}

impl Decode for JsonValue {
    /// A value that the schema leaves open is carried as it came.
    open spec fn spec_decode(j: Json) -> Result<Json, DecodeError> {
        Ok(j)
    }

    fn decode(v: &JsonValue) -> (r: Result<JsonValue, DecodeError>) {
        Ok(v.clone())
    }
}

/// The values that the items `items` stand for, in order, or the error of
/// the first item that stands for none.
pub open spec fn spec_items<T: Decode>(items: Seq<Json>) -> Result<Seq<T::V>, DecodeError>
    decreases items.len(),
{
    if items.len() == 0 {
        Ok(Seq::empty())
    } else {
        match spec_items::<T>(items.drop_last()) {
            Err(e) => Err(e),
            Ok(values) => match T::spec_decode(items.last()) {
                Err(e) => Err(e),
                Ok(value) => Ok(values.push(value)),
            },
        }
    }
}

proof fn lemma_items_error_stays<T: Decode>(items: Seq<Json>, k: int)
    requires
        0 <= k <= items.len(),
        spec_items::<T>(items.take(k)) is Err,
    ensures
        spec_items::<T>(items) == spec_items::<T>(items.take(k)),
    decreases items.len() - k,
{
    if k < items.len() {
        assert(items.take(k + 1).drop_last() == items.take(k));
        lemma_items_error_stays::<T>(items, k + 1);
    } else {
        assert(items.take(k) == items);
    }
}

impl<T: Decode> Decode for Vec<T> {
    open spec fn spec_decode(j: Json) -> Result<Seq<T::V>, DecodeError> {
        match j {
            Json::Array(items) => spec_items::<T>(items),
            _ => Err(DecodeError::WrongType),
        }
    }

    fn decode(v: &JsonValue) -> (r: Result<Vec<T>, DecodeError>) {
        proof {
            lemma_view_unfolds(*v);
        }
        match v {
            JsonValue::Array(items) => {
                let ghost model = items_model(items@);
                let mut out: Vec<T> = Vec::new();
                assert(out.deep_view() =~= Seq::<T::V>::empty());
                let mut i: usize = 0;
                while i < items.len()
                    invariant
                        i <= items.len(),
                        model == items_model(items@),
                        v@ == Json::Array(model),
                        spec_items::<T>(model.take(i as int)) == Ok::<_, DecodeError>(
                            out.deep_view(),
                        ),
                    decreases items.len() - i,
                {
                    assert(model.take(i + 1).drop_last() == model.take(i as int));
                    assert(model.take(i + 1).last() == items@[i as int]@);
                    match T::decode(&items[i]) {
                        Ok(value) => {
                            let ghost before = out.deep_view();
                            out.push(value);
                            assert(out.deep_view() =~= before.push(value.deep_view()));
                        },
                        Err(e) => {
                            proof {
                                lemma_items_error_stays::<T>(model, i + 1);
                            }
                            return Err(e);
                        },
                    }
                    i += 1;
                }
                assert(model.take(i as int) == model);
                Ok(out)
            },
            _ => Err(DecodeError::WrongType),
        }
    }
}

/// The entities that the members `members` stand for, each under the name
/// of its member, or the error of the first member that stands for none.
/// Of two members with one name the later counts.
pub open spec fn spec_entries<T: Decode>(members: Seq<(Seq<char>, Json)>) -> Result<
    Map<Seq<char>, T::V>,
    DecodeError,
>
    decreases members.len(),
{
    if members.len() == 0 {
        Ok(Map::empty())
    } else {
        match spec_entries::<T>(members.drop_last()) {
            Err(e) => Err(e),
            Ok(entries) => match T::spec_decode(members.last().1) {
                Err(e) => Err(e),
                Ok(value) => Ok(entries.insert(members.last().0, value)),
            },
        }
    }
}

proof fn lemma_entries_error_stays<T: Decode>(members: Seq<(Seq<char>, Json)>, k: int)
    requires
        0 <= k <= members.len(),
        spec_entries::<T>(members.take(k)) is Err,
    ensures
        spec_entries::<T>(members) == spec_entries::<T>(members.take(k)),
    decreases members.len() - k,
{
    if k < members.len() {
        assert(members.take(k + 1).drop_last() == members.take(k));
        lemma_entries_error_stays::<T>(members, k + 1);
    } else {
        assert(members.take(k) == members);
    }
}

impl<T: Decode> Decode for Table<T> {
    open spec fn spec_decode(j: Json) -> Result<Map<Seq<char>, T::V>, DecodeError> {
        match j {
            Json::Object(members) => spec_entries::<T>(members),
            _ => Err(DecodeError::WrongType),
        }
    }

    fn decode(v: &JsonValue) -> (r: Result<Table<T>, DecodeError>) {
        proof {
            lemma_view_unfolds(*v);
        }
        match v {
            JsonValue::Object(members) => {
                let ghost model = members_model(members@);
                let mut out: Table<T> = Table::new();
                assert(out.deep_view() =~= Map::<Seq<char>, T::V>::empty());
                let mut i: usize = 0;
                while i < members.len()
                    invariant
                        i <= members.len(),
                        model == members_model(members@),
                        v@ == Json::Object(model),
                        spec_entries::<T>(model.take(i as int)) == Ok::<_, DecodeError>(
                            out.deep_view(),
                        ),
                    decreases members.len() - i,
                {
                    assert(model.take(i + 1).drop_last() == model.take(i as int));
                    assert(model.take(i + 1).last() == (members@[i as int].0@, members@[i as int].1@));
                    match T::decode(&members[i].1) {
                        Ok(value) => {
                            let ghost before = out.deep_view();
                            out.insert(members[i].0.clone(), value);
                            assert(out.deep_view() =~= before.insert(
                                members@[i as int].0@,
                                value.deep_view(),
                            ));
                        },
                        Err(e) => {
                            proof {
                                lemma_entries_error_stays::<T>(model, i + 1);
                            }
                            return Err(e);
                        },
                    }
                    i += 1;
                }
                assert(model.take(i as int) == model);
                Ok(out)
            },
            _ => Err(DecodeError::WrongType),
        }
    }
}

} // verus!
