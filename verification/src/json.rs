//! A JSON document as a tree of plain values, and its mathematical model.

use vstd::prelude::*;

verus! {

/// A JSON number: a non-negative integer, a negative integer, or a
/// double-precision float carried as its IEEE-754 bit pattern.
#[derive(Clone, Copy, Debug, PartialEq, Eq, Structural)]
pub enum JsonNumber {
    PosInt(u64),
    NegInt(i64),
    Float(u64),
}

/// A JSON document. An object is the list of its members in document order;
/// where a name occurs twice, the later member is the one that counts.
#[derive(Debug, PartialEq)]
pub enum JsonValue {
    Null,
    Bool(bool),
    Number(JsonNumber),
    String(String),
    Array(Vec<JsonValue>),
    Object(Vec<(String, JsonValue)>),
}

/// The mathematical model of a JSON document.
pub ghost enum Json {
    Null,
    Bool(bool),
    Number(JsonNumber),
    String(Seq<char>),
    Array(Seq<Json>),
    Object(Seq<(Seq<char>, Json)>),
}

/// The model of a document.
pub open spec fn json_model(v: JsonValue) -> Json
    decreases v, 0nat,
{
    match v {
        JsonValue::Null => Json::Null,
        JsonValue::Bool(b) => Json::Bool(b),
        JsonValue::Number(n) => Json::Number(n),
        JsonValue::String(s) => Json::String(s@),
        JsonValue::Array(items) => Json::Array(items_model_upto(items, items@.len())),
        JsonValue::Object(members) => Json::Object(members_model_upto(members, members@.len())),
    }
}

/// The models of the first `n` items of an array.
pub open spec fn items_model_upto(items: Vec<JsonValue>, n: nat) -> Seq<Json>
    decreases items, n,
{
    if n == 0 || n > items@.len() {
        Seq::empty()
    } else {
        items_model_upto(items, (n - 1) as nat).push(json_model(items@[n - 1]))
    }
}

/// The models of the first `n` members of an object.
pub open spec fn members_model_upto(members: Vec<(String, JsonValue)>, n: nat) -> Seq<
    (Seq<char>, Json),
>
    decreases members, n,
{
    if n == 0 || n > members@.len() {
        Seq::empty()
    } else {
        members_model_upto(members, (n - 1) as nat).push(
            (members@[n - 1].0@, json_model(members@[n - 1].1)),
        )
    }
}

impl View for JsonValue {
    type V = Json;

    open spec fn view(&self) -> Json {
        json_model(*self)
    }
}

impl DeepView for JsonValue {
    type V = Json;

    open spec fn deep_view(&self) -> Json {
        json_model(*self)
    }
}

impl DeepView for JsonNumber {
    type V = JsonNumber;

    open spec fn deep_view(&self) -> JsonNumber {
        *self
    }
}

/// The value of the last member named `key`, if there is one.
pub open spec fn lookup(members: Seq<(Seq<char>, Json)>, key: Seq<char>) -> Option<Json>
    decreases members.len(),
{
    if members.len() == 0 {
        None
    } else if members.last().0 == key {
        Some(members.last().1)
    } else {
        lookup(members.drop_last(), key)
    }
}

/// The models of the items of an array, in order.
pub open spec fn items_model(items: Seq<JsonValue>) -> Seq<Json> {
    Seq::new(items.len(), |i: int| items[i]@)
}

/// The models of the members of an object, in order.
pub open spec fn members_model(members: Seq<(String, JsonValue)>) -> Seq<(Seq<char>, Json)> {
    Seq::new(members.len(), |i: int| (members[i].0@, members[i].1@))
}

proof fn lemma_items_model_upto(items: Vec<JsonValue>, n: nat)
    requires
        n <= items@.len(),
    ensures
        items_model_upto(items, n) == items_model(items@.take(n as int)),
    decreases n,
{
    if n > 0 {
        lemma_items_model_upto(items, (n - 1) as nat);
        assert(items@.take(n - 1) == items@.take(n as int).drop_last());
    }
    assert(items_model_upto(items, n) =~= items_model(items@.take(n as int)));
}

proof fn lemma_members_model_upto(members: Vec<(String, JsonValue)>, n: nat)
    requires
        n <= members@.len(),
    ensures
        members_model_upto(members, n) == members_model(members@.take(n as int)),
    decreases n,
{
    if n > 0 {
        lemma_members_model_upto(members, (n - 1) as nat);
        assert(members@.take(n - 1) == members@.take(n as int).drop_last());
    }
    assert(members_model_upto(members, n) =~= members_model(members@.take(n as int)));
}

/// The model of an array is the array of its items' models, and the model of
/// an object the list of its members' models.
pub proof fn lemma_view_unfolds(v: JsonValue)
    ensures
        v matches JsonValue::Array(items) ==> v@ == Json::Array(items_model(items@)),
        v matches JsonValue::Object(members) ==> v@ == Json::Object(members_model(members@)),
{
    match v {
        JsonValue::Array(items) => {
            lemma_items_model_upto(items, items@.len());
            assert(items@.take(items@.len() as int) == items@);
        },
        JsonValue::Object(members) => {
            lemma_members_model_upto(members, members@.len());
            assert(members@.take(members@.len() as int) == members@);
        },
        _ => {},
    }
}

/// `str`'s `==`: two strings are equal when they hold the same characters.
#[verifier::external_body]
pub(crate) fn same_text(a: &str, b: &str) -> (res: bool)
    ensures
        res == (a@ == b@),
{
    a == b
}

/// The JSON number that holds the integer `v`.
pub open spec fn integer_number(v: int) -> JsonNumber {
    if v >= 0 {
        JsonNumber::PosInt(v as u64)
    } else {
        JsonNumber::NegInt(v as i64)
    }
}

impl JsonNumber {
    /// The number that holds `v`.
    pub fn from_i64(v: i64) -> (r: JsonNumber)
        ensures
            r == integer_number(v as int),
    {
        if v >= 0 {
            JsonNumber::PosInt(v as u64)
        } else {
            JsonNumber::NegInt(v)
        }
    }

    /// The integer that the number holds, where it holds one that an `i64`
    /// can hold.
    pub open spec fn spec_as_i64(self) -> Option<i64> {
        match self {
            JsonNumber::PosInt(n) => if n <= i64::MAX {
                Some(n as i64)
            } else {
                None
            },
            JsonNumber::NegInt(n) => Some(n),
            JsonNumber::Float(_) => None,
        }
    }

    /// The integer that the number holds, where it holds one that an `i64`
    /// can hold.
    pub fn as_i64(&self) -> (r: Option<i64>)
        ensures
            r == self.spec_as_i64(),
    {
        match *self {
            JsonNumber::PosInt(n) => if n <= i64::MAX as u64 {
                Some(n as i64)
            } else {
                None
            },
            JsonNumber::NegInt(n) => Some(n),
            JsonNumber::Float(_) => None,
        }
    }
}

impl Clone for JsonValue {
    /// A copy of the document.
    fn clone(&self) -> (r: JsonValue)
        ensures
            r@ == self@,
        decreases self,
    {
        proof {
            lemma_view_unfolds(*self);
        }
        let r = match self {
            JsonValue::Null => JsonValue::Null,
            JsonValue::Bool(b) => JsonValue::Bool(*b),
            JsonValue::Number(n) => JsonValue::Number(*n),
            JsonValue::String(s) => JsonValue::String(s.clone()),
            JsonValue::Array(items) => {
                let mut out: Vec<JsonValue> = Vec::new();
                let mut i: usize = 0;
                assert forall|k: int| 0 <= k < items@.len() implies decreases_to!(self => #[trigger] items@[k]) by {
                    broadcast use vstd::std_specs::vec::axiom_vec_index_decreases;

                    assert(decreases_to!(items => items@[k]));
                }
                while i < items.len()
                    invariant
                        i <= items.len(),
                        out@.len() == i,
                        forall|k: int| 0 <= k < items@.len() ==> decreases_to!(self => #[trigger] items@[k]),
                        forall|k: int| 0 <= k < i ==> (#[trigger] out@[k])@ == items@[k]@,
                    decreases items.len() - i,
                {
                    out.push(items[i].clone());
                    i += 1;
                }
                assert(items_model(out@) =~= items_model(items@));
                JsonValue::Array(out)
            },
            JsonValue::Object(members) => {
                let mut out: Vec<(String, JsonValue)> = Vec::new();
                let mut i: usize = 0;
                assert forall|k: int| 0 <= k < members@.len() implies decreases_to!(self => (#[trigger] members@[k]).1) by {
                    broadcast use vstd::std_specs::vec::axiom_vec_index_decreases;

                    assert(decreases_to!(members => members@[k]));
                    assert(decreases_to!(members@[k] => members@[k].1));
                }
                while i < members.len()
                    invariant
                        i <= members.len(),
                        out@.len() == i,
                        forall|k: int| 0 <= k < members@.len() ==> decreases_to!(self => (#[trigger] members@[k]).1),
                        forall|k: int|
                            0 <= k < i ==> (#[trigger] out@[k]).0@ == members@[k].0@ && out@[k].1@
                                == members@[k].1@,
                    decreases members.len() - i,
                {
                    out.push((members[i].0.clone(), members[i].1.clone()));
                    i += 1;
                }
                assert(members_model(out@) =~= members_model(members@));
                JsonValue::Object(out)
            },
        };
        proof {
            lemma_view_unfolds(r);
        }
        r
    }
}

impl JsonValue {
    /// A JSON string with the characters of `text`.
    pub fn string(text: &str) -> (r: JsonValue)
        ensures
            r@ == Json::String(text@),
    {
        JsonValue::String(text.to_owned())
    }

    /// The JSON number that holds `v`.
    pub fn integer(v: i64) -> (r: JsonValue)
        ensures
            r@ == Json::Number(integer_number(v as int)),
    {
        JsonValue::Number(JsonNumber::from_i64(v))
    }

    /// The last member named `key` of a member list.
    pub fn member<'a>(members: &'a Vec<(String, JsonValue)>, key: &str) -> (res: Option<&'a JsonValue>)
        ensures
            match res {
                Some(v) => lookup(members_model(members@), key@) == Some(v@),
                None => lookup(members_model(members@), key@) is None,
            },
    {
        let mut found: Option<&'a JsonValue> = None;
        let ghost model = members_model(members@);
        let mut i: usize = 0;
        while i < members.len()
            invariant
                i <= members.len(),
                model == members_model(members@),
                match found {
                    Some(v) => lookup(model.take(i as int), key@) == Some(v@),
                    None => lookup(model.take(i as int), key@) is None,
                },
            decreases members.len() - i,
        {
            assert(model.take(i + 1).drop_last() == model.take(i as int));
            if same_text(members[i].0.as_str(), key) {
                found = Some(&members[i].1);
            }
            i += 1;
        }
        assert(model.take(i as int) == model);
        found
    }
}

} // verus!
