//! JSON documents, as the newer dialect of the developer portal speaks them.
//!
//! `JsonValue` is the value the library computes on, `Json` what it means.
//! Reading and writing the text is left to the `serde_json` crate.

use vstd::prelude::*;
use crate::text::str_equal;

verus! {

/// `serde_json::Value`, known by name only: what is inside is never looked at.
#[verifier::external_type_specification]
#[verifier::external_body]
pub struct ExJsonValue(serde_json::Value);

/// A JSON value. An object keeps its members in the order given; where a
/// name stands twice, the first member is the one that counts. A number that
/// is no integer is kept as the text in which JSON writes it.
#[derive(Debug)]
pub enum JsonValue {
    Null,
    Bool(bool),
    Integer(i64),
    Unsigned(u64),
    Number(String),
    String(String),
    Array(Vec<JsonValue>),
    Object(Vec<(String, JsonValue)>),
}

/// What a member of an object means.
pub struct Member {
    pub name: Seq<char>,
    pub value: Json,
}

/// What a JSON value means.
pub enum Json {
    Null,
    Bool(bool),
    Integer(int),
    Number(Seq<char>),
    String(Seq<char>),
    Array(Seq<Json>),
    Object(Seq<Member>),
}

impl View for JsonValue {
    type V = Json;

    open spec fn view(&self) -> Json
        decreases self,
    {
        match self {
            JsonValue::Null => Json::Null,
            JsonValue::Bool(b) => Json::Bool(*b),
            JsonValue::Integer(i) => Json::Integer(*i as int),
            JsonValue::Unsigned(u) => Json::Integer(*u as int),
            JsonValue::Number(n) => Json::Number(n@),
            JsonValue::String(s) => Json::String(s@),
            JsonValue::Array(items) => Json::Array(
                Seq::new(
                    items@.len(),
                    |i: int|
                        if 0 <= i < items@.len() {
                            items@[i].view()
                        } else {
                            Json::Null
                        },
                ),
            ),
            JsonValue::Object(members) => Json::Object(
                Seq::new(
                    members@.len(),
                    |i: int|
                        if 0 <= i < members@.len() {
                            Member { name: members@[i].0@, value: members@[i].1.view() }
                        } else {
                            Member { name: Seq::empty(), value: Json::Null }
                        },
                ),
            ),
        }
    }
}

/// What a list of values means.
pub open spec fn json_items(items: Seq<JsonValue>) -> Seq<Json> {
    Seq::new(items.len(), |i: int| items[i]@)
}

/// What a list of members means.
pub open spec fn json_members(members: Seq<(String, JsonValue)>) -> Seq<Member> {
    Seq::new(members.len(), |i: int| Member { name: members[i].0@, value: members[i].1@ })
}

/// An array means the meanings of its items, an object those of its members.
pub proof fn lemma_json_unfold(v: JsonValue)
    ensures
        v matches JsonValue::Array(items) ==> v@ == Json::Array(json_items(items@)),
        v matches JsonValue::Object(members) ==> v@ == Json::Object(json_members(members@)),
{
    match v {
        JsonValue::Array(items) => {
            assert(v@->Array_0 =~= json_items(items@));
        },
        JsonValue::Object(members) => {
            assert(v@->Object_0 =~= json_members(members@));
        },
        _ => {},
    }
}

/// A member's meaning, from its name and its value's meaning.
pub open spec fn member(name: Seq<char>, value: Json) -> Member {
    Member { name, value }
}

/// The value of the first member with the given name.
pub open spec fn member_named(members: Seq<Member>, name: Seq<char>) -> Option<Json>
    decreases members.len(),
{
    if members.len() == 0 {
        None
    } else if members[0].name == name {
        Some(members[0].value)
    } else {
        member_named(members.skip(1), name)
    }
}

/// Where no member before `i` has the name, the search goes on from `i`.
pub proof fn lemma_member_skip(members: Seq<Member>, name: Seq<char>, i: int)
    requires
        0 <= i <= members.len(),
        forall|j: int| 0 <= j < i ==> members[j].name != name,
    ensures
        member_named(members, name) == member_named(members.skip(i), name),
    decreases i,
{
    if i == 0 {
        assert(members.skip(0) =~= members);
    } else {
        lemma_member_skip(members.skip(1), name, i - 1);
        assert(members.skip(1).skip(i - 1) =~= members.skip(i));
    }
}

/// The value under `name` where `j` is an object that has the member.
pub open spec fn json_get(j: Json, name: Seq<char>) -> Option<Json> {
    match j {
        Json::Object(members) => member_named(members, name),
        _ => None,
    }
}

/// The text where `j` is a string.
pub open spec fn json_string(j: Json) -> Option<Seq<char>> {
    match j {
        Json::String(s) => Some(s),
        _ => None,
    }
}

/// The first item where `j` is an array that is not empty.
pub open spec fn json_first(j: Json) -> Option<Json> {
    match j {
        Json::Array(items) => if items.len() > 0 {
            Some(items[0])
        } else {
            None
        },
        _ => None,
    }
}

impl JsonValue {
    /// The value under `name`, where this is an object that has the member.
    pub fn get(&self, name: &str) -> (r: Option<&JsonValue>)
        ensures
            match r {
                Some(v) => json_get(self@, name@) == Some(v@),
                None => json_get(self@, name@) is None,
            },
    {
        match self {
            JsonValue::Object(members) => {
                proof {
                    lemma_json_unfold(*self);
                }
                let ghost ms = json_members(members@);
                let mut i: usize = 0;
                while i < members.len()
                    invariant
                        i <= members.len(),
                        ms == json_members(members@),
                        self@ == Json::Object(ms),
                        forall|j: int| 0 <= j < i ==> ms[j].name != name@,
                    decreases members.len() - i,
                {
                    if str_equal(members[i].0.as_str(), name) {
                        proof {
                            lemma_member_skip(ms, name@, i as int);
                        }
                        return Some(&members[i].1);
                    }
                    i = i + 1;
                }
                proof {
                    lemma_member_skip(ms, name@, ms.len() as int);
                }
                None
            },
            _ => None,
        }
    }

    /// The text, where this is a string.
    pub fn as_str(&self) -> (r: Option<&String>)
        ensures
            match r {
                Some(s) => json_string(self@) == Some(s@),
                None => json_string(self@) is None,
            },
    {
        match self {
            JsonValue::String(s) => Some(s),
            _ => None,
        }
    }

    /// The first item, where this is an array that is not empty.
    pub fn first(&self) -> (r: Option<&JsonValue>)
        ensures
            match r {
                Some(v) => json_first(self@) == Some(v@),
                None => json_first(self@) is None,
            },
    {
        proof {
            lemma_json_unfold(*self);
        }
        match self {
            JsonValue::Array(items) => {
                if items.len() > 0 {
                    Some(&items[0])
                } else {
                    None
                }
            },
            _ => None,
        }
    }

    /// A string value.
    pub fn text(s: &str) -> (r: JsonValue)
        ensures
            r@ == Json::String(s@),
    {
        JsonValue::String(s.to_owned())
    }

    /// An object with the given members, in their order.
    pub fn object(members: Vec<(String, JsonValue)>) -> (r: JsonValue)
        ensures
            r@ == Json::Object(json_members(members@)),
    {
        let r = JsonValue::Object(members);
        proof {
            lemma_json_unfold(r);
        }
        r
    }

    /// An array with the given items, in their order.
    pub fn array(items: Vec<JsonValue>) -> (r: JsonValue)
        ensures
            r@ == Json::Array(json_items(items@)),
    {
        let r = JsonValue::Array(items);
        proof {
            lemma_json_unfold(r);
        }
        r
    }
}

/// Takes a number of the `serde_json` crate over: as `Integer` where `as_i64`
/// gives it, else as `Unsigned` where `as_u64` gives it, else as `Number`
/// with the text that the crate writes for it.
#[verifier::external_body]
fn number_from_outside(v: &serde_json::Value) -> JsonValue {
    match (v.as_i64(), v.as_u64()) {
        (Some(i), _) => JsonValue::Integer(i),
        (None, Some(u)) => JsonValue::Unsigned(u),
        (None, None) => JsonValue::Number(v.to_string()),
    }
}

/// Takes a `serde_json::Value` over into the library's type, variant by
/// variant, arrays and objects item by item in their order.
#[verifier::external_body]
fn json_from_outside(v: &serde_json::Value) -> JsonValue {
    match v {
        serde_json::Value::Null => JsonValue::Null,
        serde_json::Value::Bool(b) => JsonValue::Bool(*b),
        serde_json::Value::Number(_) => number_from_outside(v),
        serde_json::Value::String(s) => JsonValue::String(s.clone()),
        serde_json::Value::Array(a) => JsonValue::Array(a.iter().map(json_from_outside).collect()),
        serde_json::Value::Object(o) => JsonValue::Object(
            o.iter().map(|(k, x)| (k.clone(), json_from_outside(x))).collect(),
        ),
    }
}

/// Builds the `serde_json::Value` that a value of the library stands for,
/// variant by variant, the reverse of `json_from_outside`. The text of a
/// `Number` is read with `serde_json::from_str`; text that the crate cannot
/// read gives its default value, null. The members of an object are handed
/// to the crate in their order; the library hands over values in which no
/// name stands twice.
#[verifier::external_body]
fn json_to_outside(v: &JsonValue) -> serde_json::Value {
    match v {
        JsonValue::Null => serde_json::Value::Null,
        JsonValue::Bool(b) => serde_json::Value::Bool(*b),
        JsonValue::Integer(i) => serde_json::Value::from(*i),
        JsonValue::Unsigned(u) => serde_json::Value::from(*u),
        JsonValue::Number(n) => serde_json::from_str(n).unwrap_or_default(),
        JsonValue::String(s) => serde_json::Value::String(s.clone()),
        JsonValue::Array(a) => serde_json::Value::Array(a.iter().map(json_to_outside).collect()),
        JsonValue::Object(o) => serde_json::Value::Object(
            o.iter().map(|(k, x)| (k.clone(), json_to_outside(x))).collect(),
        ),
    }
}

/// What `serde_json::from_slice` reads from a document, or the words of the
/// error it reports.
pub uninterp spec fn json_document(bytes: Seq<u8>) -> Result<Json, Seq<char>>;

/// The text that `serde_json::to_vec` writes for a value, or the words of
/// the error it reports.
pub uninterp spec fn json_written(j: Json) -> Result<Seq<u8>, Seq<char>>;

/// Whether a member before position `i` has the name of the member at `i`.
pub open spec fn name_repeated(members: Seq<Member>, i: int) -> bool {
    exists|j: int| 0 <= j < i && (#[trigger] members[j]).name == members[i].name
}

/// The positions, among the first `n` members, of those whose name no
/// member before them has.
pub open spec fn first_members(members: Seq<Member>, n: int) -> Seq<int>
    decreases n,
{
    if n <= 0 {
        Seq::empty()
    } else if name_repeated(members, n - 1) {
        first_members(members, n - 1)
    } else {
        first_members(members, n - 1).push(n - 1)
    }
}

/// A value as it is written: in every object in it, of the members with
/// one name only the first stays, the one that a lookup reads.
pub open spec fn plain_json(j: Json) -> Json
    decreases j,
{
    match j {
        Json::Array(items) => Json::Array(
            Seq::new(
                items.len(),
                |i: int|
                    if 0 <= i < items.len() {
                        plain_json(items[i])
                    } else {
                        Json::Null
                    },
            ),
        ),
        Json::Object(members) => Json::Object(
            Seq::new(
                first_members(members, members.len() as int).len(),
                |i: int|
                    {
                        let at = first_members(members, members.len() as int)[i];
                        if 0 <= at < members.len() {
                            Member { name: members[at].name, value: plain_json(members[at].value) }
                        } else {
                            Member { name: Seq::empty(), value: Json::Null }
                        }
                    },
            ),
        ),
        _ => j,
    }
}

/// The text for a value, or the words of the error in writing it: what the
/// `serde_json` crate writes for the value made plain.
pub open spec fn json_text(j: Json) -> Result<Seq<u8>, Seq<char>> {
    json_written(plain_json(j))
}


/// `serde_json::from_slice` for a `serde_json::Value`: the value read, or
/// the crate's error in its own words.
#[verifier::external_body]
pub(crate) fn read_json(bytes: &[u8]) -> (r: Result<JsonValue, String>)
    ensures
        match r {
            Ok(v) => json_document(bytes@) == Ok::<Json, Seq<char>>(v@),
            Err(words) => json_document(bytes@) == Err::<Json, Seq<char>>(words@),
        },
{
    serde_json::from_slice::<serde_json::Value>(bytes)
        .map(|v| json_from_outside(&v))
        .map_err(|e| e.to_string())
}

/// `serde_json::to_vec`: the text of the value, or the crate's error in its
/// own words.
#[verifier::external_body]
pub(crate) fn write_json(v: &JsonValue) -> (r: Result<Vec<u8>, String>)
    ensures
        match r {
            Ok(bytes) => json_written(v@) == Ok::<Seq<u8>, Seq<char>>(bytes@),
            Err(words) => json_written(v@) == Err::<Seq<u8>, Seq<char>>(words@),
        },
{
    serde_json::to_vec(&json_to_outside(v)).map_err(|e| e.to_string())
}

impl JsonValue {
    /// Reads a JSON document.
    pub fn parse(bytes: &[u8]) -> (r: Result<JsonValue, String>)
        ensures
            match r {
                Ok(v) => json_document(bytes@) == Ok::<Json, Seq<char>>(v@),
                Err(words) => json_document(bytes@) == Err::<Json, Seq<char>>(words@),
            },
    {
        read_json(bytes)
    }

    /// Writes the value as JSON text.
    pub fn to_text(&self) -> (r: Result<Vec<u8>, String>)
        ensures
            match r {
                Ok(bytes) => json_text(self@) == Ok::<Seq<u8>, Seq<char>>(bytes@),
                Err(words) => json_text(self@) == Err::<Seq<u8>, Seq<char>>(words@),
            },
    {
        let made = self.plain_copy();
        write_json(&made)
    }

    /// A copy of the value as it is written: without the members whose name
    /// a member before them in the same object has.
    pub fn plain_copy(&self) -> (r: JsonValue)
        ensures
            r@ == plain_json(self@),
        decreases self,
    {
        proof {
            lemma_json_unfold(*self);
        }
        match self {
            JsonValue::Array(items) => {
                let mut out: Vec<JsonValue> = Vec::new();
                let mut i: usize = 0;
                while i < items.len()
                    invariant
                        i <= items.len(),
                        decreases_to!(self => items),
                        out.len() == i,
                        forall|j: int| 0 <= j < i ==> out@[j]@ == plain_json(items@[j]@),
                    decreases items.len() - i,
                {
                    proof {
                        vstd::std_specs::vec::axiom_vec_index_decreases(*items, i as int);
                    }
                    out.push(items[i].plain_copy());
                    i = i + 1;
                }
                let r = JsonValue::Array(out);
                proof {
                    lemma_json_unfold(r);
                    assert(self@ == Json::Array(json_items(items@)));
                    assert(plain_json(self@) is Array);
                    assert(plain_json(self@)->Array_0 =~= json_items(out@));
                }
                r
            },
            JsonValue::Object(members) => {
                let ghost ms = json_members(members@);
                let mut out: Vec<(String, JsonValue)> = Vec::new();
                let mut i: usize = 0;
                while i < members.len()
                    invariant
                        i <= members.len(),
                        decreases_to!(self => members),
                        ms == json_members(members@),
                        out.len() == first_members(ms, i as int).len(),
                        forall|m: int|
                            0 <= m < out.len() ==> 0 <= (#[trigger] first_members(ms, i as int)[m])
                                < i,
                        forall|m: int|
                            0 <= m < out.len() ==> (#[trigger] out@[m]).0@ == ms[first_members(
                                ms,
                                i as int,
                            )[m]].name && out@[m].1@ == plain_json(
                                ms[first_members(ms, i as int)[m]].value,
                            ),
                    decreases members.len() - i,
                {
                    proof {
                        vstd::std_specs::vec::axiom_vec_index_decreases(*members, i as int);
                    }
                    let repeated = name_stands_before(members, i);
                    proof {
                        if repeated {
                            let j = choose|j: int|
                                0 <= j < i && members@[j].0@ == members@[i as int].0@;
                            assert(ms[j].name == ms[i as int].name);
                        } else {
                            assert forall|j: int| 0 <= j < i implies (#[trigger] ms[j]).name
                                != ms[i as int].name by {
                                assert(members@[j].0@ != members@[i as int].0@);
                            }
                        }
                        assert(repeated == name_repeated(ms, i as int));
                    }
                    if !repeated {
                        out.push((members[i].0.clone(), members[i].1.plain_copy()));
                    }
                    i = i + 1;
                }
                let r = JsonValue::Object(out);
                proof {
                    lemma_json_unfold(r);
                    assert(self@ == Json::Object(ms));
                    assert(plain_json(self@) is Object);
                    assert(plain_json(self@)->Object_0 =~= json_members(out@));
                }
                r
            },
            JsonValue::Null => JsonValue::Null,
            JsonValue::Bool(b) => JsonValue::Bool(*b),
            JsonValue::Integer(i) => JsonValue::Integer(*i),
            JsonValue::Unsigned(u) => JsonValue::Unsigned(*u),
            JsonValue::Number(n) => JsonValue::Number(n.clone()),
            JsonValue::String(s) => JsonValue::String(s.clone()),
        }
    }
}

/// Whether a member before position `i` has the name of the member at `i`.
fn name_stands_before(members: &Vec<(String, JsonValue)>, i: usize) -> (r: bool)
    requires
        i < members.len(),
    ensures
        r == exists|j: int| 0 <= j < i && members@[j].0@ == members@[i as int].0@,
{
    let mut j: usize = 0;
    while j < i
        invariant
            j <= i < members.len(),
            forall|k: int| 0 <= k < j ==> members@[k].0@ != members@[i as int].0@,
        decreases i - j,
    {
        if str_equal(members[j].0.as_str(), members[i].0.as_str()) {
            return true;
        }
        j = j + 1;
    }
    false
}

} // verus!
