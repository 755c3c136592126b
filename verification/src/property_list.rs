//! Property lists: the structured documents in which the servers, the bundles
//! and the provisioning profiles speak.
//!
//! `PlistValue` is the value the library computes on. `Plist` is what such a
//! value means; contracts are stated over it. Reading and writing the encoded
//! forms is left to the `plist` crate.

use vstd::prelude::*;
use crate::text::str_equal;
use plist::Value;

verus! {

/// `plist::Value`, known by name only: what is inside is never looked at.
#[verifier::external_type_specification]
#[verifier::external_body]
pub struct ExPlistValue(plist::Value);

/// `Clone` for `plist::Value` is derived in the `plist` crate: the copy is the same value.
pub assume_specification[ <plist::Value as Clone>::clone ](v: &plist::Value) -> (r: plist::Value)
    ensures
        r == *v,
;

/// A property-list value. A dictionary keeps its entries in document order;
/// where a key stands twice, the first entry is the one that counts.
/// `Other` keeps a date, a real number or a uid as the `plist` crate holds it:
/// the library carries such values through and never reads them.
#[derive(Debug)]
pub enum PlistValue {
    Array(Vec<PlistValue>),
    Dictionary(Vec<(String, PlistValue)>),
    Boolean(bool),
    Data(Vec<u8>),
    Integer(i64),
    Unsigned(u64),
    String(String),
    Other(plist::Value),
}

/// What a dictionary entry means: a key and the meaning of its value.
pub struct Entry {
    pub key: Seq<char>,
    pub value: Plist,
}

/// What a property-list value means.
pub enum Plist {
    Array(Seq<Plist>),
    Dictionary(Seq<Entry>),
    Boolean(bool),
    Data(Seq<u8>),
    Integer(int),
    String(Seq<char>),
    Other(plist::Value),
}

impl View for PlistValue {
    type V = Plist;

    open spec fn view(&self) -> Plist
        decreases self,
    {
        match self {
            PlistValue::Array(items) => Plist::Array(
                Seq::new(
                    items@.len(),
                    |i: int|
                        if 0 <= i < items@.len() {
                            items@[i].view()
                        } else {
                            Plist::Boolean(false)
                        },
                ),
            ),
            PlistValue::Dictionary(entries) => Plist::Dictionary(
                Seq::new(
                    entries@.len(),
                    |i: int|
                        if 0 <= i < entries@.len() {
                            Entry { key: entries@[i].0@, value: entries@[i].1.view() }
                        } else {
                            Entry { key: Seq::empty(), value: Plist::Boolean(false) }
                        },
                ),
            ),
            PlistValue::Boolean(b) => Plist::Boolean(*b),
            PlistValue::Data(d) => Plist::Data(d@),
            PlistValue::Integer(i) => Plist::Integer(*i as int),
            PlistValue::Unsigned(u) => Plist::Integer(*u as int),
            PlistValue::String(s) => Plist::String(s@),
            PlistValue::Other(v) => Plist::Other(*v),
        }
    }
}

/// What a list of values means.
pub open spec fn items_view(items: Seq<PlistValue>) -> Seq<Plist> {
    Seq::new(items.len(), |i: int| items[i]@)
}

/// What a list of dictionary entries means.
pub open spec fn entries_view(entries: Seq<(String, PlistValue)>) -> Seq<Entry> {
    Seq::new(entries.len(), |i: int| Entry { key: entries[i].0@, value: entries[i].1@ })
}

/// An array means the meanings of its items, a dictionary those of its entries.
pub proof fn lemma_view_unfold(v: PlistValue)
    ensures
        v matches PlistValue::Array(items) ==> v@ == Plist::Array(items_view(items@)),
        v matches PlistValue::Dictionary(entries) ==> v@ == Plist::Dictionary(
            entries_view(entries@),
        ),
{
    match v {
        PlistValue::Array(items) => {
            assert(v@->Array_0 =~= items_view(items@));
        },
        PlistValue::Dictionary(entries) => {
            assert(v@->Dictionary_0 =~= entries_view(entries@));
        },
        _ => {},
    }
}

/// The value of the first entry with the given key.
pub open spec fn lookup(entries: Seq<Entry>, key: Seq<char>) -> Option<Plist>
    decreases entries.len(),
{
    if entries.len() == 0 {
        None
    } else if entries[0].key == key {
        Some(entries[0].value)
    } else {
        lookup(entries.skip(1), key)
    }
}

/// The entries with `key` bound to `value`: in place of the first entry with
/// that key, or at the end where there is none.
pub open spec fn with_entry(
    entries: Seq<Entry>,
    key: Seq<char>,
    value: Plist,
) -> Seq<Entry>
    decreases entries.len(),
{
    if entries.len() == 0 {
        seq![Entry { key, value }]
    } else if entries[0].key == key {
        entries.update(0, Entry { key, value })
    } else {
        seq![entries[0]] + with_entry(entries.skip(1), key, value)
    }
}

/// Where no entry before `i` has the key, the lookup goes on from `i`.
pub proof fn lemma_lookup_skip(entries: Seq<Entry>, key: Seq<char>, i: int)
    requires
        0 <= i <= entries.len(),
        forall|j: int| 0 <= j < i ==> entries[j].key != key,
    ensures
        lookup(entries, key) == lookup(entries.skip(i), key),
    decreases i,
{
    if i == 0 {
        assert(entries.skip(0) =~= entries);
    } else {
        lemma_lookup_skip(entries.skip(1), key, i - 1);
        assert(entries.skip(1).skip(i - 1) =~= entries.skip(i));
    }
}

/// Where no entry before `i` has the key, the entries before `i` stay and the
/// binding is made in the rest.
pub proof fn lemma_with_entry_skip(
    entries: Seq<Entry>,
    key: Seq<char>,
    value: Plist,
    i: int,
)
    requires
        0 <= i <= entries.len(),
        forall|j: int| 0 <= j < i ==> entries[j].key != key,
    ensures
        with_entry(entries, key, value) == entries.take(i) + with_entry(
            entries.skip(i),
            key,
            value,
        ),
    decreases i,
{
    if i == 0 {
        assert(entries.skip(0) =~= entries);
        assert(entries.take(0) + with_entry(entries, key, value) =~= with_entry(
            entries,
            key,
            value,
        ));
    } else {
        lemma_with_entry_skip(entries.skip(1), key, value, i - 1);
        assert(entries.skip(1).skip(i - 1) =~= entries.skip(i));
        assert(seq![entries[0]] + entries.skip(1).take(i - 1) =~= entries.take(i));
        assert(seq![entries[0]] + (entries.skip(1).take(i - 1) + with_entry(
            entries.skip(i),
            key,
            value,
        )) =~= entries.take(i) + with_entry(entries.skip(i), key, value));
    }
}

/// The value under `key` where `p` is a dictionary that has the key.
pub open spec fn plist_get(p: Plist, key: Seq<char>) -> Option<Plist> {
    match p {
        Plist::Dictionary(entries) => lookup(entries, key),
        _ => None,
    }
}

/// The text where `p` is a string.
pub open spec fn plist_string(p: Plist) -> Option<Seq<char>> {
    match p {
        Plist::String(s) => Some(s),
        _ => None,
    }
}

/// The bytes where `p` is data.
pub open spec fn plist_data(p: Plist) -> Option<Seq<u8>> {
    match p {
        Plist::Data(d) => Some(d),
        _ => None,
    }
}

/// The number where `p` is an integer that a signed 64-bit integer holds.
pub open spec fn plist_signed(p: Plist) -> Option<int> {
    match p {
        Plist::Integer(i) => if i64::MIN <= i <= i64::MAX {
            Some(i)
        } else {
            None
        },
        _ => None,
    }
}

/// The text under `key` where `p` is a dictionary that holds a string there.
pub open spec fn plist_get_string(p: Plist, key: Seq<char>) -> Option<Seq<char>> {
    match plist_get(p, key) {
        Some(v) => plist_string(v),
        None => None,
    }
}

/// The bytes under `key` where `p` is a dictionary that holds data there.
pub open spec fn plist_get_data(p: Plist, key: Seq<char>) -> Option<Seq<u8>> {
    match plist_get(p, key) {
        Some(v) => plist_data(v),
        None => None,
    }
}

/// The number under `key` where `p` is a dictionary that holds a signed integer there.
pub open spec fn plist_get_signed(p: Plist, key: Seq<char>) -> Option<int> {
    match plist_get(p, key) {
        Some(v) => plist_signed(v),
        None => None,
    }
}

/// The position of the first entry with the given key.
pub fn find_key(entries: &Vec<(String, PlistValue)>, key: &str) -> (r: Option<usize>)
    ensures
        match r {
            Some(i) => i < entries.len() && entries@[i as int].0@ == key@ && forall|j: int|
                0 <= j < i ==> entries@[j].0@ != key@,
            None => forall|j: int| 0 <= j < entries.len() ==> entries@[j].0@ != key@,
        },
{
    let mut i: usize = 0;
    while i < entries.len()
        invariant
            i <= entries.len(),
            forall|j: int| 0 <= j < i ==> entries@[j].0@ != key@,
        decreases entries.len() - i,
    {
        if str_equal(entries[i].0.as_str(), key) {
            return Some(i);
        }
        i = i + 1;
    }
    None
}

impl Clone for PlistValue {
    fn clone(&self) -> (r: Self)
        ensures
            r@ == self@,
    {
        self.duplicate()
    }
}

impl PlistValue {
    /// A copy with the same meaning.
    pub fn duplicate(&self) -> (r: PlistValue)
        ensures
            r@ == self@,
        decreases self,
    {
        proof {
            lemma_view_unfold(*self);
        }
        match self {
            PlistValue::Array(items) => {
                let mut out: Vec<PlistValue> = Vec::new();
                let mut i: usize = 0;
                while i < items.len()
                    invariant
                        i <= items.len(),
                        decreases_to!(self => items),
                        out.len() == i,
                        forall|j: int| 0 <= j < i ==> out@[j]@ == items@[j]@,
                    decreases items.len() - i,
                {
                    proof {
                        vstd::std_specs::vec::axiom_vec_index_decreases(*items, i as int);
                    }
                    out.push(items[i].duplicate());
                    i = i + 1;
                }
                let r = PlistValue::Array(out);
                proof {
                    lemma_view_unfold(r);
                    assert(items_view(out@) =~= items_view(items@));
                }
                r
            },
            PlistValue::Dictionary(entries) => {
                let mut out: Vec<(String, PlistValue)> = Vec::new();
                let mut i: usize = 0;
                while i < entries.len()
                    invariant
                        i <= entries.len(),
                        decreases_to!(self => entries),
                        out.len() == i,
                        forall|j: int|
                            0 <= j < i ==> out@[j].0@ == entries@[j].0@ && out@[j].1@
                                == entries@[j].1@,
                    decreases entries.len() - i,
                {
                    proof {
                        vstd::std_specs::vec::axiom_vec_index_decreases(*entries, i as int);
                    }
                    out.push((entries[i].0.clone(), entries[i].1.duplicate()));
                    i = i + 1;
                }
                let r = PlistValue::Dictionary(out);
                proof {
                    lemma_view_unfold(r);
                    assert(entries_view(out@) =~= entries_view(entries@));
                }
                r
            },
            PlistValue::Boolean(b) => PlistValue::Boolean(*b),
            PlistValue::Data(d) => PlistValue::Data(d.clone()),
            PlistValue::Integer(i) => PlistValue::Integer(*i),
            PlistValue::Unsigned(u) => PlistValue::Unsigned(*u),
            PlistValue::String(s) => PlistValue::String(s.clone()),
            PlistValue::Other(v) => PlistValue::Other(v.clone()),
        }
    }

    /// The value under `key`, where this is a dictionary that has the key.
    pub fn get(&self, key: &str) -> (r: Option<&PlistValue>)
        ensures
            match r {
                Some(v) => plist_get(self@, key@) == Some(v@),
                None => plist_get(self@, key@) is None,
            },
    {
        match self {
            PlistValue::Dictionary(entries) => {
                proof {
                    lemma_view_unfold(*self);
                }
                let ghost es = entries_view(entries@);
                match find_key(entries, key) {
                    Some(i) => {
                        proof {
                            lemma_lookup_skip(es, key@, i as int);
                        }
                        Some(&entries[i].1)
                    },
                    None => {
                        proof {
                            lemma_lookup_skip(es, key@, es.len() as int);
                        }
                        None
                    },
                }
            },
            _ => None,
        }
    }

    /// The text, where this is a string.
    pub fn as_string(&self) -> (r: Option<&String>)
        ensures
            match r {
                Some(s) => plist_string(self@) == Some(s@),
                None => plist_string(self@) is None,
            },
    {
        match self {
            PlistValue::String(s) => Some(s),
            _ => None,
        }
    }

    /// The bytes, where this is data.
    pub fn as_data(&self) -> (r: Option<&Vec<u8>>)
        ensures
            match r {
                Some(d) => plist_data(self@) == Some(d@),
                None => plist_data(self@) is None,
            },
    {
        match self {
            PlistValue::Data(d) => Some(d),
            _ => None,
        }
    }

    /// The number, where this is an integer that fits a signed 64-bit integer.
    pub fn as_signed_integer(&self) -> (r: Option<i64>)
        ensures
            match r {
                Some(i) => plist_signed(self@) == Some(i as int),
                None => plist_signed(self@) is None,
            },
    {
        match self {
            PlistValue::Integer(i) => Some(*i),
            PlistValue::Unsigned(u) => if *u <= 0x7fff_ffff_ffff_ffff {
                Some(*u as i64)
            } else {
                None
            },
            _ => None,
        }
    }

    /// The items, where this is an array.
    pub fn as_array(&self) -> (r: Option<&Vec<PlistValue>>)
        ensures
            match r {
                Some(items) => self@ == Plist::Array(items_view(items@)),
                None => !(self@ is Array),
            },
    {
        proof {
            lemma_view_unfold(*self);
        }
        match self {
            PlistValue::Array(items) => Some(items),
            _ => None,
        }
    }

    /// The entries, where this is a dictionary.
    pub fn as_dictionary(&self) -> (r: Option<&Vec<(String, PlistValue)>>)
        ensures
            match r {
                Some(entries) => self@ == Plist::Dictionary(entries_view(entries@)),
                None => !(self@ is Dictionary),
            },
    {
        proof {
            lemma_view_unfold(*self);
        }
        match self {
            PlistValue::Dictionary(entries) => Some(entries),
            _ => None,
        }
    }

    /// The text under `key`, where this is a dictionary that holds a string there.
    pub fn get_string(&self, key: &str) -> (r: Option<&String>)
        ensures
            match r {
                Some(s) => plist_get_string(self@, key@) == Some(s@),
                None => plist_get_string(self@, key@) is None,
            },
    {
        match self.get(key) {
            Some(v) => v.as_string(),
            None => None,
        }
    }

    /// The bytes under `key`, where this is a dictionary that holds data there.
    pub fn get_data(&self, key: &str) -> (r: Option<&Vec<u8>>)
        ensures
            match r {
                Some(d) => plist_get_data(self@, key@) == Some(d@),
                None => plist_get_data(self@, key@) is None,
            },
    {
        match self.get(key) {
            Some(v) => v.as_data(),
            None => None,
        }
    }

    /// The number under `key`, where this is a dictionary that holds a signed integer there.
    pub fn get_signed(&self, key: &str) -> (r: Option<i64>)
        ensures
            match r {
                Some(i) => plist_get_signed(self@, key@) == Some(i as int),
                None => plist_get_signed(self@, key@) is None,
            },
    {
        match self.get(key) {
            Some(v) => v.as_signed_integer(),
            None => None,
        }
    }
}

/// `p` with `key` bound to `value` where `p` is a dictionary; `p` itself otherwise.
pub open spec fn plist_insert(p: Plist, key: Seq<char>, value: Plist) -> Plist {
    match p {
        Plist::Dictionary(entries) => Plist::Dictionary(with_entry(entries, key, value)),
        _ => p,
    }
}

/// Binds `key` to `value`: in place of the first entry with that key, or at
/// the end where there is none.
pub fn set_entry(entries: Vec<(String, PlistValue)>, key: String, value: PlistValue) -> (r: Vec<
    (String, PlistValue),
>)
    ensures
        entries_view(r@) == with_entry(entries_view(entries@), key@, value@),
{
    let ghost es = entries_view(entries@);
    let ghost e = Entry { key: key@, value: value@ };
    let mut entries = entries;
    match find_key(&entries, key.as_str()) {
        Some(i) => {
            proof {
                lemma_with_entry_skip(es, key@, value@, i as int);
                assert(es.take(i as int) + es.skip(i as int).update(0, e) =~= es.update(i as int, e));
            }
            entries.set(i, (key, value));
            assert(entries_view(entries@) =~= es.update(i as int, e));
        },
        None => {
            proof {
                lemma_with_entry_skip(es, key@, value@, es.len() as int);
                assert(es.take(es.len() as int) + seq![e] =~= es.push(e));
            }
            entries.push((key, value));
            assert(entries_view(entries@) =~= es.push(e));
        },
    }
    entries
}

impl PlistValue {
    /// Binds `key` to `value` where this is a dictionary, and changes nothing otherwise.
    pub fn insert(self, key: String, value: PlistValue) -> (r: PlistValue)
        ensures
            r@ == plist_insert(self@, key@, value@),
    {
        proof {
            lemma_view_unfold(self);
        }
        match self {
            PlistValue::Dictionary(entries) => {
                let r = PlistValue::Dictionary(set_entry(entries, key, value));
                proof {
                    lemma_view_unfold(r);
                }
                r
            },
            other => other,
        }
    }
}

/// Takes an integer of the `plist` crate over: as `Integer` where
/// `as_signed_integer` gives a number, else as `Unsigned` with what
/// `as_unsigned_integer` gives.
#[verifier::external_body]
fn integer_from_outside(v: &Value) -> PlistValue {
    match v.as_signed_integer() {
        Some(s) => PlistValue::Integer(s),
        None => PlistValue::Unsigned(v.as_unsigned_integer().unwrap_or_default()),
    }
}

/// Takes a `plist::Value` over into the library's type, variant by variant:
/// arrays and dictionaries item by item in their order, booleans, data,
/// integers and strings as they are, every other kind kept as it is in `Other`.
#[verifier::external_body]
fn from_outside(v: &Value) -> PlistValue {
    match v {
        Value::Array(a) => PlistValue::Array(a.iter().map(from_outside).collect()),
        Value::Dictionary(d) => PlistValue::Dictionary(
            d.iter().map(|(k, x)| (k.clone(), from_outside(x))).collect(),
        ),
        Value::Boolean(b) => PlistValue::Boolean(*b),
        Value::Data(d) => PlistValue::Data(d.clone()),
        Value::Integer(_) => integer_from_outside(v),
        Value::String(s) => PlistValue::String(s.clone()),
        other => PlistValue::Other(other.clone()),
    }
}

/// Builds the `plist::Value` that a value of the library stands for, variant
/// by variant, the reverse of `from_outside`. The entries of a dictionary
/// are handed to the crate in their order; the library hands over values
/// in which no key stands twice.
#[verifier::external_body]
fn to_outside(v: &PlistValue) -> Value {
    match v {
        PlistValue::Array(a) => Value::Array(a.iter().map(to_outside).collect()),
        PlistValue::Dictionary(d) => Value::Dictionary(
            d.iter().map(|(k, x)| (k.clone(), to_outside(x))).collect(),
        ),
        PlistValue::Boolean(b) => Value::Boolean(*b),
        PlistValue::Data(d) => Value::Data(d.clone()),
        PlistValue::Integer(i) => Value::Integer((*i).into()),
        PlistValue::Unsigned(u) => Value::Integer((*u).into()),
        PlistValue::String(s) => Value::String(s.clone()),
        PlistValue::Other(o) => o.clone(),
    }
}

/// What `plist::Value::from_reader` reads from a document in any encoding,
/// or the words of the error it reports.
pub uninterp spec fn plist_document(bytes: Seq<u8>) -> Result<Plist, Seq<char>>;

/// What `plist::Value::from_reader_xml` reads from an XML document, or the
/// words of the error it reports.
pub uninterp spec fn plist_xml_document(bytes: Seq<u8>) -> Result<Plist, Seq<char>>;

/// What `plist::from_bytes` reads as a `plist::Dictionary` from a document in
/// any encoding, or the words of the error it reports.
pub uninterp spec fn plist_dictionary_document(bytes: Seq<u8>) -> Result<Plist, Seq<char>>;

/// The XML document that `plist::Value::to_writer_xml` writes for a value, or
/// the words of the error it reports.
pub uninterp spec fn plist_xml_written(p: Plist) -> Result<Seq<u8>, Seq<char>>;

/// Whether an entry before position `i` has the key of the entry at `i`.
pub open spec fn key_repeated(entries: Seq<Entry>, i: int) -> bool {
    exists|j: int| 0 <= j < i && (#[trigger] entries[j]).key == entries[i].key
}

/// The positions, among the first `n` entries, of those whose key no entry
/// before them has.
pub open spec fn first_positions(entries: Seq<Entry>, n: int) -> Seq<int>
    decreases n,
{
    if n <= 0 {
        Seq::empty()
    } else if key_repeated(entries, n - 1) {
        first_positions(entries, n - 1)
    } else {
        first_positions(entries, n - 1).push(n - 1)
    }
}

/// A value as it is written: in every dictionary in it, of the entries with
/// one key only the first stays, the one that a lookup reads.
pub open spec fn plain(p: Plist) -> Plist
    decreases p,
{
    match p {
        Plist::Array(items) => Plist::Array(
            Seq::new(
                items.len(),
                |i: int|
                    if 0 <= i < items.len() {
                        plain(items[i])
                    } else {
                        Plist::Boolean(false)
                    },
            ),
        ),
        Plist::Dictionary(entries) => Plist::Dictionary(
            Seq::new(
                first_positions(entries, entries.len() as int).len(),
                |i: int|
                    {
                        let at = first_positions(entries, entries.len() as int)[i];
                        if 0 <= at < entries.len() {
                            Entry { key: entries[at].key, value: plain(entries[at].value) }
                        } else {
                            Entry { key: Seq::empty(), value: Plist::Boolean(false) }
                        }
                    },
            ),
        ),
        _ => p,
    }
}

/// The XML document for a value, or the words of the error in writing it:
/// what the `plist` crate writes for the value made plain.
pub open spec fn plist_xml_text(p: Plist) -> Result<Seq<u8>, Seq<char>> {
    plist_xml_written(plain(p))
}


/// `plist::Value::from_reader` on the bytes: the value read, or the crate's
/// error in its own words. The same bytes always read as the same value.
#[verifier::external_body]
pub(crate) fn read_document(bytes: &[u8]) -> (r: Result<PlistValue, String>)
    ensures
        match r {
            Ok(v) => plist_document(bytes@) == Ok::<Plist, Seq<char>>(v@),
            Err(words) => plist_document(bytes@) == Err::<Plist, Seq<char>>(words@),
        },
{
    Value::from_reader(std::io::Cursor::new(bytes)).map(|v| from_outside(&v)).map_err(|e| e.to_string())
}

/// `plist::Value::from_reader_xml` on the bytes: the value read, or the
/// crate's error in its own words. The same bytes always read as the same value.
#[verifier::external_body]
pub(crate) fn read_xml_document(bytes: &[u8]) -> (r: Result<PlistValue, String>)
    ensures
        match r {
            Ok(v) => plist_xml_document(bytes@) == Ok::<Plist, Seq<char>>(v@),
            Err(words) => plist_xml_document(bytes@) == Err::<Plist, Seq<char>>(words@),
        },
{
    Value::from_reader_xml(bytes).map(|v| from_outside(&v)).map_err(|e| e.to_string())
}

/// `plist::from_bytes` for a `plist::Dictionary`: the dictionary read, or the
/// crate's error in its own words. What it reads is a dictionary.
#[verifier::external_body]
pub(crate) fn read_dictionary_document(bytes: &[u8]) -> (r: Result<PlistValue, String>)
    ensures
        match r {
            Ok(v) => plist_dictionary_document(bytes@) == Ok::<Plist, Seq<char>>(v@) && v@ is Dictionary,
            Err(words) => plist_dictionary_document(bytes@) == Err::<Plist, Seq<char>>(words@),
        },
{
    plist::from_bytes::<plist::Dictionary>(bytes)
        .map(|d| from_outside(&Value::Dictionary(d)))
        .map_err(|e| e.to_string())
}

/// `plist::Value::to_writer_xml` into a buffer: the XML document for the
/// value, or the crate's error in its own words.
#[verifier::external_body]
pub(crate) fn write_xml_document(v: &PlistValue) -> (r: Result<Vec<u8>, String>)
    ensures
        match r {
            Ok(bytes) => plist_xml_written(v@) == Ok::<Seq<u8>, Seq<char>>(bytes@),
            Err(words) => plist_xml_written(v@) == Err::<Seq<u8>, Seq<char>>(words@),
        },
{
    let mut buf = Vec::new();
    to_outside(v).to_writer_xml(&mut buf).map(|_| buf).map_err(|e| e.to_string())
}

impl PlistValue {
    /// Reads a document in any encoding.
    pub fn parse(bytes: &[u8]) -> (r: Result<PlistValue, String>)
        ensures
            match r {
                Ok(v) => plist_document(bytes@) == Ok::<Plist, Seq<char>>(v@),
                Err(words) => plist_document(bytes@) == Err::<Plist, Seq<char>>(words@),
            },
    {
        read_document(bytes)
    }

    /// Reads an XML document.
    pub fn parse_xml(bytes: &[u8]) -> (r: Result<PlistValue, String>)
        ensures
            match r {
                Ok(v) => plist_xml_document(bytes@) == Ok::<Plist, Seq<char>>(v@),
                Err(words) => plist_xml_document(bytes@) == Err::<Plist, Seq<char>>(words@),
            },
    {
        read_xml_document(bytes)
    }

    /// Reads a document whose root must be a dictionary.
    pub fn parse_dictionary(bytes: &[u8]) -> (r: Result<PlistValue, String>)
        ensures
            match r {
                Ok(v) => plist_dictionary_document(bytes@) == Ok::<Plist, Seq<char>>(v@) && v@ is Dictionary,
                Err(words) => plist_dictionary_document(bytes@) == Err::<Plist, Seq<char>>(words@),
            },
    {
        read_dictionary_document(bytes)
    }

    /// Writes the value as an XML document.
    pub fn to_xml(&self) -> (r: Result<Vec<u8>, String>)
        ensures
            match r {
                Ok(bytes) => plist_xml_text(self@) == Ok::<Seq<u8>, Seq<char>>(bytes@),
                Err(words) => plist_xml_text(self@) == Err::<Seq<u8>, Seq<char>>(words@),
            },
    {
        let made = self.plain_copy();
        write_xml_document(&made)
    }

    /// A copy of the value as it is written: without the entries whose key
    /// an entry before them in the same dictionary has.
    pub fn plain_copy(&self) -> (r: PlistValue)
        ensures
            r@ == plain(self@),
        decreases self,
    {
        proof {
            lemma_view_unfold(*self);
        }
        match self {
            PlistValue::Array(items) => {
                let mut out: Vec<PlistValue> = Vec::new();
                let mut i: usize = 0;
                while i < items.len()
                    invariant
                        i <= items.len(),
                        decreases_to!(self => items),
                        out.len() == i,
                        forall|j: int| 0 <= j < i ==> out@[j]@ == plain(items@[j]@),
                    decreases items.len() - i,
                {
                    proof {
                        vstd::std_specs::vec::axiom_vec_index_decreases(*items, i as int);
                    }
                    out.push(items[i].plain_copy());
                    i = i + 1;
                }
                let r = PlistValue::Array(out);
                proof {
                    lemma_view_unfold(r);
                    assert(self@ == Plist::Array(items_view(items@)));
                    assert(plain(self@) is Array);
                    assert(plain(self@)->Array_0 =~= items_view(out@));
                }
                r
            },
            PlistValue::Dictionary(entries) => {
                let ghost es = entries_view(entries@);
                let mut out: Vec<(String, PlistValue)> = Vec::new();
                let mut i: usize = 0;
                while i < entries.len()
                    invariant
                        i <= entries.len(),
                        decreases_to!(self => entries),
                        es == entries_view(entries@),
                        out.len() == first_positions(es, i as int).len(),
                        forall|m: int|
                            0 <= m < out.len() ==> 0 <= (#[trigger] first_positions(
                                es,
                                i as int,
                            )[m]) < i,
                        forall|m: int|
                            0 <= m < out.len() ==> (#[trigger] out@[m]).0@ == es[first_positions(
                                es,
                                i as int,
                            )[m]].key && out@[m].1@ == plain(
                                es[first_positions(es, i as int)[m]].value,
                            ),
                    decreases entries.len() - i,
                {
                    proof {
                        vstd::std_specs::vec::axiom_vec_index_decreases(*entries, i as int);
                    }
                    let repeated = key_stands_before(entries, i);
                    proof {
                        if repeated {
                            let j = choose|j: int|
                                0 <= j < i && entries@[j].0@ == entries@[i as int].0@;
                            assert(es[j].key == es[i as int].key);
                        } else {
                            assert forall|j: int| 0 <= j < i implies (#[trigger] es[j]).key
                                != es[i as int].key by {
                                assert(entries@[j].0@ != entries@[i as int].0@);
                            }
                        }
                        assert(repeated == key_repeated(es, i as int));
                    }
                    if !repeated {
                        out.push((entries[i].0.clone(), entries[i].1.plain_copy()));
                    }
                    i = i + 1;
                }
                let r = PlistValue::Dictionary(out);
                proof {
                    lemma_view_unfold(r);
                    assert(self@ == Plist::Dictionary(es));
                    assert(plain(self@) is Dictionary);
                    assert(plain(self@)->Dictionary_0 =~= entries_view(out@));
                }
                r
            },
            PlistValue::Boolean(b) => PlistValue::Boolean(*b),
            PlistValue::Data(d) => PlistValue::Data(d.clone()),
            PlistValue::Integer(i) => PlistValue::Integer(*i),
            PlistValue::Unsigned(u) => PlistValue::Unsigned(*u),
            PlistValue::String(s) => PlistValue::String(s.clone()),
            PlistValue::Other(v) => PlistValue::Other(v.clone()),
        }
    }
}

/// Whether an entry before position `i` has the key of the entry at `i`.
fn key_stands_before(entries: &Vec<(String, PlistValue)>, i: usize) -> (r: bool)
    requires
        i < entries.len(),
    ensures
        r == exists|j: int| 0 <= j < i && entries@[j].0@ == entries@[i as int].0@,
{
    let mut j: usize = 0;
    while j < i
        invariant
            j <= i < entries.len(),
            forall|k: int| 0 <= k < j ==> entries@[k].0@ != entries@[i as int].0@,
        decreases i - j,
    {
        if str_equal(entries[j].0.as_str(), entries[i].0.as_str()) {
            return true;
        }
        j = j + 1;
    }
    false
}

/// A dictionary entry's meaning, from its key and its value's meaning.
pub open spec fn entry(key: Seq<char>, value: Plist) -> Entry {
    Entry { key, value }
}

impl PlistValue {
    /// A string value.
    pub fn text(s: &str) -> (r: PlistValue)
        ensures
            r@ == Plist::String(s@),
    {
        PlistValue::String(s.to_owned())
    }

    /// A data value.
    pub fn data(bytes: Vec<u8>) -> (r: PlistValue)
        ensures
            r@ == Plist::Data(bytes@),
    {
        PlistValue::Data(bytes)
    }

    /// A dictionary with the given entries, in their order.
    pub fn dictionary(entries: Vec<(String, PlistValue)>) -> (r: PlistValue)
        ensures
            r@ == Plist::Dictionary(entries_view(entries@)),
    {
        let r = PlistValue::Dictionary(entries);
        proof {
            lemma_view_unfold(r);
        }
        r
    }

    /// An array with the given items, in their order.
    pub fn array(items: Vec<PlistValue>) -> (r: PlistValue)
        ensures
            r@ == Plist::Array(items_view(items@)),
    {
        let r = PlistValue::Array(items);
        proof {
            lemma_view_unfold(r);
        }
        r
    }
}

} // verus!
