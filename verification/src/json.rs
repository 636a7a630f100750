//! JSON values as plain data, and the outside call that reads them from text.
use crate::text;
use serde_json::Value;
use vstd::prelude::*;

verus! {

/// A JSON number, in the form in which it was read.
#[derive(Debug, Clone, Copy, PartialEq, Eq, Structural)]
pub enum Number {
    /// A non-negative integer.
    Unsigned(u64),
    /// A negative integer.
    Negative(i64),
    /// Any other number, by the bits of its double-precision form.
    Real(u64),
}

/// A JSON value.
#[derive(Debug, PartialEq, Eq)]
pub enum Json {
    Null,
    Bool(bool),
    Num(Number),
    Str(String),
    Arr(Vec<Json>),
    /// The members in order; a key stands at most once.
    Obj(Vec<(String, Json)>),
}

/// The value of the first member at index `i` or later whose key is `key`.
pub open spec fn lookup(members: Seq<(String, Json)>, key: Seq<char>, i: int) -> Option<Json>
    decreases members.len() - i,
{
    if i < 0 || i >= members.len() {
        None
    } else if members[i].0@ == key {
        Some(members[i].1)
    } else {
        lookup(members, key, i + 1)
    }
}

/// The member `key` of an object; nothing else has members.
pub open spec fn field(j: Json, key: Seq<char>) -> Option<Json> {
    match j {
        Json::Obj(members) => lookup(members@, key, 0),
        _ => None,
    }
}

/// The member `key` of a value that may be missing.
pub open spec fn field_of(j: Option<Json>, key: Seq<char>) -> Option<Json> {
    match j {
        Some(v) => field(v, key),
        None => None,
    }
}

/// The text of a string value.
pub open spec fn text_value(j: Option<Json>) -> Option<Seq<char>> {
    match j {
        Some(Json::Str(s)) => Some(s@),
        _ => None,
    }
}

/// The value of a boolean.
pub open spec fn bool_value(j: Option<Json>) -> Option<bool> {
    match j {
        Some(Json::Bool(b)) => Some(b),
        _ => None,
    }
}

/// The value of a non-negative integer.
pub open spec fn unsigned_value(j: Option<Json>) -> Option<u64> {
    match j {
        Some(Json::Num(Number::Unsigned(n))) => Some(n),
        _ => None,
    }
}

/// The value of an integer that fits 64 signed bits.
pub open spec fn signed_value(j: Option<Json>) -> Option<i64> {
    match j {
        Some(Json::Num(Number::Unsigned(n))) if n <= i64::MAX => Some(n as i64),
        Some(Json::Num(Number::Negative(n))) => Some(n),
        _ => None,
    }
}

/// The number as it was read.
pub open spec fn number_value(j: Option<Json>) -> Option<Number> {
    match j {
        Some(Json::Num(n)) => Some(n),
        _ => None,
    }
}

/// The items of an array; nothing else has items.
pub open spec fn items_value(j: Option<Json>) -> Option<Seq<Json>> {
    match j {
        Some(Json::Arr(v)) => Some(v@),
        _ => None,
    }
}

/// What a reference to a JSON value refers to.
pub open spec fn deref(j: Option<&Json>) -> Option<Json> {
    match j {
        Some(v) => Some(*v),
        None => None,
    }
}

/// The member `key` of a value that may be missing.
pub fn get<'a>(j: Option<&'a Json>, key: &str) -> (r: Option<&'a Json>)
    ensures
        deref(r) == field_of(deref(j), key@),
{
    match j {
        Some(Json::Obj(members)) => {
            let mut i: usize = 0;
            while i < members.len()
                invariant
                    i <= members@.len(),
                    field_of(deref(j), key@) == lookup(members@, key@, i as int),
                decreases members@.len() - i,
            {
                if text::same(members[i].0.as_str(), key) {
                    return Some(&members[i].1);
                }
                i += 1;
            }
            None
        },
        _ => None,
    }
}

/// The text of a string value.
pub fn as_str<'a>(j: Option<&'a Json>) -> (r: Option<&'a str>)
    ensures
        match r {
            Some(s) => text_value(deref(j)) == Some(s@),
            None => text_value(deref(j)) is None,
        },
{
    match j {
        Some(Json::Str(s)) => Some(s.as_str()),
        _ => None,
    }
}

/// The value of a boolean.
pub fn as_bool(j: Option<&Json>) -> (r: Option<bool>)
    ensures
        r == bool_value(deref(j)),
{
    match j {
        Some(Json::Bool(b)) => Some(*b),
        _ => None,
    }
}

/// The value of a non-negative integer.
pub fn as_u64(j: Option<&Json>) -> (r: Option<u64>)
    ensures
        r == unsigned_value(deref(j)),
{
    match j {
        Some(Json::Num(Number::Unsigned(n))) => Some(*n),
        _ => None,
    }
}

/// The value of an integer that fits 64 signed bits.
pub fn as_i64(j: Option<&Json>) -> (r: Option<i64>)
    ensures
        r == signed_value(deref(j)),
{
    match j {
        Some(Json::Num(Number::Unsigned(n))) => if *n <= i64::MAX as u64 {
            Some(*n as i64)
        } else {
            None
        },
        Some(Json::Num(Number::Negative(n))) => Some(*n),
        _ => None,
    }
}

/// The number as it was read.
pub fn as_number(j: Option<&Json>) -> (r: Option<Number>)
    ensures
        r == number_value(deref(j)),
{
    match j {
        Some(Json::Num(n)) => Some(*n),
        _ => None,
    }
}

/// The items of an array.
pub fn as_items<'a>(j: Option<&'a Json>) -> (r: Option<&'a Vec<Json>>)
    ensures
        match r {
            Some(v) => items_value(deref(j)) == Some(v@),
            None => items_value(deref(j)) is None,
        },
{
    match j {
        Some(Json::Arr(v)) => Some(v),
        _ => None,
    }
}

// ---------------------------------------------------------------------------
// building objects
// ---------------------------------------------------------------------------

/// What a value is, as far as no items or members are concerned.
pub enum Leaf {
    Null,
    Bool(bool),
    Num(Number),
    Text(Seq<char>),
    /// An array or an object.
    Nested,
}

/// The leaf that a value is.
pub open spec fn leaf(j: Json) -> Leaf {
    match j {
        Json::Null => Leaf::Null,
        Json::Bool(b) => Leaf::Bool(b),
        Json::Num(n) => Leaf::Num(n),
        Json::Str(s) => Leaf::Text(s@),
        _ => Leaf::Nested,
    }
}

/// The leaf of an unsigned number.
pub open spec fn count_leaf(n: u32) -> Leaf {
    Leaf::Num(Number::Unsigned(n as u64))
}

/// The leaf of a number that may be missing.
pub open spec fn optional_count_leaf(n: Option<u32>) -> Leaf {
    match n {
        Some(c) => count_leaf(c),
        None => Leaf::Null,
    }
}

/// The leaf of a text that may be missing.
pub open spec fn optional_text_leaf(s: Option<Seq<char>>) -> Leaf {
    match s {
        Some(t) => Leaf::Text(t),
        None => Leaf::Null,
    }
}

/// The leaf of a boolean that may be missing.
pub open spec fn optional_bool_leaf(b: Option<bool>) -> Leaf {
    match b {
        Some(v) => Leaf::Bool(v),
        None => Leaf::Null,
    }
}

/// The keys and leaves of members, in order.
pub open spec fn entries(members: Seq<(String, Json)>) -> Seq<(Seq<char>, Leaf)> {
    Seq::new(members.len(), |i: int| (members[i].0@, leaf(members[i].1)))
}

/// `j` is the object of these entries, in this order.
pub open spec fn is_object(j: Json, wanted: Seq<(Seq<char>, Leaf)>) -> bool {
    j matches Json::Obj(members) && entries(members@) == wanted
}

/// Add a member.
pub fn put(members: &mut Vec<(String, Json)>, key: &str, value: Json)
    ensures
        entries(final(members)@) == entries(old(members)@).push((key@, leaf(value))),
{
    members.push((key.to_owned(), value));
    assert(entries(members@) =~= entries(old(members)@).push((key@, leaf(value))));
}

/// A string value.
pub fn string(s: &str) -> (r: Json)
    ensures
        leaf(r) == Leaf::Text(s@),
{
    Json::Str(s.to_owned())
}

/// An unsigned number.
pub fn count(n: u32) -> (r: Json)
    ensures
        leaf(r) == count_leaf(n),
{
    Json::Num(Number::Unsigned(n as u64))
}

/// A number that may be missing.
pub fn optional_count(n: Option<u32>) -> (r: Json)
    ensures
        leaf(r) == optional_count_leaf(n),
{
    match n {
        Some(c) => count(c),
        None => Json::Null,
    }
}

/// A text that may be missing.
pub fn optional_string(s: &Option<String>) -> (r: Json)
    ensures
        leaf(r) == optional_text_leaf(text::opt_view(*s)),
{
    match s {
        Some(t) => string(t.as_str()),
        None => Json::Null,
    }
}

/// A boolean that may be missing.
pub fn optional_bool(b: Option<bool>) -> (r: Json)
    ensures
        leaf(r) == optional_bool_leaf(b),
{
    match b {
        Some(v) => Json::Bool(v),
        None => Json::Null,
    }
}

/// The leaf at `key` among entries: that of the first one with this key.
pub open spec fn entry(all: Seq<(Seq<char>, Leaf)>, key: Seq<char>, i: int) -> Option<Leaf>
    decreases all.len() - i,
{
    if i < 0 || i >= all.len() {
        None
    } else if all[i].0 == key {
        Some(all[i].1)
    } else {
        entry(all, key, i + 1)
    }
}

/// What a lookup in members finds is what the entries say.
pub proof fn lemma_lookup_is_entry(members: Seq<(String, Json)>, key: Seq<char>, i: int)
    requires
        0 <= i <= members.len(),
    ensures
        match lookup(members, key, i) {
            Some(v) => entry(entries(members), key, i) == Some(leaf(v)),
            None => entry(entries(members), key, i) is None,
        },
    decreases members.len() - i,
{
    if i < members.len() && members[i].0@ != key {
        lemma_lookup_is_entry(members, key, i + 1);
    }
}

/// The leaf of a member of an object.
pub open spec fn leaf_at(j: Json, key: Seq<char>) -> Option<Leaf> {
    match field(j, key) {
        Some(v) => Some(leaf(v)),
        None => None,
    }
}

/// The members of an object are its entries.
pub proof fn lemma_members_are_entries(j: Json, all: Seq<(Seq<char>, Leaf)>, key: Seq<char>)
    requires
        is_object(j, all),
    ensures
        leaf_at(j, key) == entry(all, key, 0),
{
    lemma_lookup_is_entry(j->Obj_0@, key, 0);
}

// ---------------------------------------------------------------------------
// text form
// ---------------------------------------------------------------------------

/// `serde_json::Value`, carried from one outside call to the next.
#[verifier::external_type_specification]
#[verifier::external_body]
pub struct ExValue(serde_json::Value);

/// What a `serde_json::Value` holds, as plain data.
pub uninterp spec fn held(v: serde_json::Value) -> Json;

/// What `serde_json::from_slice` reads from the given bytes: the value as plain
/// data, or the text of the error.
pub uninterp spec fn json_read(bytes: Seq<u8>) -> Result<Json, Seq<char>>;

/// Calls `serde_json::from_slice` for a `serde_json::Value`. What is read, value
/// or error text, is a function of the bytes; which bytes are JSON is left to
/// that crate.
#[verifier::external_body]
fn read_value(bytes: &[u8]) -> (r: Result<serde_json::Value, String>)
    ensures
        match r {
            Ok(v) => json_read(bytes@) == Ok::<Json, Seq<char>>(held(v)),
            Err(e) => json_read(bytes@) == Err::<Json, Seq<char>>(e@),
        },
{
    serde_json::from_slice(bytes).map_err(|e| e.to_string())
}

/// Moves a `serde_json::Value` into the plain type, variant by variant and
/// member by member, through its public variants and `Number`'s accessors.
#[verifier::external_body]
fn to_plain(v: serde_json::Value) -> (r: Json)
    ensures
        r == held(v),
{
    match v {
        Value::Null => Json::Null,
        Value::Bool(b) => Json::Bool(b),
        Value::Number(n) => Json::Num(match (n.as_u64(), n.as_i64()) {
            (Some(u), _) => Number::Unsigned(u),
            (_, Some(i)) => Number::Negative(i),
            _ => Number::Real(n.as_f64().map(|x| x.to_bits()).unwrap_or(0)),
        }),
        Value::String(s) => Json::Str(s),
        Value::Array(a) => Json::Arr(a.into_iter().map(to_plain).collect()),
        Value::Object(o) => Json::Obj(o.into_iter().map(|(k, v)| (k, to_plain(v))).collect()),
    }
}

/// Read one JSON document; the error is the reader's own text.
pub fn parse(bytes: &[u8]) -> (r: Result<Json, String>)
    ensures
        match r {
            Ok(j) => json_read(bytes@) == Ok::<Json, Seq<char>>(j),
            Err(e) => json_read(bytes@) == Err::<Json, Seq<char>>(e@),
        },
{
    match read_value(bytes) {
        Ok(v) => Ok(to_plain(v)),
        Err(e) => Err(e),
    }
}

/// The first member with a key counts: a later one with the same key is never
/// seen, and only an object has members.
pub proof fn law_the_first_member_counts(members: Seq<(String, Json)>, key: Seq<char>, k: int)
    requires
        0 <= k < members.len(),
        members[k].0@ == key,
        forall|j: int| 0 <= j < k ==> (#[trigger] members[j]).0@ != key,
    ensures
        lookup(members, key, 0) == Some(members[k].1),
{
    lemma_lookup_skips(members, key, 0, k);
}

proof fn lemma_lookup_skips(members: Seq<(String, Json)>, key: Seq<char>, i: int, k: int)
    requires
        0 <= i <= k < members.len(),
        members[k].0@ == key,
        forall|j: int| i <= j < k ==> (#[trigger] members[j]).0@ != key,
    ensures
        lookup(members, key, i) == Some(members[k].1),
    decreases k - i,
{
    if i < k {
        assert(members[i].0@ != key);
        lemma_lookup_skips(members, key, i + 1, k);
    }
}

/// A key that no member has is not found, nor is any key outside an object.
pub proof fn law_a_missing_member_is_none(members: Seq<(String, Json)>, key: Seq<char>, j: Json)
    ensures
        (forall|i: int| 0 <= i < members.len() ==> (#[trigger] members[i]).0@ != key) ==> lookup(
            members,
            key,
            0,
        ) is None,
        !(j is Obj) ==> field(j, key) is None,
        j matches Json::Obj(m) ==> field(j, key) == lookup(m@, key, 0),
        field_of(None, key) is None,
        field_of(Some(j), key) == field(j, key),
{
    if forall|i: int| 0 <= i < members.len() ==> (#[trigger] members[i]).0@ != key {
        lemma_lookup_none(members, key, 0);
    }
}

proof fn lemma_lookup_none(members: Seq<(String, Json)>, key: Seq<char>, i: int)
    requires
        0 <= i,
        forall|j: int| i <= j < members.len() ==> (#[trigger] members[j]).0@ != key,
    ensures
        lookup(members, key, i) is None,
    decreases members.len() - i,
{
    if i < members.len() {
        assert(members[i].0@ != key);
        lemma_lookup_none(members, key, i + 1);
    }
}

/// A value is read as what it is and as nothing else.
pub proof fn law_values_are_read_as_they_are(j: Json)
    ensures
        text_value(Some(j)) is Some <==> j is Str,
        bool_value(Some(j)) is Some <==> j is Bool,
        items_value(Some(j)) is Some <==> j is Arr,
        number_value(Some(j)) is Some <==> j is Num,
        j matches Json::Str(s) ==> text_value(Some(j)) == Some(s@),
        j matches Json::Bool(b) ==> bool_value(Some(j)) == Some(b),
        j matches Json::Arr(v) ==> items_value(Some(j)) == Some(v@),
        j matches Json::Num(n) ==> number_value(Some(j)) == Some(n),
        text_value(None) is None && bool_value(None) is None && items_value(None) is None
            && number_value(None) is None,
{
}

/// An integer is read in full or not at all, and a number with a fraction or an
/// exponent is no integer.
pub proof fn law_integers_are_read_in_full(n: u64, i: i64, bits: u64)
    ensures
        unsigned_value(Some(Json::Num(Number::Unsigned(n)))) == Some(n),
        unsigned_value(Some(Json::Num(Number::Negative(i)))) is None,
        unsigned_value(Some(Json::Num(Number::Real(bits)))) is None,
        signed_value(Some(Json::Num(Number::Unsigned(n)))) is Some <==> n <= 0x7fff_ffff_ffff_ffff,
        n <= 0x7fff_ffff_ffff_ffff ==> signed_value(Some(Json::Num(Number::Unsigned(n))))->0 == n,
        signed_value(Some(Json::Num(Number::Negative(i)))) == Some(i),
        signed_value(Some(Json::Num(Number::Real(bits)))) is None,
{
}

/// A leaf is what the value holds; an array or an object is none.
pub proof fn law_leaves_are_what_is_held(s: String, b: bool, n: Number, c: u32)
    ensures
        leaf(Json::Null) == Leaf::Null,
        leaf(Json::Bool(b)) == Leaf::Bool(b),
        leaf(Json::Num(n)) == Leaf::Num(n),
        leaf(Json::Str(s)) == Leaf::Text(s@),
        count_leaf(c) == Leaf::Num(Number::Unsigned(c as u64)),
        optional_count_leaf(None) == Leaf::Null,
        optional_count_leaf(Some(c)) == Leaf::Num(Number::Unsigned(c as u64)),
        optional_text_leaf(None) == Leaf::Null,
        optional_text_leaf(Some(s@)) == Leaf::Text(s@),
        optional_bool_leaf(None) == Leaf::Null,
        optional_bool_leaf(Some(b)) == Leaf::Bool(b),
{
}

/// An object of entries has exactly these members, in this order.
pub proof fn law_an_object_has_its_entries(j: Json, wanted: Seq<(Seq<char>, Leaf)>, i: int)
    requires
        is_object(j, wanted),
    ensures
        j is Obj,
        j->Obj_0@.len() == wanted.len(),
        0 <= i < wanted.len() ==> j->Obj_0@[i].0@ == wanted[i].0 && leaf(j->Obj_0@[i].1)
            == wanted[i].1,
{
    if 0 <= i < wanted.len() {
        assert(entries(j->Obj_0@)[i] == wanted[i]);
    }
    assert(entries(j->Obj_0@).len() == wanted.len());
}

/// What a reference refers to is the value itself.
pub proof fn law_references_are_their_values(j: &Json)
    ensures
        deref(Some(j)) == Some(*j),
        deref(None) is None,
{
}

} // verus!
