//! JSON values, as `serde_json` holds them.
//!
//! A `serde_json::Value` is opaque to the verifier. What the toolkit reads of
//! one is named here: the members of an object, the text of a string, the
//! integer of a number, and the bytes of the value's encoding. The functions
//! of this module make the calls into `serde_json`; their contracts are
//! stated over those names and are not proved.

use vstd::prelude::*;

verus! {

/// `serde_json::Value`, any JSON value.
#[verifier::external_type_specification]
#[verifier::external_body]
pub struct ExValue(serde_json::Value);

/// `serde_json::Error`, why a text is not JSON or a value has no encoding.
#[verifier::external_type_specification]
#[verifier::external_body]
pub struct ExJsonError(serde_json::Error);

/// The members of `v` where it is an object, by key; no member otherwise.
/// What `Value::get` finds under each key.
pub uninterp spec fn json_members(v: serde_json::Value) -> Map<Seq<char>, serde_json::Value>;

/// The text of `v` where it is a string. What `Value::as_str` returns.
pub uninterp spec fn json_text(v: serde_json::Value) -> Option<Seq<char>>;

/// The number of `v` where it is an integer from 0 to `u64::MAX`. What
/// `Value::as_u64` returns.
pub uninterp spec fn json_unsigned(v: serde_json::Value) -> Option<u64>;

/// The number of `v` where it is an integer from `i64::MIN` to `i64::MAX`.
/// What `Value::as_i64` returns.
pub uninterp spec fn json_signed(v: serde_json::Value) -> Option<i64>;

/// The compact encoding of `v`. What `serde_json::to_vec` writes.
pub uninterp spec fn json_encoding(v: serde_json::Value) -> Seq<u8>;

/// The value that `bytes` encode, where they are JSON. What
/// `serde_json::from_slice` reads.
pub uninterp spec fn json_decoding(bytes: Seq<u8>) -> Option<serde_json::Value>;

/// Whether no two of the entries have one key.
pub open spec fn distinct_keys(entries: Seq<(String, serde_json::Value)>) -> bool {
    forall|i: int, j: int|
        0 <= i < j < entries.len() ==> (#[trigger] entries[i]).0@ != (#[trigger] entries[j]).0@
}

/// The members that a list of entries with distinct keys gives.
pub open spec fn members_of(entries: Seq<(String, serde_json::Value)>) -> Map<
    Seq<char>,
    serde_json::Value,
>
    decreases entries.len(),
{
    if entries.len() == 0 {
        Map::empty()
    } else {
        members_of(entries.drop_last()).insert(entries.last().0@, entries.last().1)
    }
}

/// Whether `v` has no member.
pub open spec fn json_has_no_member(v: serde_json::Value) -> bool {
    json_members(v) == Map::<Seq<char>, serde_json::Value>::empty()
}

/// Whether `v` is neither a string nor an integer.
pub open spec fn json_is_plain(v: serde_json::Value) -> bool {
    json_text(v) is None && json_unsigned(v) is None && json_signed(v) is None
}

/// Calls `Map::from_iter` and wraps the map in `Value::Object`: the object
/// whose members are the entries. The keys of the entries are distinct, so
/// that none of them is dropped. An object is neither a string nor a number.
#[verifier::external_body]
pub(crate) fn json_object(entries: Vec<(String, serde_json::Value)>) -> (v: serde_json::Value)
    requires
        distinct_keys(entries@),
    ensures
        json_members(v) == members_of(entries@),
        json_is_plain(v),
{
    serde_json::Value::Object(entries.into_iter().collect())
}

/// Calls `Value::from` on a string slice: the JSON string with that text. A
/// string has no members and is no number.
#[verifier::external_body]
pub(crate) fn json_string(text: &str) -> (v: serde_json::Value)
    ensures
        json_text(v) == Some(text@),
        json_has_no_member(v),
        json_unsigned(v) is None,
        json_signed(v) is None,
{
    serde_json::Value::from(text)
}

/// Calls `Value::from` on a `u64`: the JSON number with that value. A number
/// has no members and no text.
#[verifier::external_body]
pub(crate) fn json_u64(n: u64) -> (v: serde_json::Value)
    ensures
        json_unsigned(v) == Some(n),
        json_has_no_member(v),
        json_text(v) is None,
{
    serde_json::Value::from(n)
}

/// Calls `Value::from` on an `i64`: the JSON number with that value. A number
/// has no members and no text.
#[verifier::external_body]
pub(crate) fn json_i64(n: i64) -> (v: serde_json::Value)
    ensures
        json_signed(v) == Some(n),
        json_has_no_member(v),
        json_text(v) is None,
{
    serde_json::Value::from(n)
}

/// Calls `Value::get` with a string key and clones what it finds: the member
/// of an object under that key, `None` where there is none or `v` is no
/// object.
#[verifier::external_body]
pub(crate) fn json_get(v: &serde_json::Value, key: &str) -> (r: Option<serde_json::Value>)
    ensures
        r == if json_members(*v).contains_key(key@) {
            Some(json_members(*v)[key@])
        } else {
            None
        },
{
    v.get(key).cloned()
}

/// Calls `Value::as_str` and copies the text: the text of a JSON string,
/// `None` for any other value.
#[verifier::external_body]
pub(crate) fn json_as_str(v: &serde_json::Value) -> (r: Option<String>)
    ensures
        match r {
            Some(text) => json_text(*v) == Some(text@),
            None => json_text(*v) is None,
        },
{
    v.as_str().map(|text| text.to_string())
}

/// Calls `Value::clone`: a value equal to `v`.
#[verifier::external_body]
pub(crate) fn json_clone(v: &serde_json::Value) -> (r: serde_json::Value)
    ensures
        r == *v,
{
    v.clone()
}

/// Calls `serde_json::to_vec`: the compact encoding of `v`. The call
/// succeeds: the encoder of a `Value` fails only where its writer fails, and
/// it writes into a vector.
#[verifier::external_body]
pub(crate) fn json_to_vec(v: &serde_json::Value) -> (r: core::result::Result<
    Vec<u8>,
    serde_json::Error,
>)
    ensures
        r is Ok,
        r matches Ok(bytes) ==> bytes@ == json_encoding(*v),
{
    serde_json::to_vec(v)
}

/// Calls `serde_json::from_slice` for a `Value`: the value that `bytes`
/// encode, or the error where they are not one JSON value.
#[verifier::external_body]
pub(crate) fn json_from_slice(bytes: &[u8]) -> (r: core::result::Result<
    serde_json::Value,
    serde_json::Error,
>)
    ensures
        match r {
            Ok(v) => json_decoding(bytes@) == Some(v),
            Err(_) => json_decoding(bytes@) is None,
        },
{
    serde_json::from_slice(bytes)
}

/// Calls `to_string` on a `serde_json::Error`: the words of the error.
#[verifier::external_body]
pub(crate) fn json_error_text(e: &serde_json::Error) -> (text: String) {
    e.to_string()
}

/// The member of `v` under `key`.
pub open spec fn member(v: serde_json::Value, key: Seq<char>) -> Option<serde_json::Value> {
    if json_members(v).contains_key(key) {
        Some(json_members(v)[key])
    } else {
        None
    }
}

/// The text of the member of `v` under `key`, where it is a string.
pub open spec fn member_text(v: serde_json::Value, key: Seq<char>) -> Option<Seq<char>> {
    match member(v, key) {
        Some(value) => json_text(value),
        None => None,
    }
}

/// The number of the member of `v` under `key`, where it is an integer from
/// 0 to `u64::MAX`.
pub open spec fn member_unsigned(v: serde_json::Value, key: Seq<char>) -> Option<u64> {
    match member(v, key) {
        Some(value) => json_unsigned(value),
        None => None,
    }
}

/// The number of the member of `v` under `key`, where it is an integer from
/// `i64::MIN` to `i64::MAX`.
pub open spec fn member_signed(v: serde_json::Value, key: Seq<char>) -> Option<i64> {
    match member(v, key) {
        Some(value) => json_signed(value),
        None => None,
    }
}

/// The JSON object without members.
pub fn empty_object() -> (v: serde_json::Value)
    ensures
        json_members(v) =~= Map::empty(),
        json_is_plain(v),
{
    json_object(Vec::new())
}

/// The JSON object with one member.
pub fn object_with(key: &str, value: serde_json::Value) -> (v: serde_json::Value)
    ensures
        json_members(v) =~= Map::empty().insert(key@, value),
        json_is_plain(v),
{
    let mut entries: Vec<(String, serde_json::Value)> = Vec::new();
    assert(members_of(entries@) =~= Map::empty());
    add_entry(&mut entries, key, value);
    json_object(entries)
}

/// The JSON object with the two given members, under two keys.
pub fn object_pair(
    first: &str,
    first_value: serde_json::Value,
    second: &str,
    second_value: serde_json::Value,
) -> (v: serde_json::Value)
    requires
        first@ != second@,
    ensures
        json_members(v) =~= Map::empty().insert(first@, first_value).insert(
            second@,
            second_value,
        ),
        json_is_plain(v),
{
    let mut entries: Vec<(String, serde_json::Value)> = Vec::new();
    assert(members_of(entries@) =~= Map::empty());
    add_entry(&mut entries, first, first_value);
    add_entry(&mut entries, second, second_value);
    json_object(entries)
}

/// Every key of the entries is the key of a member.
proof fn lemma_keys_are_members(entries: Seq<(String, serde_json::Value)>, i: int)
    requires
        0 <= i < entries.len(),
    ensures
        members_of(entries).contains_key(entries[i].0@),
    decreases entries.len(),
{
    if i < entries.len() - 1 {
        lemma_keys_are_members(entries.drop_last(), i);
    }
}

/// Adds a member under a new key to the entries of an object under
/// construction.
pub fn add_entry(entries: &mut Vec<(String, serde_json::Value)>, key: &str,
    value: serde_json::Value)
    requires
        distinct_keys(old(entries)@),
        !members_of(old(entries)@).contains_key(key@),
    ensures
        distinct_keys(final(entries)@),
        final(entries)@.drop_last() == old(entries)@,
        final(entries)@.last().0@ == key@,
        final(entries)@.last().1 == value,
        members_of(final(entries)@) =~= members_of(old(entries)@).insert(key@, value),
{
    entries.push((String::from_str(key), value));
    proof {
        assert(entries@.drop_last() =~= old(entries)@);
        assert forall|i: int, j: int| 0 <= i < j < entries@.len() implies (
        #[trigger] entries@[i]).0@ != (#[trigger] entries@[j]).0@ by {
            if j == entries@.len() - 1 {
                lemma_keys_are_members(old(entries)@, i);
            } else {
                assert(entries@[i] == old(entries)@[i]);
                assert(entries@[j] == old(entries)@[j]);
            }
        }
    }
}

} // verus!
