//! The members of JSON objects: how records write them and read them back.

use crate::json::{last_named, JsonMember, JsonModel, JsonNumber, JsonValue, MemberModel};
use crate::text::owned;
use vstd::prelude::*;

verus! {

/// Why a JSON value is not the record that was asked for.
#[derive(Debug, Clone, Copy, PartialEq, Eq, Structural)]
pub enum DecodeError {
    /// A value is not of the JSON kind that its place asks for.
    WrongKind,
    /// A member that the record needs is missing.
    MissingField,
    /// The value names no variant of a closed choice, or fits none.
    UnknownVariant,
    /// The code is none of the fixed error codes.
    UnknownCode(i64),
}

/// The views of the members `members`, in order.
pub open spec fn models(members: Seq<JsonMember>) -> Seq<MemberModel> {
    Seq::new(members.len(), |i: int| members[i]@)
}

/// `members` with one more member.
pub open spec fn put(members: Seq<MemberModel>, name: Seq<char>, value: JsonModel) -> Seq<
    MemberModel,
> {
    members.push(MemberModel { name, value })
}

/// `members` with one more member if there is a value for it.
pub open spec fn put_optional(
    members: Seq<MemberModel>,
    name: Seq<char>,
    value: Option<JsonModel>,
) -> Seq<MemberModel> {
    match value {
        Some(v) => put(members, name, v),
        None => members,
    }
}

/// What an optional member holds: nothing where it is missing or `null`.
pub open spec fn present(member: Option<JsonModel>) -> Option<JsonModel> {
    match member {
        Some(JsonModel::Null) => None,
        other => other,
    }
}

/// The text of a string.
pub open spec fn text_of(value: JsonModel) -> Result<Seq<char>, DecodeError> {
    match value {
        JsonModel::String(s) => Ok(s),
        _ => Err(DecodeError::WrongKind),
    }
}

/// The truth value of a boolean.
pub open spec fn flag_of(value: JsonModel) -> Result<bool, DecodeError> {
    match value {
        JsonModel::Bool(b) => Ok(b),
        _ => Err(DecodeError::WrongKind),
    }
}

/// The number of an integer that fits 32 bits.
pub open spec fn i32_of(value: JsonModel) -> Result<i32, DecodeError> {
    match value {
        JsonModel::Integer(i) => if i32::MIN <= i <= i32::MAX {
            Ok(i as i32)
        } else {
            Err(DecodeError::WrongKind)
        },
        _ => Err(DecodeError::WrongKind),
    }
}

/// Any value, as it is.
pub open spec fn json_of(value: JsonModel) -> Result<JsonModel, DecodeError> {
    Ok(value)
}

/// The items of `values` as `decode` reads them, or the first failure.
pub open spec fn decode_all<T>(
    values: Seq<JsonModel>,
    decode: spec_fn(JsonModel) -> Result<T, DecodeError>,
) -> Result<Seq<T>, DecodeError>
    decreases values.len(),
{
    if values.len() == 0 {
        Ok(Seq::empty())
    } else {
        match decode_all(values.drop_last(), decode) {
            Err(e) => Err(e),
            Ok(front) => match decode(values.last()) {
                Err(e) => Err(e),
                Ok(item) => Ok(front.push(item)),
            },
        }
    }
}

/// The items of an array as `decode` reads them.
pub open spec fn array_of<T>(
    value: JsonModel,
    decode: spec_fn(JsonModel) -> Result<T, DecodeError>,
) -> Result<Seq<T>, DecodeError> {
    match value {
        JsonModel::Array(values) => decode_all(values, decode),
        _ => Err(DecodeError::WrongKind),
    }
}

/// The member `name` of `object` as `decode` reads it; the member must be
/// there.
pub open spec fn required<T>(
    object: JsonModel,
    name: Seq<char>,
    decode: spec_fn(JsonModel) -> Result<T, DecodeError>,
) -> Result<T, DecodeError> {
    match object.member(name) {
        Some(value) => decode(value),
        None => Err(DecodeError::MissingField),
    }
}

/// The member `name` of `object` as `decode` reads it, or nothing where the
/// member is missing or `null`.
pub open spec fn optional<T>(
    object: JsonModel,
    name: Seq<char>,
    decode: spec_fn(JsonModel) -> Result<T, DecodeError>,
) -> Result<Option<T>, DecodeError> {
    match present(object.member(name)) {
        Some(value) => match decode(value) {
            Ok(item) => Ok(Some(item)),
            Err(e) => Err(e),
        },
        None => Ok(None),
    }
}

/// A member that was put last is found under its name; under another name
/// what was there before is found.
pub broadcast proof fn lemma_member_after_put(
    members: Seq<MemberModel>,
    name: Seq<char>,
    value: JsonModel,
    key: Seq<char>,
)
    ensures
        #[trigger] last_named(put(members, name, value), key) == if name == key {
            Some(value)
        } else {
            last_named(members, key)
        },
{
    assert(put(members, name, value).drop_last() =~= members);
}

/// An optional member that was put last is found under its name if it has a
/// value; under another name what was there before is found.
pub broadcast proof fn lemma_member_after_put_optional(
    members: Seq<MemberModel>,
    name: Seq<char>,
    value: Option<JsonModel>,
    key: Seq<char>,
)
    ensures
        #[trigger] last_named(put_optional(members, name, value), key) == if name == key
            && value is Some {
            value
        } else {
            last_named(members, key)
        },
{
    if value is Some {
        lemma_member_after_put(members, name, value->0, key);
    }
}

/// Reading the items that were written gives the items back, if reading
/// what was written for one item gives that item back.
pub proof fn lemma_decode_all_encoded<T>(
    items: Seq<T>,
    encode: spec_fn(T) -> JsonModel,
    decode: spec_fn(JsonModel) -> Result<T, DecodeError>,
)
    requires
        forall|i: int| 0 <= i < items.len() ==> decode(encode(#[trigger] items[i])) == Ok::<T, DecodeError>(items[i]),
    ensures
        decode_all(items.map_values(encode), decode) == Ok::<Seq<T>, DecodeError>(items),
    decreases items.len(),
{
    let values = items.map_values(encode);
    if items.len() == 0 {
        assert(items =~= Seq::<T>::empty());
    } else {
        let front = items.drop_last();
        assert(values.drop_last() =~= front.map_values(encode));
        lemma_decode_all_encoded(front, encode, decode);
        assert(values.last() == encode(items.last()));
        assert(front.push(items.last()) =~= items);
    }
}

/// Where the items of a front part are read and the next item fails, the
/// whole fails in the same way.
pub proof fn lemma_decode_all_fails<T>(
    values: Seq<JsonModel>,
    decode: spec_fn(JsonModel) -> Result<T, DecodeError>,
    i: int,
)
    requires
        0 <= i < values.len(),
        decode_all(values.subrange(0, i), decode) is Ok,
        decode(values[i]) is Err,
    ensures
        decode_all(values, decode) == Err::<Seq<T>, DecodeError>(decode(values[i])->Err_0),
    decreases values.len(),
{
    let front = values.drop_last();
    if i == values.len() - 1 {
        assert(front =~= values.subrange(0, i));
    } else {
        assert(front.subrange(0, i) =~= values.subrange(0, i));
        lemma_decode_all_fails(front, decode, i);
    }
}

/// Reading one more item after a front part that was read.
pub proof fn lemma_decode_all_step<T>(
    values: Seq<JsonModel>,
    decode: spec_fn(JsonModel) -> Result<T, DecodeError>,
    i: int,
)
    requires
        0 <= i < values.len(),
        decode_all(values.subrange(0, i), decode) is Ok,
        decode(values[i]) is Ok,
    ensures
        decode_all(values.subrange(0, i + 1), decode) == Ok::<Seq<T>, DecodeError>(
            decode_all(values.subrange(0, i), decode)->Ok_0.push(decode(values[i])->Ok_0),
        ),
{
    let next = values.subrange(0, i + 1);
    assert(next.drop_last() =~= values.subrange(0, i));
    assert(next.last() == values[i]);
}

/// The members of `members` as `decode` reads their values, each with its
/// name, or the first failure.
pub open spec fn decode_members<T>(
    members: Seq<MemberModel>,
    decode: spec_fn(JsonModel) -> Result<T, DecodeError>,
) -> Result<Seq<(Seq<char>, T)>, DecodeError>
    decreases members.len(),
{
    if members.len() == 0 {
        Ok(Seq::empty())
    } else {
        match decode_members(members.drop_last(), decode) {
            Err(e) => Err(e),
            Ok(front) => match decode(members.last().value) {
                Err(e) => Err(e),
                Ok(item) => Ok(front.push((members.last().name, item))),
            },
        }
    }
}

/// The members of an object as `decode` reads their values, each with its
/// name.
pub open spec fn map_of<T>(
    value: JsonModel,
    decode: spec_fn(JsonModel) -> Result<T, DecodeError>,
) -> Result<Seq<(Seq<char>, T)>, DecodeError> {
    match value {
        JsonModel::Object(members) => decode_members(members, decode),
        _ => Err(DecodeError::WrongKind),
    }
}

/// The members that are written for `entries`: one for each entry, in
/// order, with the value as `encode` writes it.
pub open spec fn members_of<T>(
    entries: Seq<(Seq<char>, T)>,
    encode: spec_fn(T) -> JsonModel,
) -> Seq<MemberModel> {
    Seq::new(
        entries.len(),
        |i: int| MemberModel { name: entries[i].0, value: encode(entries[i].1) },
    )
}

/// Reading the entries that were written gives the entries back, if reading
/// what was written for one value gives that value back.
pub proof fn lemma_decode_members_encoded<T>(
    entries: Seq<(Seq<char>, T)>,
    encode: spec_fn(T) -> JsonModel,
    decode: spec_fn(JsonModel) -> Result<T, DecodeError>,
)
    requires
        forall|i: int|
            0 <= i < entries.len() ==> decode(encode((#[trigger] entries[i]).1)) == Ok::<
                T,
                DecodeError,
            >(entries[i].1),
    ensures
        decode_members(members_of(entries, encode), decode) == Ok::<
            Seq<(Seq<char>, T)>,
            DecodeError,
        >(entries),
    decreases entries.len(),
{
    let members = members_of(entries, encode);
    if entries.len() == 0 {
        assert(entries =~= Seq::<(Seq<char>, T)>::empty());
    } else {
        let front = entries.drop_last();
        assert(members.drop_last() =~= members_of(front, encode));
        lemma_decode_members_encoded(front, encode, decode);
        assert(members.last().value == encode(entries.last().1));
        assert(front.push((entries.last().0, entries.last().1)) =~= entries);
    }
}

/// Where the members of a front part are read and the value of the next
/// member fails, the whole fails in the same way.
pub proof fn lemma_decode_members_fails<T>(
    members: Seq<MemberModel>,
    decode: spec_fn(JsonModel) -> Result<T, DecodeError>,
    i: int,
)
    requires
        0 <= i < members.len(),
        decode_members(members.subrange(0, i), decode) is Ok,
        decode(members[i].value) is Err,
    ensures
        decode_members(members, decode) == Err::<Seq<(Seq<char>, T)>, DecodeError>(
            decode(members[i].value)->Err_0,
        ),
    decreases members.len(),
{
    let front = members.drop_last();
    if i == members.len() - 1 {
        assert(front =~= members.subrange(0, i));
    } else {
        assert(front.subrange(0, i) =~= members.subrange(0, i));
        lemma_decode_members_fails(front, decode, i);
    }
}

/// Reading one more member after a front part that was read.
pub proof fn lemma_decode_members_step<T>(
    members: Seq<MemberModel>,
    decode: spec_fn(JsonModel) -> Result<T, DecodeError>,
    i: int,
)
    requires
        0 <= i < members.len(),
        decode_members(members.subrange(0, i), decode) is Ok,
        decode(members[i].value) is Ok,
    ensures
        decode_members(members.subrange(0, i + 1), decode) == Ok::<
            Seq<(Seq<char>, T)>,
            DecodeError,
        >(
            decode_members(members.subrange(0, i), decode)->Ok_0.push(
                (members[i].name, decode(members[i].value)->Ok_0),
            ),
        ),
{
    let next = members.subrange(0, i + 1);
    assert(next.drop_last() =~= members.subrange(0, i));
    assert(next.last() == members[i]);
}

/// What writes a text as a JSON string.
pub open spec fn text_encoder() -> spec_fn(Seq<char>) -> JsonModel {
    |text: Seq<char>| JsonModel::String(text)
}

/// What reads a text from a JSON string.
pub open spec fn text_decoder() -> spec_fn(JsonModel) -> Result<Seq<char>, DecodeError> {
    |value: JsonModel| text_of(value)
}

/// The array that is written for a list of texts.
pub open spec fn encode_texts(items: Seq<Seq<char>>) -> JsonModel {
    JsonModel::Array(items.map_values(text_encoder()))
}

/// The list of texts that an array stands for.
pub open spec fn decode_texts(value: JsonModel) -> Result<Seq<Seq<char>>, DecodeError> {
    array_of(value, text_decoder())
}

/// Reading what was written for a list of texts gives the list back.
pub proof fn lemma_texts_round_trip(items: Seq<Seq<char>>)
    ensures
        decode_texts(encode_texts(items)) == Ok::<Seq<Seq<char>>, DecodeError>(items),
{
    lemma_decode_all_encoded(items, text_encoder(), text_decoder());
}

/// Writes a list of texts as a JSON array.
pub fn write_texts(items: &Vec<String>) -> (r: JsonValue)
    ensures
        r@ == encode_texts(items.deep_view()),
{
    let mut out: Vec<JsonValue> = Vec::new();
    let mut i: usize = 0;
    while i < items.len()
        invariant
            i <= items@.len(),
            out@.len() == i,
            forall|j: int| 0 <= j < i ==> (#[trigger] out@[j])@ == JsonModel::String(items@[j]@),
        decreases items@.len() - i,
    {
        out.push(string_of(items[i].as_str()));
        i += 1;
    }
    let r = JsonValue::Array(out);
    assert(r@->Array_0 =~= items.deep_view().map_values(text_encoder()));
    r
}

/// Reads a list of texts from a JSON array.
pub fn read_texts(value: &JsonValue) -> (r: Result<Vec<String>, DecodeError>)
    ensures
        match r {
            Ok(items) => decode_texts(value@) == Ok::<Seq<Seq<char>>, DecodeError>(
                items.deep_view(),
            ),
            Err(e) => decode_texts(value@) == Err::<Seq<Seq<char>>, DecodeError>(e),
        },
{
    match value {
        JsonValue::Array(values) => {
            let ghost all = value@->Array_0;
            let mut out: Vec<String> = Vec::new();
            let mut i: usize = 0;
            assert(all.subrange(0, 0) =~= Seq::<JsonModel>::empty());
            assert(out.deep_view() =~= Seq::<Seq<char>>::empty());
            while i < values.len()
                invariant
                    i <= values@.len(),
                    value@ == JsonModel::Array(all),
                    all.len() == values@.len(),
                    forall|j: int| 0 <= j < all.len() ==> all[j] == (#[trigger] values@[j])@,
                    decode_all(all.subrange(0, i as int), text_decoder()) == Ok::<
                        Seq<Seq<char>>,
                        DecodeError,
                    >(out.deep_view()),
                decreases values@.len() - i,
            {
                let ghost before = out.deep_view();
                match read_text(&values[i]) {
                    Ok(item) => {
                        proof {
                            lemma_decode_all_step(all, text_decoder(), i as int);
                        }
                        out.push(item);
                        assert(out.deep_view() =~= before.push(item@));
                    },
                    Err(e) => {
                        proof {
                            lemma_decode_all_fails(all, text_decoder(), i as int);
                        }
                        return Err(e);
                    },
                }
                i += 1;
            }
            assert(all.subrange(0, i as int) =~= all);
            Ok(out)
        },
        _ => Err(DecodeError::WrongKind),
    }
}

/// Adds the member `name` with the value `value`.
pub fn push_member(members: &mut Vec<JsonMember>, name: &str, value: JsonValue)
    ensures
        models(final(members)@) == put(models(old(members)@), name@, value@),
{
    members.push(JsonMember { name: owned(name), value });
    assert(models(members@) =~= put(models(old(members)@), name@, value@));
}

/// An object with the members `members`.
pub fn object_of(members: Vec<JsonMember>) -> (r: JsonValue)
    ensures
        r@ == JsonModel::Object(models(members@)),
{
    let r = JsonValue::Object(members);
    assert(r@->Object_0 =~= models(members@));
    r
}

/// A string with the text `text`.
pub fn string_of(text: &str) -> (r: JsonValue)
    ensures
        r@ == JsonModel::String(text@),
{
    JsonValue::String(owned(text))
}

/// An integer with the number `n`.
pub fn integer_of(n: i32) -> (r: JsonValue)
    ensures
        r@ == JsonModel::Integer(n as int),
{
    if n < 0 {
        JsonValue::Number(JsonNumber::NegInt(n as i64))
    } else {
        JsonValue::Number(JsonNumber::PosInt(n as u64))
    }
}

/// The text of a string.
pub fn read_text(value: &JsonValue) -> (r: Result<String, DecodeError>)
    ensures
        match r {
            Ok(s) => text_of(value@) == Ok::<Seq<char>, DecodeError>(s@),
            Err(e) => text_of(value@) == Err::<Seq<char>, DecodeError>(e),
        },
{
    match value {
        JsonValue::String(s) => Ok(s.clone()),
        _ => Err(DecodeError::WrongKind),
    }
}

/// The truth value of a boolean.
pub fn read_flag(value: &JsonValue) -> (r: Result<bool, DecodeError>)
    ensures
        r == flag_of(value@),
{
    match value {
        JsonValue::Bool(b) => Ok(*b),
        _ => Err(DecodeError::WrongKind),
    }
}

/// The number of an integer that fits 32 bits.
pub fn read_i32(value: &JsonValue) -> (r: Result<i32, DecodeError>)
    ensures
        r == i32_of(value@),
{
    match value.as_i64() {
        Some(n) => {
            if -0x8000_0000 <= n && n <= 0x7fff_ffff {
                Ok(n as i32)
            } else {
                Err(DecodeError::WrongKind)
            }
        },
        None => Err(DecodeError::WrongKind),
    }
}

/// A copy of any value.
pub fn read_json(value: &JsonValue) -> (r: Result<JsonValue, DecodeError>)
    ensures
        r is Ok,
        json_of(value@) == Ok::<JsonModel, DecodeError>(r->Ok_0@),
{
    Ok(value.clone())
}

/// The member `name` of `object`, if it is there and not `null`.
pub fn get_present<'a>(object: &'a JsonValue, name: &str) -> (r: Option<&'a JsonValue>)
    ensures
        match r {
            Some(v) => present(object@.member(name@)) == Some(v@),
            None => present(object@.member(name@)) is None,
        },
{
    match object.get(name) {
        Some(JsonValue::Null) => None,
        other => other,
    }
}

} // verus!
