//! JSON values: what a `serde_json::Value` holds, and the calls into `serde_json` that read,
//! build, parse and print one.
use vstd::prelude::*;
use vstd::utf8::encode_utf8;

use crate::text::decimal;

verus! {

/// What a JSON number is: an integer, or a floating-point number given by the text that
/// `serde_json` prints for it.
pub enum NumberModel {
    Int(int),
    Float(Seq<char>),
}

/// What a JSON value is.
#[verifier::ext_equal]
pub enum JsonModel {
    Null,
    Bool(bool),
    Number(NumberModel),
    Str(Seq<char>),
    Array(Seq<JsonModel>),
    Object(Map<Seq<char>, JsonModel>),
}

/// The member of an object that stands under `key`; nothing is a member of any other value.
pub open spec fn member(m: JsonModel, key: Seq<char>) -> Option<JsonModel> {
    match m {
        JsonModel::Object(map) => if map.dom().contains(key) {
            Some(map[key])
        } else {
            None
        },
        _ => None,
    }
}

/// The text of a string value.
pub open spec fn str_of(m: JsonModel) -> Option<Seq<char>> {
    match m {
        JsonModel::Str(s) => Some(s),
        _ => None,
    }
}

/// The value of an integer that fits in 64 signed bits.
pub open spec fn i64_of(m: JsonModel) -> Option<i64> {
    match m {
        JsonModel::Number(NumberModel::Int(n)) => if i64::MIN <= n <= i64::MAX {
            Some(n as i64)
        } else {
            None
        },
        _ => None,
    }
}

/// How a number is printed.
pub open spec fn number_notation(n: NumberModel) -> Seq<char> {
    match n {
        NumberModel::Int(i) => decimal(i),
        NumberModel::Float(t) => t,
    }
}

/// The object that holds the given members; of two members with one key the later one counts.
pub open spec fn object_of(entries: Seq<(String, serde_json::Value)>) -> Map<Seq<char>, JsonModel>
    decreases entries.len(),
{
    if entries.len() == 0 {
        Map::empty()
    } else {
        object_of(entries.drop_last()).insert(entries.last().0@, model(entries.last().1))
    }
}

/// One more member is inserted into the object.
pub broadcast proof fn lemma_object_of_push(
    entries: Seq<(String, serde_json::Value)>,
    entry: (String, serde_json::Value),
)
    ensures
        #[trigger] object_of(entries.push(entry)) == object_of(entries).insert(
            entry.0@,
            model(entry.1),
        ),
{
    assert(entries.push(entry).drop_last() =~= entries);
}

/// The values that a sequence of JSON values stands for.
pub open spec fn models(values: Seq<serde_json::Value>) -> Seq<JsonModel> {
    Seq::new(values.len(), |i: int| model(values[i]))
}

/// Key that `serde_json` keeps for itself: where it is the first key of an object, the parser reads
/// the text under it in place of the object.
pub const RAW_VALUE_KEY: &'static str = "$serde_json::private::RawValue";

/// The value holds no floating-point number, no object in it has the key that `serde_json` keeps for
/// itself, and it nests arrays and objects at most `depth` deep.
pub open spec fn plain_to_depth(m: JsonModel, depth: nat) -> bool
    decreases depth,
{
    match m {
        JsonModel::Number(NumberModel::Float(_)) => false,
        JsonModel::Array(items) => depth > 0 && forall|i: int|
            0 <= i < items.len() ==> plain_to_depth(#[trigger] items[i], (depth - 1) as nat),
        JsonModel::Object(map) => depth > 0 && !map.dom().contains(RAW_VALUE_KEY@) && forall|
            k: Seq<char>,
        |
            map.dom().contains(k) ==> plain_to_depth(#[trigger] map[k], (depth - 1) as nat),
        _ => true,
    }
}

/// `serde_json::Value`, a JSON value.
#[verifier::external_type_specification]
#[verifier::external_body]
pub struct ExValue(serde_json::Value);

/// `serde_json::Error`, the reason why a text is not JSON.
#[verifier::external_type_specification]
#[verifier::external_body]
pub struct ExJsonError(serde_json::Error);

/// What a `serde_json::Value` holds.
pub uninterp spec fn model(value: serde_json::Value) -> JsonModel;

/// What `serde_json::from_str` reads from a text; nothing where the text is not JSON.
pub uninterp spec fn parsed(text: Seq<char>) -> Option<JsonModel>;

/// What `serde_json::from_slice` reads from bytes; nothing where they are not JSON.
pub uninterp spec fn parsed_bytes(bytes: Seq<u8>) -> Option<JsonModel>;

/// The compact text that `serde_json` prints for a value.
pub uninterp spec fn json_text(m: JsonModel) -> Seq<char>;

/// `serde_json::from_str`: a text is read as one JSON value.
#[verifier::external_body]
pub(crate) fn parse(text: &str) -> (r: Result<serde_json::Value, serde_json::Error>)
    ensures
        match r {
            Ok(value) => parsed(text@) == Some(model(value)),
            Err(_) => parsed(text@) is None,
        },
{
    serde_json::from_str(text)
}

/// `serde_json::from_slice`: bytes are read as one JSON value.
#[verifier::external_body]
pub(crate) fn parse_bytes(bytes: &[u8]) -> (r: Result<serde_json::Value, serde_json::Error>)
    ensures
        match r {
            Ok(value) => parsed_bytes(bytes@) == Some(model(value)),
            Err(_) => parsed_bytes(bytes@) is None,
        },
{
    serde_json::from_slice(bytes)
}

/// `Value::get` with a string index: the member of an object, `None` where the object has no such
/// member or the value is no object.
#[verifier::external_body]
pub(crate) fn get<'a>(value: &'a serde_json::Value, key: &str) -> (r: Option<&'a serde_json::Value>)
    ensures
        match r {
            Some(found) => member(model(*value), key@) == Some(model(*found)),
            None => member(model(*value), key@) is None,
        },
{
    value.get(key)
}

/// `Value::as_str`: the text of a string value, `None` for any other value.
#[verifier::external_body]
pub(crate) fn as_str(value: &serde_json::Value) -> (r: Option<&str>)
    ensures
        match r {
            Some(text) => str_of(model(*value)) == Some(text@),
            None => str_of(model(*value)) is None,
        },
{
    value.as_str()
}

/// `Value::as_i64`: the value of an integer in the range of `i64`, `None` for any other value.
#[verifier::external_body]
pub(crate) fn as_i64(value: &serde_json::Value) -> (r: Option<i64>)
    ensures
        r == i64_of(model(*value)),
{
    value.as_i64()
}

/// `Number::to_string` on the number of a number value: integers are printed in decimal notation,
/// floating-point numbers as the text that stands for them. `None` for any other value.
#[verifier::external_body]
pub(crate) fn number_text(value: &serde_json::Value) -> (r: Option<String>)
    ensures
        match (r, model(*value)) {
            (Some(text), JsonModel::Number(number)) => text@ == number_notation(number),
            (None, JsonModel::Number(_)) => false,
            (found, _) => found is None,
        },
{
    match value {
        serde_json::Value::Number(number) => Some(number.to_string()),
        _ => None,
    }
}

/// `Value::is_null`: whether the value is `null`.
#[verifier::external_body]
pub(crate) fn is_null(value: &serde_json::Value) -> (r: bool)
    ensures
        r == (model(*value) is Null),
{
    value.is_null()
}

/// `Value::clone`: a value that holds the same.
#[verifier::external_body]
pub(crate) fn copy(value: &serde_json::Value) -> (r: serde_json::Value)
    ensures
        model(r) == model(*value),
{
    value.clone()
}

/// `Value::from_iter` on key and value pairs: the object with these members.
#[verifier::external_body]
pub(crate) fn object(entries: Vec<(String, serde_json::Value)>) -> (r: serde_json::Value)
    ensures
        model(r) == JsonModel::Object(object_of(entries@)),
{
    serde_json::Value::from_iter(entries)
}

/// `Value::from` on a string: the string value with this text.
#[verifier::external_body]
pub(crate) fn string(text: String) -> (r: serde_json::Value)
    ensures
        model(r) == JsonModel::Str(text@),
{
    serde_json::Value::from(text)
}

/// `Value::from` on a signed integer: the number value with this value.
#[verifier::external_body]
pub(crate) fn integer(n: i64) -> (r: serde_json::Value)
    ensures
        model(r) == JsonModel::Number(NumberModel::Int(n as int)),
{
    serde_json::Value::from(n)
}

/// `Value::from` on a truth value: the value that holds it.
#[verifier::external_body]
pub(crate) fn boolean(b: bool) -> (r: serde_json::Value)
    ensures
        model(r) == JsonModel::Bool(b),
{
    serde_json::Value::from(b)
}

/// `Value::from` on a vector of values: the array with these items.
#[verifier::external_body]
pub(crate) fn array(items: Vec<serde_json::Value>) -> (r: serde_json::Value)
    ensures
        model(r) == JsonModel::Array(models(items@)),
{
    serde_json::Value::from(items)
}

/// `Value::default`: the value `null`.
#[verifier::external_body]
pub(crate) fn null() -> (r: serde_json::Value)
    ensures
        model(r) == JsonModel::Null,
{
    serde_json::Value::default()
}

/// `Value::to_string`: the compact text of a value. It is one line without control characters.
/// Where the value holds no floating-point number and no key that `serde_json` keeps for itself, and
/// stays within the nesting that the parser accepts, `from_str` reads the value back from the text,
/// and `from_slice` from its bytes.
#[verifier::external_body]
pub(crate) fn print(value: &serde_json::Value) -> (r: String)
    ensures
        r@ == json_text(model(*value)),
        forall|i: int| 0 <= i < r@.len() ==> #[trigger] r@[i] >= ' ',
        plain_to_depth(model(*value), 127) ==> parsed(r@) == Some(model(*value)),
        plain_to_depth(model(*value), 127) ==> parsed_bytes(encode_utf8(r@)) == Some(model(*value)),
{
    value.to_string()
}

/// The members of an object are what its map holds; no other value has members.
pub proof fn law_members(
    map: Map<Seq<char>, JsonModel>,
    key: Seq<char>,
    value: JsonModel,
    other: JsonModel,
)
    requires
        !(other is Object),
    ensures
        map.dom().contains(key) ==> member(JsonModel::Object(map), key) == Some(map[key]),
        !map.dom().contains(key) ==> member(JsonModel::Object(map), key) is None,
        member(JsonModel::Object(map.insert(key, value)), key) == Some(value),
        member(other, key) is None,
{
}

/// A text is read from a string and from nothing else, an integer from an integer of 64 signed bits
/// and from nothing else.
pub proof fn law_plain_values(text: Seq<char>, n: int, value: JsonModel)
    ensures
        str_of(JsonModel::Str(text)) == Some(text),
        !(value is Str) ==> str_of(value) is None,
        -0x8000_0000_0000_0000 <= n <= 0x7fff_ffff_ffff_ffff ==> i64_of(
            JsonModel::Number(NumberModel::Int(n)),
        ) == Some(n as i64),
        !(-0x8000_0000_0000_0000 <= n <= 0x7fff_ffff_ffff_ffff) ==> i64_of(
            JsonModel::Number(NumberModel::Int(n)),
        ) is None,
        i64_of(JsonModel::Number(NumberModel::Float(text))) is None,
        !(value is Number) ==> i64_of(value) is None,
        number_notation(NumberModel::Int(n)) == decimal(n),
        number_notation(NumberModel::Float(text)) == text,
{
}

/// Which values are plain: all that are neither floating-point numbers nor containers, and
/// containers of plain values one level down, objects only without the reserved key.
pub proof fn law_plain_to_depth(
    value: JsonModel,
    items: Seq<JsonModel>,
    map: Map<Seq<char>, JsonModel>,
    n: int,
    text: Seq<char>,
    depth: nat,
)
    ensures
        !(value is Number) && !(value is Array) && !(value is Object) ==> plain_to_depth(
            value,
            depth,
        ),
        plain_to_depth(JsonModel::Number(NumberModel::Int(n)), depth),
        !plain_to_depth(JsonModel::Number(NumberModel::Float(text)), depth),
        !plain_to_depth(JsonModel::Array(items), 0),
        !plain_to_depth(JsonModel::Object(map), 0),
        plain_to_depth(JsonModel::Array(items), depth + 1) <==> forall|i: int|
            0 <= i < items.len() ==> plain_to_depth(#[trigger] items[i], depth),
        plain_to_depth(JsonModel::Object(map), depth + 1) <==> {
            &&& !map.dom().contains("$serde_json::private::RawValue"@)
            &&& forall|k: Seq<char>|
                map.dom().contains(k) ==> plain_to_depth(#[trigger] map[k], depth)
        },
{
    let above: nat = depth + 1;
    assert((above - 1) as nat == depth);
    let array = JsonModel::Array(items);
    if plain_to_depth(array, above) {
        assert forall|i: int| 0 <= i < items.len() implies plain_to_depth(
            #[trigger] items[i],
            depth,
        ) by {
            assert(plain_to_depth(array->Array_0[i], (above - 1) as nat));
        }
    }
    if forall|i: int| 0 <= i < items.len() ==> plain_to_depth(#[trigger] items[i], depth) {
        assert forall|i: int| 0 <= i < items.len() implies plain_to_depth(
            #[trigger] array->Array_0[i],
            (above - 1) as nat,
        ) by {
            assert(plain_to_depth(items[i], depth));
        }
        assert(plain_to_depth(array, above));
    }
    let object = JsonModel::Object(map);
    if plain_to_depth(object, above) {
        assert forall|k: Seq<char>| map.dom().contains(k) implies plain_to_depth(
            #[trigger] map[k],
            depth,
        ) by {
            assert(plain_to_depth(object->Object_0[k], (above - 1) as nat));
        }
    }
    if forall|k: Seq<char>| map.dom().contains(k) ==> plain_to_depth(#[trigger] map[k], depth) {
        assert forall|k: Seq<char>| map.dom().contains(k) implies plain_to_depth(
            #[trigger] object->Object_0[k],
            (above - 1) as nat,
        ) by {
            assert(plain_to_depth(map[k], depth));
        }
        assert(!map.dom().contains(RAW_VALUE_KEY@) ==> plain_to_depth(object, above));
    }
}

/// A sequence of values stands for the values one by one, and an object without entries is empty.
pub proof fn law_values_one_by_one(values: Seq<serde_json::Value>)
    ensures
        models(values).len() == values.len(),
        forall|i: int| 0 <= i < values.len() ==> #[trigger] models(values)[i] == model(values[i]),
        object_of(Seq::empty()) == Map::<Seq<char>, JsonModel>::empty(),
{
}

} // verus!
