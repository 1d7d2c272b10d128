//! Calls into std, `chrono` and `uuid` that the escrow logic relies on.

use vstd::prelude::*;

verus! {

/// Relies on `chrono::Utc::now` and `DateTime::timestamp`: the current time
/// as whole seconds since the Unix epoch. Nothing is promised of the value.
#[verifier::external_body]
pub(crate) fn now_secs() -> (r: i64) {
    chrono::Utc::now().timestamp()
}

/// Relies on `uuid::Uuid::new_v4` and `Uuid::as_u128`: a random 128-bit
/// identifier. Nothing is promised of the value.
#[verifier::external_body]
pub(crate) fn fresh_id() -> (r: u128) {
    uuid::Uuid::new_v4().as_u128()
}

/// The lower-case hex digit of `d` (below 16).
pub open spec fn hex_char(d: int) -> char {
    if d < 10 {
        digit_char(d as nat)
    } else if d == 10 {
        'a'
    } else if d == 11 {
        'b'
    } else if d == 12 {
        'c'
    } else if d == 13 {
        'd'
    } else if d == 14 {
        'e'
    } else {
        'f'
    }
}

/// The character at position `i` of an identifier's hyphenated text: its
/// 32 hex digits, most significant first, with a hyphen after the 8th, 12th,
/// 16th and 20th digit.
pub open spec fn uuid_char(id: u128, i: int) -> char {
    if i == 8 || i == 13 || i == 18 || i == 23 {
        '-'
    } else {
        let k = if i < 8 {
            i
        } else if i < 13 {
            i - 1
        } else if i < 18 {
            i - 2
        } else if i < 23 {
            i - 3
        } else {
            i - 4
        };
        hex_char((id as int / vstd::arithmetic::power::pow(16, (31 - k) as nat)) % 16)
    }
}

/// The hyphenated text of an identifier (36 characters).
pub open spec fn uuid_text_of(id: u128) -> Seq<char> {
    Seq::new(36, |i: int| uuid_char(id, i))
}

/// Relies on `uuid::Uuid::from_u128` (the 16 bytes of the value, most
/// significant first) and `Hyphenated`'s `Display`: lower-case hex of those
/// bytes in 8-4-4-4-12 groups, 36 characters.
#[verifier::external_body]
pub(crate) fn uuid_text(id: u128) -> (r: String)
    ensures
        r@ == uuid_text_of(id),
        r@.len() == 36,
{
    uuid::Uuid::from_u128(id).hyphenated().to_string()
}

/// The character of a decimal digit.
pub open spec fn digit_char(d: nat) -> char {
    if d == 0 {
        '0'
    } else if d == 1 {
        '1'
    } else if d == 2 {
        '2'
    } else if d == 3 {
        '3'
    } else if d == 4 {
        '4'
    } else if d == 5 {
        '5'
    } else if d == 6 {
        '6'
    } else if d == 7 {
        '7'
    } else if d == 8 {
        '8'
    } else {
        '9'
    }
}

/// The decimal digits of `n`, without leading zeros.
pub open spec fn decimal_of(n: nat) -> Seq<char>
    decreases n,
{
    if n < 10 {
        seq![digit_char(n)]
    } else {
        decimal_of(n / 10).push(digit_char(n % 10))
    }
}

/// Relies on `u64`'s `Display` (through `ToString`): its decimal digits,
/// without sign or leading zeros.
#[verifier::external_body]
pub(crate) fn decimal(n: u64) -> (r: String)
    ensures
        r@ == decimal_of(n as nat),
{
    n.to_string()
}

/// Whether a character has the Unicode `White_Space` property.
pub open spec fn is_white_space(c: char) -> bool {
    let n = c as u32;
    (9 <= n <= 13) || n == 32 || n == 0x85 || n == 0xa0 || n == 0x1680 || (0x2000 <= n <= 0x200a)
        || n == 0x2028 || n == 0x2029 || n == 0x202f || n == 0x205f || n == 0x3000
}

/// Whether a text is empty or white space only.
pub open spec fn is_blank_text(s: Seq<char>) -> bool {
    forall|i: int| 0 <= i < s.len() ==> #[trigger] is_white_space(s[i])
}

/// Relies on `str::trim` and `str::is_empty`: `trim` removes the leading and
/// trailing characters with the `White_Space` property, so nothing is left
/// exactly when every character has it.
#[verifier::external_body]
pub(crate) fn is_blank(s: &str) -> (r: bool)
    ensures
        r == is_blank_text(s@),
{
    s.trim().is_empty()
}

/// The lower-case form of a text (`str::to_lowercase`).
pub uninterp spec fn lower_of(s: Seq<char>) -> Seq<char>;

/// Relies on `str::to_lowercase`: the result depends on the characters
/// alone, and an empty text stays empty.
#[verifier::external_body]
pub(crate) fn lowercase(s: &str) -> (r: String)
    ensures
        r@ == lower_of(s@),
        s@.len() == 0 ==> r@.len() == 0,
{
    s.to_lowercase()
}

/// A JSON value that an audit or publish record holds.
#[derive(Debug)]
pub enum JsonValue {
    Null,
    Number(i64),
    Text(String),
}

/// One member of a JSON object.
#[derive(Debug)]
pub struct JsonEntry {
    pub key: String,
    pub value: JsonValue,
}

/// What a JSON member holds: its key, its number, its string (neither for
/// null).
pub open spec fn entry_view(e: JsonEntry) -> (Seq<char>, Option<int>, Option<Seq<char>>) {
    match e.value {
        JsonValue::Null => (e.key@, None, None),
        JsonValue::Number(n) => (e.key@, Some(n as int), None),
        JsonValue::Text(t) => (e.key@, None, Some(t@)),
    }
}

/// The compact JSON text of an object with the given members
/// (`serde_json`'s `Value::to_string`).
pub uninterp spec fn json_object_of(members: Seq<(Seq<char>, Option<int>, Option<Seq<char>>)>) -> Seq<char>;

/// Relies on `serde_json::Map::insert` and `Value::to_string`: the compact
/// JSON text of the object, which depends on the members alone and is never
/// empty.
#[verifier::external_body]
pub(crate) fn json_object(members: &Vec<JsonEntry>) -> (r: String)
    ensures
        r@ == json_object_of(members@.map_values(|e: JsonEntry| entry_view(e))),
        r@.len() > 0,
{
    let mut map = serde_json::Map::new();
    for e in members.iter() {
        let value = match &e.value {
            JsonValue::Null => serde_json::Value::Null,
            JsonValue::Number(n) => serde_json::Value::from(*n),
            JsonValue::Text(t) => serde_json::Value::from(t.as_str()),
        };
        map.insert(e.key.clone(), value);
    }
    serde_json::Value::Object(map).to_string()
}

} // verus!
