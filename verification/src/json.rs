//! JSON values and the compact text they print.
//!
//! `serde_json` builds and prints the values; the contracts state the text piece by piece.
use crate::ids;
use crate::text;
use vstd::prelude::*;

verus! {

/// A JSON value of `serde_json`, carried as it is.
#[verifier::external_type_specification]
#[verifier::external_body]
pub struct ExJsonValue(serde_json::Value);

/// The compact text that a JSON value prints.
pub uninterp spec fn json_text(value: serde_json::Value) -> Seq<char>;

/// One character inside a JSON string.
pub open spec fn json_char(c: char) -> Seq<char> {
    let code = c as u32;
    if c == '"' || c == '\\' {
        seq!['\\', c]
    } else if code == 0x08 {
        seq!['\\', 'b']
    } else if code == 0x09 {
        seq!['\\', 't']
    } else if code == 0x0a {
        seq!['\\', 'n']
    } else if code == 0x0c {
        seq!['\\', 'f']
    } else if code == 0x0d {
        seq!['\\', 'r']
    } else if code < 0x20 {
        seq!['\\', 'u', '0', '0', ids::hex_char((code / 16) as nat), ids::hex_char((code % 16) as nat)]
    } else {
        seq![c]
    }
}

/// The characters of a text as they stand inside a JSON string.
pub open spec fn json_escaped(s: Seq<char>) -> Seq<char>
    decreases s.len(),
{
    if s.len() == 0 {
        Seq::empty()
    } else {
        json_escaped(s.drop_last()) + json_char(s.last())
    }
}

/// A text as a JSON string.
pub open spec fn json_quoted(s: Seq<char>) -> Seq<char> {
    seq!['"'] + json_escaped(s) + seq!['"']
}

/// A number as JSON.
pub open spec fn json_number(n: int) -> Seq<char> {
    text::signed_decimal(n)
}

/// An array of values that print as `items`.
pub open spec fn json_array_text(items: Seq<Seq<char>>) -> Seq<char> {
    seq!['['] + text::joined(items, seq![',']) + seq![']']
}

/// An object whose members print as `fields`, a key and a value each.
pub open spec fn json_object_text(fields: Seq<(Seq<char>, Seq<char>)>) -> Seq<char> {
    seq!['{'] + text::joined(
        Seq::new(fields.len(), |i: int| json_quoted(fields[i].0) + seq![':'] + fields[i].1),
        seq![','],
    ) + seq!['}']
}

/// An optional text as JSON: the string, or `null`.
pub open spec fn json_optional(value: Option<Seq<char>>) -> Seq<char> {
    match value {
        Some(text) => json_quoted(text),
        None => "null"@,
    }
}

/// An optional number as JSON: the number, or `null`.
pub open spec fn json_optional_number(value: Option<int>) -> Seq<char> {
    match value {
        Some(n) => json_number(n),
        None => "null"@,
    }
}

/// The order of keys: by the first character that differs, a prefix first.
pub open spec fn key_less(a: Seq<char>, b: Seq<char>) -> bool
    decreases a.len(),
{
    if b.len() == 0 {
        false
    } else if a.len() == 0 {
        true
    } else if a[0] != b[0] {
        a[0] < b[0]
    } else {
        key_less(a.drop_first(), b.drop_first())
    }
}

/// Whether each key stands before the next one.
pub open spec fn keys_ascend(keys: Seq<Seq<char>>) -> bool {
    forall|i: int, j: int| 0 <= i && j == i + 1 && j < keys.len() ==> key_less(#[trigger] keys[i], #[trigger] keys[j])
}

/// The keys of some members.
pub open spec fn field_keys(fields: Seq<(String, serde_json::Value)>) -> Seq<Seq<char>> {
    Seq::new(fields.len(), |i: int| fields[i].0@)
}

/// The texts of some members.
pub open spec fn field_texts(fields: Seq<(String, serde_json::Value)>) -> Seq<(Seq<char>, Seq<char>)> {
    Seq::new(fields.len(), |i: int| (fields[i].0@, json_text(fields[i].1)))
}

/// The texts of some values.
pub open spec fn value_texts(values: Seq<serde_json::Value>) -> Seq<Seq<char>> {
    Seq::new(values.len(), |i: int| json_text(values[i]))
}

/// `Value::Null` prints `null`.
#[verifier::external_body]
pub(crate) fn json_null() -> (r: serde_json::Value)
    ensures
        json_text(r) == "null"@,
{
    serde_json::Value::Null
}

/// `Value::from` a text: it prints as a quoted string, with quotes, backslashes and control
/// characters escaped.
#[verifier::external_body]
pub(crate) fn json_string(s: &str) -> (r: serde_json::Value)
    ensures
        json_text(r) == json_quoted(s@),
{
    serde_json::Value::from(s)
}

/// `Value::from` a signed number: it prints in decimal.
#[verifier::external_body]
pub(crate) fn json_integer(n: i64) -> (r: serde_json::Value)
    ensures
        json_text(r) == json_number(n as int),
{
    serde_json::Value::from(n)
}

/// `Value::from` an unsigned number: it prints in decimal.
#[verifier::external_body]
pub(crate) fn json_unsigned(n: u64) -> (r: serde_json::Value)
    ensures
        json_text(r) == json_number(n as int),
{
    serde_json::Value::from(n)
}

/// `Value::from` a list of values: it prints the values between brackets, separated by commas.
#[verifier::external_body]
pub(crate) fn json_array(values: Vec<serde_json::Value>) -> (r: serde_json::Value)
    ensures
        json_text(r) == json_array_text(value_texts(values@)),
{
    serde_json::Value::from(values)
}

/// `Value::from_iter` over members: an object, which keeps its members sorted by key and prints them
/// between braces, separated by commas. Members given in ascending order print as given.
#[verifier::external_body]
pub(crate) fn json_object(fields: Vec<(String, serde_json::Value)>) -> (r: serde_json::Value)
    requires
        keys_ascend(field_keys(fields@)),
    ensures
        json_text(r) == json_object_text(field_texts(fields@)),
{
    serde_json::Value::from_iter(fields)
}

/// `Value::clone` gives a value that prints the same.
#[verifier::external_body]
pub(crate) fn json_clone(value: &serde_json::Value) -> (r: serde_json::Value)
    ensures
        json_text(r) == json_text(*value),
{
    value.clone()
}

/// `Value`'s `Display` writes the compact text.
#[verifier::external_body]
pub(crate) fn json_print(value: &serde_json::Value) -> (r: String)
    ensures
        r@ == json_text(*value),
{
    value.to_string()
}

/// An optional text as a JSON value.
pub(crate) fn json_optional_string(value: &Option<String>) -> (r: serde_json::Value)
    ensures
        json_text(r) == json_optional(text::opt_text(*value)),
{
    match value {
        Some(text) => json_string(text.as_str()),
        None => json_null(),
    }
}

/// An optional number as a JSON value.
pub(crate) fn json_optional_integer(value: Option<i64>) -> (r: serde_json::Value)
    ensures
        json_text(r) == json_optional_number(
            match value {
                Some(n) => Some(n as int),
                None => None,
            },
        ),
{
    match value {
        Some(n) => json_integer(n),
        None => json_null(),
    }
}

/// Escaping one character takes at most six times its bytes.
proof fn lemma_char_size(c: char)
    ensures
        text::byte_len(json_char(c)) <= 6 * text::char_width(c),
{
    text::lemma_char_width(c);
    if json_char(c) == seq![c] {
        text::lemma_byte_len_push(Seq::empty(), c);
        assert(Seq::<char>::empty().push(c) =~= seq![c]);
    } else {
        assert(vstd::utf8::is_ascii_chars(json_char(c)));
        vstd::utf8::is_ascii_chars_encode_utf8(json_char(c));
    }
}

/// Escaping a text takes at most six times its bytes.
proof fn lemma_escaped_size(s: Seq<char>)
    ensures
        text::byte_len(json_escaped(s)) <= 6 * text::byte_len(s),
    decreases s.len(),
{
    if s.len() > 0 {
        lemma_escaped_size(s.drop_last());
        lemma_char_size(s.last());
        text::lemma_byte_len_concat(json_escaped(s.drop_last()), json_char(s.last()));
        text::lemma_byte_len_push(s.drop_last(), s.last());
        assert(s.drop_last().push(s.last()) =~= s);
    }
}

/// A JSON string is at most six times as large as its text, apart from the quotes.
pub proof fn lemma_quoted_size(s: Seq<char>)
    ensures
        text::byte_len(json_quoted(s)) <= 6 * text::byte_len(s) + 8,
{
    lemma_escaped_size(s);
    text::lemma_byte_len_concat(seq!['"'] + json_escaped(s), seq!['"']);
    text::lemma_byte_len_concat(seq!['"'], json_escaped(s));
    text::lemma_byte_len_le(seq!['"']);
}

/// A bound on the size of some members: each with its key escaped, a colon and a comma.
pub open spec fn fields_size(fields: Seq<(Seq<char>, Seq<char>)>) -> nat
    decreases fields.len(),
{
    if fields.len() == 0 {
        0
    } else {
        fields_size(fields.drop_last()) + 24 * fields.last().0.len() + 16 + text::byte_len(
            fields.last().1,
        )
    }
}

/// The members of an object are no larger than their bound.
proof fn lemma_members_size(fields: Seq<(Seq<char>, Seq<char>)>)
    ensures
        text::byte_len(
            text::joined(
                Seq::new(fields.len(), |i: int| json_quoted(fields[i].0) + seq![':'] + fields[i].1),
                seq![','],
            ),
        ) <= fields_size(fields),
    decreases fields.len(),
{
    let members = Seq::new(
        fields.len(),
        |i: int| json_quoted(fields[i].0) + seq![':'] + fields[i].1,
    );
    if fields.len() == 0 {
    } else {
        let last = fields.last();
        let rest = fields.drop_last();
        lemma_members_size(rest);
        assert(members.drop_last() =~= Seq::new(
            rest.len(),
            |i: int| json_quoted(rest[i].0) + seq![':'] + rest[i].1,
        ));
        lemma_quoted_size(last.0);
        text::lemma_byte_len_le(last.0);
        text::lemma_byte_len_le(seq![':']);
        text::lemma_byte_len_le(seq![',']);
        text::lemma_byte_len_concat(json_quoted(last.0), seq![':']);
        text::lemma_byte_len_concat(json_quoted(last.0) + seq![':'], last.1);
        if fields.len() > 1 {
            let before = text::joined(members.drop_last(), seq![',']);
            text::lemma_byte_len_concat(before, seq![',']);
            text::lemma_byte_len_concat(before + seq![','], members.last());
        }
    }
}

/// An object is no larger than its members and its braces.
pub proof fn lemma_object_size(fields: Seq<(Seq<char>, Seq<char>)>)
    ensures
        text::byte_len(json_object_text(fields)) <= fields_size(fields) + 8,
{
    let body = text::joined(
        Seq::new(fields.len(), |i: int| json_quoted(fields[i].0) + seq![':'] + fields[i].1),
        seq![','],
    );
    lemma_members_size(fields);
    text::lemma_byte_len_le(seq!['{']);
    text::lemma_byte_len_le(seq!['}']);
    text::lemma_byte_len_concat(seq!['{'], body);
    text::lemma_byte_len_concat(seq!['{'] + body, seq!['}']);
}

/// What is there prints as itself and what is missing as `null`.
pub proof fn law_missing_value_is_null(text: Seq<char>, n: int)
    ensures
        json_optional(Some(text)) == json_quoted(text),
        json_optional(None) == "null"@,
        json_optional_number(Some(n)) == json_number(n),
        json_optional_number(None) == "null"@,
{
}

} // verus!
