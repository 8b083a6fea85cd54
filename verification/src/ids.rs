//! Process identities: 128-bit numbers written as UUIDs.
use vstd::prelude::*;

verus! {

/// The identity of a managed process, or a lease token: the 128 bits of a UUID.
pub type ProcessId = u128;

/// The lower-case hexadecimal digit of a value below sixteen.
pub open spec fn hex_char(d: nat) -> char {
    if d < 10 {
        ('0' as u32 + d) as char
    } else {
        ('a' as u32 + (d - 10)) as char
    }
}

/// The value of a hexadecimal digit of either case.
pub open spec fn hex_value(c: char) -> Option<nat> {
    if '0' <= c <= '9' {
        Some((c as u32 - '0' as u32) as nat)
    } else if 'a' <= c <= 'f' {
        Some((c as u32 - 'a' as u32 + 10) as nat)
    } else if 'A' <= c <= 'F' {
        Some((c as u32 - 'A' as u32 + 10) as nat)
    } else {
        None
    }
}

/// The last `width` hexadecimal digits of a number.
pub open spec fn hex_digits(n: nat, width: nat) -> Seq<char>
    decreases width,
{
    if width == 0 {
        Seq::empty()
    } else {
        hex_digits(n / 16, (width - 1) as nat).push(hex_char(n % 16))
    }
}

/// The number that hexadecimal digits denote, if all of them are digits.
pub open spec fn hex_number(s: Seq<char>) -> Option<nat>
    decreases s.len(),
{
    if s.len() == 0 {
        Some(0)
    } else {
        match (hex_number(s.drop_last()), hex_value(s.last())) {
            (Some(high), Some(low)) => Some(high * 16 + low),
            _ => None,
        }
    }
}

/// Thirty-two digits in groups of 8, 4, 4, 4 and 12, with hyphens between the groups.
pub open spec fn hyphenated(digits: Seq<char>) -> Seq<char> {
    digits.subrange(0, 8) + seq!['-'] + digits.subrange(8, 12) + seq!['-'] + digits.subrange(12, 16)
        + seq!['-'] + digits.subrange(16, 20) + seq!['-'] + digits.subrange(20, 32)
}

/// The digits of a hyphenated text.
pub open spec fn without_hyphens(s: Seq<char>) -> Option<Seq<char>> {
    if s.len() == 36 && s[8] == '-' && s[13] == '-' && s[18] == '-' && s[23] == '-' {
        Some(
            s.subrange(0, 8) + s.subrange(9, 13) + s.subrange(14, 18) + s.subrange(19, 23)
                + s.subrange(24, 36),
        )
    } else {
        None
    }
}

/// A character without its ASCII case.
pub open spec fn ascii_lower(c: char) -> char {
    if 'A' <= c <= 'Z' {
        (c as u32 + 32) as char
    } else {
        c
    }
}

/// Takes the ASCII case off a character.
pub fn to_ascii_lower(c: char) -> (r: char)
    ensures
        r == ascii_lower(c),
{
    if 'A' <= c && c <= 'Z' {
        (c as u8 + 32) as char
    } else {
        c
    }
}

/// The digits of a UUID text: bare, hyphenated, braced, or as a URN.
pub open spec fn uuid_digits(s: Seq<char>) -> Option<Seq<char>> {
    if s.len() == 32 {
        Some(s)
    } else if s.len() == 36 {
        without_hyphens(s)
    } else if s.len() == 38 && s[0] == '{' && s[37] == '}' {
        without_hyphens(s.subrange(1, 37))
    } else if s.len() == 45 && Seq::new(9, |i: int| ascii_lower(s[i])) == seq![
        'u',
        'r',
        'n',
        ':',
        'u',
        'u',
        'i',
        'd',
        ':',
    ] {
        without_hyphens(s.subrange(9, 45))
    } else {
        None
    }
}

/// The identity that a UUID text denotes.
pub open spec fn parsed_id(s: Seq<char>) -> Option<ProcessId> {
    match uuid_digits(s) {
        Some(digits) => match hex_number(digits) {
            Some(n) => Some(n as u128),
            None => None,
        },
        None => None,
    }
}

/// The text of an identity: the hyphenated form in lower case.
pub open spec fn id_text(id: ProcessId) -> Seq<char> {
    hyphenated(hex_digits(id as nat, 32))
}

/// Sixteen to the power of `n`.
spec fn pow16(n: nat) -> nat
    decreases n,
{
    if n == 0 {
        1
    } else {
        16 * pow16((n - 1) as nat)
    }
}

/// Hexadecimal digits denote the number they were written from.
proof fn lemma_hex_digits(n: nat, width: nat)
    requires
        n < pow16(width),
    ensures
        hex_digits(n, width).len() == width,
        hex_number(hex_digits(n, width)) == Some(n),
    decreases width,
{
    if width > 0 {
        lemma_hex_digits(n / 16, (width - 1) as nat);
        assert(hex_digits(n, width).drop_last() =~= hex_digits(n / 16, (width - 1) as nat));
        assert(hex_value(hex_char(n % 16)) == Some(n % 16));
    }
}

/// Reading the text of an identity gives the identity back.
pub proof fn law_id_text_round_trip(id: ProcessId)
    ensures
        parsed_id(id_text(id)) == Some(id),
        id_text(id).len() == 36,
{
    let digits = hex_digits(id as nat, 32);
    assert(id < pow16(32)) by {
        reveal_with_fuel(pow16, 33);
    }
    lemma_hex_digits(id as nat, 32);
    let s = id_text(id);
    assert(s.len() == 36);
    assert(without_hyphens(s).unwrap() =~= digits);
}

/// Two identities never share a text.
pub proof fn law_id_text_is_injective(a: ProcessId, b: ProcessId)
    requires
        id_text(a) == id_text(b),
    ensures
        a == b,
{
    law_id_text_round_trip(a);
    law_id_text_round_trip(b);
}

fn hex_digit(d: u8) -> (r: char)
    requires
        d < 16,
    ensures
        r == hex_char(d as nat),
{
    if d < 10 {
        (48 + d) as char
    } else {
        (97 + d - 10) as char
    }
}

/// Writes the last `width` hexadecimal digits of a number.
pub fn hex_text(n: u64, width: usize) -> (r: String)
    ensures
        r@ == hex_digits(n as nat, width as nat),
    decreases width,
{
    if width == 0 {
        let out = String::new();
        assert(out@ =~= hex_digits(n as nat, 0));
        out
    } else {
        let mut out = hex_text(n / 16, width - 1);
        out.push(hex_digit((n % 16) as u8));
        out
    }
}

/// What a text that is no UUID is rejected with.
pub uninterp spec fn id_error(s: Seq<char>) -> Seq<char>;

/// `Uuid::parse_str` reads a UUID in its bare, hyphenated, braced or URN form, in either case,
/// and rejects everything else. What it rejects a text with is named and not stated further.
#[verifier::external_body]
pub(crate) fn parse_id(s: &str) -> (r: Result<ProcessId, String>)
    ensures
        match parsed_id(s@) {
            Some(id) => r == Ok::<ProcessId, String>(id),
            None => r is Err && r->Err_0@ == id_error(s@),
        },
{
    uuid::Uuid::parse_str(s).map(|id| id.as_u128()).map_err(|error| error.to_string())
}

/// `Uuid`'s `Display` writes the hyphenated form in lower case.
#[verifier::external_body]
pub(crate) fn id_to_text(id: ProcessId) -> (r: String)
    ensures
        r@ == id_text(id),
{
    uuid::Uuid::from_u128(id).to_string()
}

/// `Uuid::new_v4` makes a random identity. Nothing is known of the result.
#[verifier::external_body]
pub(crate) fn fresh_id() -> (r: ProcessId)
{
    uuid::Uuid::new_v4().as_u128()
}

/// An identity is written as thirty-two lower-case hexadecimal digits, with hyphens behind the eighth,
/// the twelfth, the sixteenth and the twentieth.
pub proof fn law_id_text_is_hyphenated_hexadecimal(id: ProcessId)
    ensures
        id_text(id).len() == 36,
        forall|i: int|
            0 <= i < 36 ==> if i == 8 || i == 13 || i == 18 || i == 23 {
                (#[trigger] id_text(id)[i]) == '-'
            } else {
                ('0' <= id_text(id)[i] && id_text(id)[i] <= '9') || ('a' <= id_text(id)[i]
                    && id_text(id)[i] <= 'f')
            },
{
    law_id_text_round_trip(id);
    let digits = hex_digits(id as nat, 32);
    lemma_hex_digits_are_digits(id as nat, 32);
    assert forall|i: int| 0 <= i < 36 implies if i == 8 || i == 13 || i == 18 || i == 23 {
        (#[trigger] id_text(id)[i]) == '-'
    } else {
        ('0' <= id_text(id)[i] && id_text(id)[i] <= '9') || ('a' <= id_text(id)[i] && id_text(
            id,
        )[i] <= 'f')
    } by {
        let at = if i < 8 {
            i
        } else if i < 13 {
            i - 1
        } else if i < 18 {
            i - 2
        } else if i < 23 {
            i - 3
        } else {
            i - 4
        };
        if !(i == 8 || i == 13 || i == 18 || i == 23) {
            assert(id_text(id)[i] == digits[at]);
        }
    }
}

proof fn lemma_hex_digits_are_digits(n: nat, width: nat)
    ensures
        hex_digits(n, width).len() == width,
        forall|i: int|
            0 <= i < width ==> ('0' <= (#[trigger] hex_digits(n, width)[i]) && hex_digits(
                n,
                width,
            )[i] <= '9') || ('a' <= hex_digits(n, width)[i] && hex_digits(n, width)[i] <= 'f'),
    decreases width,
{
    if width > 0 {
        lemma_hex_digits_are_digits(n / 16, (width - 1) as nat);
        let before = hex_digits(n / 16, (width - 1) as nat);
        assert forall|i: int| 0 <= i < width implies ('0' <= (#[trigger] hex_digits(n, width)[i])
            && hex_digits(n, width)[i] <= '9') || ('a' <= hex_digits(n, width)[i] && hex_digits(
            n,
            width,
        )[i] <= 'f') by {
            if i < width - 1 {
                assert(hex_digits(n, width)[i] == before[i]);
            }
        }
    }
}

} // verus!
