//! Text helpers shared by the whole library: UTF-8 sizes, truncation, trimming and decimal numbers.
//!
//! Every contract speaks of a text as its sequence of characters.
use vstd::prelude::*;
use vstd::utf8::*;

verus! {

/// The number of bytes that a text occupies in UTF-8.
pub open spec fn byte_len(s: Seq<char>) -> nat {
    encode_utf8(s).len()
}

/// The number of bytes that one character occupies in UTF-8.
pub open spec fn char_width(c: char) -> nat {
    encode_scalar(c as u32).len()
}

/// The view of an optional text.
pub open spec fn opt_text(value: Option<String>) -> Option<Seq<char>> {
    match value {
        Some(text) => Some(text@),
        None => None,
    }
}

/// The view of an optional borrowed text.
pub open spec fn opt_str(value: Option<&str>) -> Option<Seq<char>> {
    match value {
        Some(text) => Some(text@),
        None => None,
    }
}

/// The views of a list of texts.
pub open spec fn texts(values: Seq<String>) -> Seq<Seq<char>> {
    Seq::new(values.len(), |i: int| values[i]@)
}

/// The longest prefix of `s` that fits into `max` bytes: characters leave from the end until the rest fits.
pub open spec fn fitting_prefix(s: Seq<char>, max: nat) -> Seq<char>
    decreases s.len(),
{
    if byte_len(s) <= max || s.len() == 0 {
        s
    } else {
        fitting_prefix(s.drop_last(), max)
    }
}

/// A text cut to `max` bytes on a character boundary, with `marker` appended when something was cut.
pub open spec fn truncated(s: Seq<char>, max: nat, marker: Seq<char>) -> Seq<char> {
    if byte_len(s) <= max {
        s
    } else {
        fitting_prefix(s, max) + marker
    }
}

/// UTF-8 encodes a concatenation piece by piece.
pub proof fn lemma_encode_concat(a: Seq<char>, b: Seq<char>)
    ensures
        encode_utf8(a + b) == encode_utf8(a) + encode_utf8(b),
    decreases a.len(),
{
    if a.len() == 0 {
        assert(a + b =~= b);
        assert(encode_utf8(a) + encode_utf8(b) =~= encode_utf8(b));
    } else {
        lemma_encode_concat(a.drop_first(), b);
        assert((a + b).drop_first() =~= a.drop_first() + b);
        assert(encode_utf8(a + b) =~= encode_utf8(a) + encode_utf8(b));
    }
}

/// The size of a concatenation is the sum of the sizes.
pub proof fn lemma_byte_len_concat(a: Seq<char>, b: Seq<char>)
    ensures
        byte_len(a + b) == byte_len(a) + byte_len(b),
{
    lemma_encode_concat(a, b);
}

/// One more character adds its own width.
pub proof fn lemma_byte_len_push(s: Seq<char>, c: char)
    ensures
        byte_len(s.push(c)) == byte_len(s) + char_width(c),
{
    lemma_encode_concat(s, seq![c]);
    assert(s + seq![c] =~= s.push(c));
    assert(seq![c].drop_first() =~= Seq::<char>::empty());
    reveal_with_fuel(encode_utf8, 2);
}

/// A prefix is never larger than the whole.
pub proof fn lemma_byte_len_take(s: Seq<char>, k: int)
    requires
        0 <= k <= s.len(),
    ensures
        byte_len(s.take(k)) <= byte_len(s),
{
    lemma_byte_len_concat(s.take(k), s.skip(k));
    assert(s.take(k) + s.skip(k) =~= s);
}

/// Between one and four bytes encode a character.
pub proof fn lemma_char_width(c: char)
    ensures
        1 <= char_width(c) <= 4,
{
}

/// Four bytes per character are always enough.
pub proof fn lemma_byte_len_le(s: Seq<char>)
    ensures
        byte_len(s) <= 4 * s.len(),
    decreases s.len(),
{
    if s.len() > 0 {
        lemma_byte_len_le(s.drop_last());
        lemma_byte_len_push(s.drop_last(), s.last());
        lemma_char_width(s.last());
        assert(s.drop_last().push(s.last()) =~= s);
    }
}

/// A text never has more characters than bytes.
pub proof fn lemma_len_le_byte_len(s: Seq<char>)
    ensures
        s.len() <= byte_len(s),
    decreases s.len(),
{
    if s.len() > 0 {
        lemma_len_le_byte_len(s.drop_last());
        lemma_byte_len_push(s.drop_last(), s.last());
        lemma_char_width(s.last());
        assert(s.drop_last().push(s.last()) =~= s);
    }
}

/// The fitting prefix is the prefix that fits while one more character would not.
proof fn lemma_fitting_prefix_is(s: Seq<char>, k: int, max: nat)
    requires
        0 <= k <= s.len(),
        byte_len(s.take(k)) <= max,
        k < s.len() ==> byte_len(s.take(k + 1)) > max,
    ensures
        fitting_prefix(s, max) == s.take(k),
    decreases s.len(),
{
    if k == s.len() {
        assert(s.take(k) =~= s);
    } else {
        lemma_byte_len_take(s, k + 1);
        let rest = s.drop_last();
        assert(rest.take(k) =~= s.take(k));
        if k < rest.len() {
            assert(rest.take(k + 1) =~= s.take(k + 1));
        }
        lemma_fitting_prefix_is(rest, k, max);
    }
}

/// What is kept by a cut is a prefix of the text and fits the limit.
pub proof fn lemma_fitting_prefix_fits(s: Seq<char>, max: nat)
    ensures
        byte_len(fitting_prefix(s, max)) <= max,
        fitting_prefix(s, max).is_prefix_of(s),
    decreases s.len(),
{
    if !(byte_len(s) <= max || s.len() == 0) {
        lemma_fitting_prefix_fits(s.drop_last(), max);
        let p = fitting_prefix(s.drop_last(), max);
        assert(s.drop_last().subrange(0, p.len() as int) =~= s.subrange(0, p.len() as int));
    } else {
        assert(s.subrange(0, s.len() as int) =~= s);
    }
}

/// A cut text is larger than the limit by the size of the marker at most.
pub proof fn lemma_truncated_is_bounded(s: Seq<char>, max: nat, marker: Seq<char>)
    ensures
        byte_len(truncated(s, max, marker)) <= max + byte_len(marker),
{
    lemma_fitting_prefix_fits(s, max);
    lemma_byte_len_concat(fitting_prefix(s, max), marker);
}

/// `String::push` appends one character.
pub assume_specification[ String::push ](s: &mut String, c: char)
    ensures
        final(s)@ == old(s)@.push(c),
;

/// The characters of a text, in order.
pub fn to_chars(s: &str) -> (r: Vec<char>)
    ensures
        r@ == s@,
{
    let mut out: Vec<char> = Vec::new();
    for c in it: s.chars()
        invariant
            it.seq() == s@,
            out@ == it.seq().take(it.index()),
    {
        out.push(c);
        assert(it.seq().take(it.index()).push(c) =~= it.seq().take(it.index() + 1));
    }
    assert(s@.take(s@.len() as int) =~= s@);
    out
}

/// The text made of the characters in `from..to`.
pub fn from_char_range(chars: &Vec<char>, from: usize, to: usize) -> (r: String)
    requires
        from <= to <= chars@.len(),
    ensures
        r@ == chars@.subrange(from as int, to as int),
{
    let mut out = String::new();
    let mut i: usize = from;
    assert(out@ =~= chars@.subrange(from as int, from as int));
    while i < to
        invariant
            from <= i <= to <= chars@.len(),
            out@ == chars@.subrange(from as int, i as int),
        decreases to - i,
    {
        out.push(chars[i]);
        assert(chars@.subrange(from as int, i as int).push(chars@[i as int]) =~= chars@.subrange(
            from as int,
            i + 1,
        ));
        i = i + 1;
    }
    out
}

/// Whether two texts hold the same characters.
pub fn text_eq(a: &str, b: &str) -> (r: bool)
    ensures
        r == (a@ == b@),
{
    a.to_owned() == b.to_owned()
}

/// Whether a text has no characters.
pub fn is_empty(s: &str) -> (r: bool)
    ensures
        r == (s@.len() == 0),
{
    proof {
        lemma_len_le_byte_len(s@);
    }
    s.as_bytes().len() == 0
}

/// The width of one character in UTF-8.
pub fn utf8_width(c: char) -> (r: usize)
    ensures
        r as nat == char_width(c),
{
    let code: u32 = c as u32;
    if code < 0x80 {
        1
    } else if code < 0x800 {
        2
    } else if code < 0x10000 {
        3
    } else {
        4
    }
}

/// Cuts a text to at most `max` bytes on a character boundary and marks the cut.
pub fn truncate_text(value: &str, max: usize, marker: &str) -> (r: String)
    ensures
        r@ == truncated(value@, max as nat, marker@),
{
    if value.as_bytes().len() <= max {
        return value.to_owned();
    }
    let chars = to_chars(value);
    let mut used: usize = 0;
    let mut end: usize = 0;
    let mut fits = true;
    assert(value@.take(0) =~= Seq::<char>::empty());
    while end < chars.len() && fits
        invariant
            chars@ == value@,
            end <= chars@.len(),
            used as nat == byte_len(value@.take(end as int)),
            used <= max,
            !fits ==> end < chars@.len() && byte_len(value@.take(end + 1)) > max,
        decreases chars@.len() - end, fits as int,
    {
        let width = utf8_width(chars[end]);
        proof {
            lemma_byte_len_push(value@.take(end as int), chars@[end as int]);
            assert(value@.take(end as int).push(chars@[end as int]) =~= value@.take(end + 1));
        }
        if width <= max - used {
            used = used + width;
            end = end + 1;
        } else {
            fits = false;
        }
    }
    proof {
        lemma_fitting_prefix_is(value@, end as int, max as nat);
        assert(value@.take(end as int) =~= value@.subrange(0, end as int));
    }
    value.substring_char(0, end).to_owned().concat(marker)
}


/// The characters with the Unicode property `White_Space`.
pub open spec fn white_space(c: char) -> bool {
    let code = c as u32;
    ||| 0x09 <= code <= 0x0d
    ||| code == 0x20
    ||| code == 0x85
    ||| code == 0xa0
    ||| code == 0x1680
    ||| 0x2000 <= code <= 0x200a
    ||| code == 0x2028
    ||| code == 0x2029
    ||| code == 0x202f
    ||| code == 0x205f
    ||| code == 0x3000
}

/// `char::is_whitespace` tells whether a character has the property `White_Space`.
pub assume_specification[ char::is_whitespace ](c: char) -> (r: bool)
    ensures
        r == white_space(c),
;

/// A text without its leading white space.
pub open spec fn trimmed_start(s: Seq<char>) -> Seq<char>
    decreases s.len(),
{
    if s.len() > 0 && white_space(s[0]) {
        trimmed_start(s.drop_first())
    } else {
        s
    }
}

/// A text without its trailing white space.
pub open spec fn trimmed_end(s: Seq<char>) -> Seq<char>
    decreases s.len(),
{
    if s.len() > 0 && white_space(s.last()) {
        trimmed_end(s.drop_last())
    } else {
        s
    }
}

/// A text without white space at either end.
pub open spec fn trimmed(s: Seq<char>) -> Seq<char> {
    trimmed_end(trimmed_start(s))
}

/// Leading white space leaves one character at a time.
proof fn lemma_trimmed_start_is(s: Seq<char>, k: int)
    requires
        0 <= k <= s.len(),
        forall|i: int| 0 <= i < k ==> white_space(s[i]),
        k < s.len() ==> !white_space(s[k]),
    ensures
        trimmed_start(s) == s.skip(k),
    decreases k,
{
    if k > 0 {
        lemma_trimmed_start_is(s.drop_first(), k - 1);
        assert(s.drop_first().skip(k - 1) =~= s.skip(k));
    } else {
        assert(s.skip(0) =~= s);
    }
}

/// Trailing white space leaves one character at a time.
proof fn lemma_trimmed_end_is(s: Seq<char>, k: int)
    requires
        0 <= k <= s.len(),
        forall|i: int| k <= i < s.len() ==> white_space(s[i]),
        k > 0 ==> !white_space(s[k - 1]),
    ensures
        trimmed_end(s) == s.take(k),
    decreases s.len(),
{
    if k < s.len() {
        lemma_trimmed_end_is(s.drop_last(), k);
        assert(s.drop_last().take(k) =~= s.take(k));
    } else {
        assert(s.take(k) =~= s);
    }
}

/// Drops leading white space.
pub fn trim_start(s: &str) -> (r: &str)
    ensures
        r@ == trimmed_start(s@),
{
    let chars = to_chars(s);
    let mut start: usize = 0;
    while start < chars.len() && chars[start].is_whitespace()
        invariant
            chars@ == s@,
            start <= chars@.len(),
            forall|i: int| 0 <= i < start ==> white_space(s@[i]),
        decreases chars@.len() - start,
    {
        start = start + 1;
    }
    proof {
        lemma_trimmed_start_is(s@, start as int);
        assert(s@.skip(start as int) =~= s@.subrange(start as int, s@.len() as int));
    }
    s.substring_char(start, chars.len())
}

/// Drops trailing white space.
pub fn trim_end(s: &str) -> (r: &str)
    ensures
        r@ == trimmed_end(s@),
{
    let chars = to_chars(s);
    let mut end: usize = chars.len();
    while end > 0 && chars[end - 1].is_whitespace()
        invariant
            chars@ == s@,
            end <= chars@.len(),
            forall|i: int| end <= i < s@.len() ==> white_space(s@[i]),
        decreases end,
    {
        end = end - 1;
    }
    proof {
        lemma_trimmed_end_is(s@, end as int);
        assert(s@.take(end as int) =~= s@.subrange(0, end as int));
    }
    s.substring_char(0, end)
}

/// Drops white space at both ends.
pub fn trim(s: &str) -> (r: &str)
    ensures
        r@ == trimmed(s@),
{
    trim_end(trim_start(s))
}

/// The character of a decimal digit.
pub open spec fn digit_char(d: nat) -> char
    recommends
        d < 10,
{
    ('0' as u32 + d) as char
}

/// The value of a decimal digit.
pub open spec fn digit_value(c: char) -> nat {
    if is_digit(c) {
        (c as u32 - '0' as u32) as nat
    } else {
        0
    }
}

/// Whether a character is an ASCII decimal digit.
pub open spec fn is_digit(c: char) -> bool {
    '0' <= c <= '9'
}

/// A number in decimal, without sign or leading zeros.
pub open spec fn decimal(n: nat) -> Seq<char>
    decreases n,
{
    if n < 10 {
        seq![digit_char(n)]
    } else {
        decimal(n / 10).push(digit_char(n % 10))
    }
}

/// The number that a sequence of decimal digits denotes.
pub open spec fn decimal_value(s: Seq<char>) -> nat
    decreases s.len(),
{
    if s.len() == 0 {
        0
    } else {
        decimal_value(s.drop_last()) * 10 + digit_value(s.last())
    }
}

/// Whether a text is one or more decimal digits.
pub open spec fn all_digits(s: Seq<char>) -> bool {
    s.len() > 0 && forall|i: int| 0 <= i < s.len() ==> is_digit(s[i])
}

/// The digits of a number text, which may start with one plus sign.
pub open spec fn unsigned_digits(s: Seq<char>) -> Seq<char> {
    if s.len() > 0 && s[0] == '+' {
        s.drop_first()
    } else {
        s
    }
}

/// What reading a text as an unsigned number up to `max` gives.
pub open spec fn parsed_unsigned(s: Seq<char>, max: nat) -> Option<nat> {
    let digits = unsigned_digits(s);
    if all_digits(digits) && decimal_value(digits) <= max {
        Some(decimal_value(digits))
    } else {
        None
    }
}

/// A decimal text is made of digits and denotes its number.
pub proof fn lemma_decimal(n: nat)
    ensures
        all_digits(decimal(n)),
        decimal_value(decimal(n)) == n,
    decreases n,
{
    reveal_with_fuel(decimal_value, 2);
    if n < 10 {
        assert(seq![digit_char(n)].drop_last() =~= Seq::<char>::empty());
    } else {
        lemma_decimal(n / 10);
        assert(decimal(n).drop_last() =~= decimal(n / 10));
    }
}

/// Reading back the decimal text of a number gives the number.
pub proof fn lemma_decimal_round_trip(n: nat, max: nat)
    requires
        n <= max,
    ensures
        parsed_unsigned(decimal(n), max) == Some(n),
{
    lemma_decimal(n);
    assert(is_digit(decimal(n)[0]));
}

/// A longer run of digits denotes no smaller number.
proof fn lemma_decimal_value_take(s: Seq<char>, k: int)
    requires
        0 <= k <= s.len(),
    ensures
        decimal_value(s.take(k)) <= decimal_value(s),
    decreases s.len(),
{
    if k == s.len() {
        assert(s.take(k) =~= s);
    } else {
        lemma_decimal_value_take(s.drop_last(), k);
        assert(s.drop_last().take(k) =~= s.take(k));
    }
}

/// The character of a decimal digit.
fn digit_of(d: u8) -> (r: char)
    requires
        d < 10,
    ensures
        r == digit_char(d as nat),
{
    match d {
        0 => '0',
        1 => '1',
        2 => '2',
        3 => '3',
        4 => '4',
        5 => '5',
        6 => '6',
        7 => '7',
        8 => '8',
        _ => '9',
    }
}

/// Writes a number in decimal.
pub fn decimal_text(n: u64) -> (r: String)
    ensures
        r@ == decimal(n as nat),
    decreases n,
{
    let digit = digit_of((n % 10) as u8);
    if n < 10 {
        let mut out = String::new();
        out.push(digit);
        assert(out@ =~= seq![digit_char(n as nat)]);
        out
    } else {
        let mut out = decimal_text(n / 10);
        out.push(digit);
        out
    }
}

/// A number in decimal, with a sign where it is negative.
pub open spec fn signed_decimal(n: int) -> Seq<char> {
    if n < 0 {
        seq!['-'] + decimal((-n) as nat)
    } else {
        decimal(n as nat)
    }
}

/// Writes a signed number in decimal.
pub fn signed_text(n: i64) -> (r: String)
    ensures
        r@ == signed_decimal(n as int),
{
    if n < 0 {
        let magnitude: u64 = (-(n + 1)) as u64 + 1;
        let mut out = String::new();
        out.push('-');
        assert(out@ =~= seq!['-']);
        out.concat(decimal_text(magnitude).as_str())
    } else {
        decimal_text(n as u64)
    }
}

/// Writes a size in decimal.
pub fn decimal_usize(n: usize) -> (r: String)
    ensures
        r@ == decimal(n as nat),
{
    decimal_text(n as u64)
}

/// Reads an unsigned number: digits, with at most one leading plus sign, and no overflow.
pub fn parse_usize(s: &str) -> (r: Option<usize>)
    ensures
        match r {
            Some(n) => parsed_unsigned(s@, usize::MAX as nat) == Some(n as nat),
            None => parsed_unsigned(s@, usize::MAX as nat) is None,
        },
{
    let chars = to_chars(s);
    let start: usize = if chars.len() > 0 && chars[0] == '+' {
        1
    } else {
        0
    };
    let ghost digits = unsigned_digits(s@);
    proof {
        if start == 0 {
            assert(s@.skip(0) =~= s@);
        }
        assert(digits =~= s@.skip(start as int));
    }
    if start == chars.len() {
        return None;
    }
    let mut value: usize = 0;
    let mut i: usize = start;
    assert(digits.take(0) =~= Seq::<char>::empty());
    while i < chars.len()
        invariant
            chars@ == s@,
            start <= i <= chars@.len(),
            digits == s@.skip(start as int),
            digits == unsigned_digits(s@),
            value as nat == decimal_value(digits.take(i - start)),
            forall|j: int| 0 <= j < i - start ==> is_digit(digits[j]),
        decreases chars@.len() - i,
    {
        let c = chars[i];
        let ghost k = i - start;
        assert(digits[k] == c);
        if !(c >= '0' && c <= '9') {
            assert(!is_digit(digits[k]));
            return None;
        }
        let digit: usize = (c as u32 - 48u32) as usize;
        proof {
            assert(digits.take(k + 1).drop_last() =~= digits.take(k));
            assert(digits.take(k + 1).last() == c);
            lemma_decimal_value_take(digits, k + 1);
        }
        match value.checked_mul(10) {
            Some(tens) => match tens.checked_add(digit) {
                Some(sum) => {
                    value = sum;
                },
                None => {
                    return None;
                },
            },
            None => {
                return None;
            },
        }
        i = i + 1;
    }
    assert(digits.take(digits.len() as int) =~= digits);
    Some(value)
}

/// Some texts one after the other, with a separator between neighbours.
pub open spec fn joined(parts: Seq<Seq<char>>, separator: Seq<char>) -> Seq<char>
    decreases parts.len(),
{
    if parts.len() == 0 {
        Seq::empty()
    } else if parts.len() == 1 {
        parts[0]
    } else {
        joined(parts.drop_last(), separator) + separator + parts.last()
    }
}

/// Joins texts with a separator.
pub fn join(parts: &Vec<String>, separator: &str) -> (r: String)
    ensures
        r@ == joined(texts(parts@), separator@),
{
    let mut out = String::new();
    let mut i: usize = 0;
    assert(texts(parts@).take(0) =~= Seq::<Seq<char>>::empty());
    while i < parts.len()
        invariant
            i <= parts@.len(),
            out@ == joined(texts(parts@).take(i as int), separator@),
        decreases parts@.len() - i,
    {
        let ghost before = texts(parts@).take(i as int);
        let ghost after = texts(parts@).take(i + 1);
        assert(after.drop_last() =~= before);
        assert(after.last() == parts@[i as int]@);
        if i > 0 {
            out.append(separator);
        } else {
            assert(before =~= Seq::<Seq<char>>::empty());
        }
        out.append(parts[i].as_str());
        assert(out@ =~= joined(after, separator@));
        i = i + 1;
    }
    assert(texts(parts@).take(parts@.len() as int) =~= texts(parts@));
    out
}

/// Copies an optional text.
pub fn clone_optional(value: &Option<String>) -> (r: Option<String>)
    ensures
        r == *value,
{
    match value {
        Some(text) => Some(text.clone()),
        None => None,
    }
}

/// Copies a list of texts.
pub fn clone_texts(values: &Vec<String>) -> (r: Vec<String>)
    ensures
        r@ == values@,
{
    let mut out: Vec<String> = Vec::new();
    let mut i: usize = 0;
    while i < values.len()
        invariant
            i <= values@.len(),
            out@ == values@.take(i as int),
        decreases values@.len() - i,
    {
        out.push(values[i].clone());
        assert(values@.take(i as int).push(values@[i as int]) =~= values@.take(i + 1));
        i = i + 1;
    }
    assert(values@.take(values@.len() as int) =~= values@);
    out
}

/// The characters before the first line feed: all of them if there is none.
pub open spec fn line_feed_at(s: Seq<char>) -> nat
    decreases s.len(),
{
    if s.len() == 0 || s[0] == '\n' {
        0
    } else {
        1 + line_feed_at(s.drop_first())
    }
}

/// A line without the carriage return that belongs to its line feed.
pub open spec fn without_return(line: Seq<char>) -> Seq<char> {
    if line.len() > 0 && line.last() == '\r' {
        line.drop_last()
    } else {
        line
    }
}

/// The lines of a text. A line feed ends a line, with a carriage return before it or without; the
/// last line needs none.
pub open spec fn text_lines(s: Seq<char>) -> Seq<Seq<char>>
    decreases s.len(),
{
    if s.len() == 0 {
        Seq::empty()
    } else {
        let at = line_feed_at(s);
        if at >= s.len() {
            seq![s]
        } else {
            seq![without_return(s.take(at as int))] + text_lines(s.skip(at as int + 1))
        }
    }
}

/// The end of the line that starts at `from`.
fn find_line_feed(chars: &Vec<char>, from: usize) -> (r: usize)
    requires
        from <= chars@.len(),
    ensures
        from <= r <= chars@.len(),
        r == from + line_feed_at(chars@.skip(from as int)),
        r < chars@.len() ==> chars@[r as int] == '\n',
{
    let mut i: usize = from;
    while i < chars.len() && chars[i] != '\n'
        invariant
            from <= i <= chars@.len(),
            i - from + line_feed_at(chars@.skip(i as int)) == line_feed_at(
                chars@.skip(from as int),
            ),
        decreases chars@.len() - i,
    {
        assert(chars@.skip(i as int).drop_first() =~= chars@.skip(i + 1));
        i = i + 1;
    }
    i
}

/// Splits a text into its lines.
pub fn lines(s: &str) -> (r: Vec<String>)
    ensures
        texts(r@) == text_lines(s@),
{
    let chars = to_chars(s);
    let mut out: Vec<String> = Vec::new();
    let mut start: usize = 0;
    proof {
        assert(chars@.skip(0) =~= chars@);
        assert(texts(out@) + text_lines(chars@) =~= text_lines(chars@));
    }
    while start < chars.len()
        invariant
            start <= chars@.len(),
            texts(out@) + text_lines(chars@.skip(start as int)) == text_lines(chars@),
        decreases chars@.len() - start,
    {
        let ghost rest = chars@.skip(start as int);
        let ghost before = out@;
        let end: usize = find_line_feed(&chars, start);
        let stop: usize = if end < chars.len() && end > start && chars[end - 1] == '\r' {
            end - 1
        } else {
            end
        };
        let line = from_char_range(&chars, start, stop);
        out.push(line);
        proof {
            assert(texts(out@) =~= texts(before).push(line@));
            if end < chars@.len() {
                assert(rest.take(end - start) =~= chars@.subrange(start as int, end as int));
                assert(without_return(rest.take(end - start)) =~= line@);
                assert(rest.skip(end - start + 1) =~= chars@.skip(end + 1));
            } else {
                assert(line@ =~= rest);
                assert(chars@.skip(chars@.len() as int) =~= Seq::empty());
            }
        }
        start = if end < chars.len() {
            end + 1
        } else {
            end
        };
        assert(texts(out@) + text_lines(chars@.skip(start as int)) =~= texts(before) + text_lines(
            rest,
        ));
    }
    assert(chars@.skip(start as int) =~= Seq::empty());
    assert(texts(out@) + Seq::<Seq<char>>::empty() =~= texts(out@));
    out
}

/// The text that bytes stand for, with replacement characters where they are not UTF-8.
pub uninterp spec fn lossy_text(bytes: Seq<u8>) -> Seq<char>;

/// `String::from_utf8_lossy` reads bytes as text and puts replacement characters where they are not
/// UTF-8. UTF-8 is read as what it encodes; else the text is named and not stated further.
#[verifier::external_body]
pub(crate) fn bytes_to_text(bytes: &Vec<u8>) -> (r: String)
    ensures
        r@ == lossy_text(bytes@),
        vstd::utf8::valid_utf8(bytes@) ==> r@ == vstd::utf8::decode_utf8(bytes@),
{
    String::from_utf8_lossy(bytes).into_owned()
}

/// A text that fits stays as it is. Of one that does not, the longest beginning that fits is kept, and
/// the marker stands behind it.
pub proof fn law_cut_keeps_what_fits(s: Seq<char>, max: nat, marker: Seq<char>)
    ensures
        byte_len(s) <= max ==> truncated(s, max, marker) == s,
        byte_len(s) > max ==> exists|k: int|
            0 <= k < s.len() && truncated(s, max, marker) == #[trigger] s.take(k) + marker
                && byte_len(s.take(k)) <= max && byte_len(s.take(k + 1)) > max,
{
    if byte_len(s) > max {
        lemma_fitting_prefix_stops(s, max);
        let k = choose|k: int|
            0 <= k < s.len() && fitting_prefix(s, max) == #[trigger] s.take(k) && byte_len(
                s.take(k),
            ) <= max && byte_len(s.take(k + 1)) > max;
        assert(truncated(s, max, marker) == s.take(k) + marker);
    }
}

proof fn lemma_fitting_prefix_stops(s: Seq<char>, max: nat)
    requires
        byte_len(s) > max,
    ensures
        exists|k: int|
            0 <= k < s.len() && fitting_prefix(s, max) == #[trigger] s.take(k) && byte_len(
                s.take(k),
            ) <= max && byte_len(s.take(k + 1)) > max,
    decreases s.len(),
{
    lemma_byte_len_le(s);
    reveal_with_fuel(fitting_prefix, 2);
    let rest = s.drop_last();
    assert(s.take(s.len() as int) =~= s);
    if byte_len(rest) <= max || rest.len() == 0 {
        lemma_byte_len_le(rest);
        let k = s.len() - 1;
        assert(s.take(k) =~= rest);
        assert(fitting_prefix(s, max) == s.take(k));
    } else {
        lemma_fitting_prefix_stops(rest, max);
        let k = choose|k: int|
            0 <= k < rest.len() && fitting_prefix(rest, max) == #[trigger] rest.take(k)
                && byte_len(rest.take(k)) <= max && byte_len(rest.take(k + 1)) > max;
        assert(s.take(k) =~= rest.take(k));
        assert(s.take(k + 1) =~= rest.take(k + 1));
        assert(fitting_prefix(s, max) == s.take(k));
    }
}

/// What is left of a trimmed text is the part of it from the first to the last character that is no
/// white space.
pub proof fn law_trimming_takes_white_space_alone(s: Seq<char>)
    ensures
        exists|a: int, b: int|
            0 <= a <= b <= s.len() && trimmed(s) == #[trigger] s.subrange(a, b) && (forall|i: int|
                0 <= i < a ==> white_space(#[trigger] s[i])) && (forall|i: int|
                b <= i < s.len() ==> white_space(#[trigger] s[i])),
        trimmed(s).len() > 0 ==> !white_space(trimmed(s)[0]) && !white_space(trimmed(s).last()),
        (forall|i: int| 0 <= i < s.len() ==> white_space(#[trigger] s[i])) <==> trimmed(s).len()
            == 0,
{
    lemma_trim_start(s);
    let a = choose|a: int|
        0 <= a <= s.len() && trimmed_start(s) == #[trigger] s.skip(a) && (forall|i: int|
            0 <= i < a ==> white_space(#[trigger] s[i]));
    let rest = s.skip(a);
    lemma_trim_end(rest);
    let b = choose|b: int|
        0 <= b <= rest.len() && trimmed_end(rest) == #[trigger] rest.take(b) && (forall|i: int|
            b <= i < rest.len() ==> white_space(#[trigger] rest[i]));
    assert(trimmed(s) =~= s.subrange(a, a + b));
    assert forall|i: int| a + b <= i < s.len() implies white_space(#[trigger] s[i]) by {
        assert(white_space(rest[i - a]));
    }
    if trimmed(s).len() > 0 {
        assert(trimmed(s)[0] == rest[0]);
        assert(trimmed(s)[0] == s[a]);
    } else {
        assert forall|i: int| 0 <= i < s.len() implies white_space(#[trigger] s[i]) by {
            if i >= a {
                assert(white_space(rest[i - a]));
            }
        }
    }
}

proof fn lemma_trim_start(s: Seq<char>)
    ensures
        exists|a: int|
            0 <= a <= s.len() && trimmed_start(s) == #[trigger] s.skip(a) && (forall|i: int|
                0 <= i < a ==> white_space(#[trigger] s[i])),
        trimmed_start(s).len() > 0 ==> !white_space(trimmed_start(s)[0]),
    decreases s.len(),
{
    if s.len() > 0 && white_space(s[0]) {
        let rest = s.drop_first();
        lemma_trim_start(rest);
        let a = choose|a: int|
            0 <= a <= rest.len() && trimmed_start(rest) == #[trigger] rest.skip(a) && (forall|i: int|
                0 <= i < a ==> white_space(#[trigger] rest[i]));
        assert(rest.skip(a) =~= s.skip(a + 1));
        assert forall|i: int| 0 <= i < a + 1 implies white_space(#[trigger] s[i]) by {
            if i > 0 {
                assert(white_space(rest[i - 1]));
            }
        }
    } else {
        assert(s.skip(0) =~= s);
    }
}

proof fn lemma_trim_end(s: Seq<char>)
    ensures
        exists|b: int|
            0 <= b <= s.len() && trimmed_end(s) == #[trigger] s.take(b) && (forall|i: int|
                b <= i < s.len() ==> white_space(#[trigger] s[i])),
        trimmed_end(s).len() > 0 ==> !white_space(trimmed_end(s).last()),
    decreases s.len(),
{
    if s.len() > 0 && white_space(s.last()) {
        let rest = s.drop_last();
        lemma_trim_end(rest);
        let b = choose|b: int|
            0 <= b <= rest.len() && trimmed_end(rest) == #[trigger] rest.take(b) && (forall|i: int|
                b <= i < rest.len() ==> white_space(#[trigger] rest[i]));
        assert(rest.take(b) =~= s.take(b));
        assert forall|i: int| b <= i < s.len() implies white_space(#[trigger] s[i]) by {
            if i < rest.len() {
                assert(white_space(rest[i]));
            }
        }
    } else {
        assert(s.take(s.len() as int) =~= s);
    }
}

/// One text joins to itself, and two lists join to what they join to by themselves, with one separator
/// between.
pub proof fn law_joining_puts_separators_between(
    a: Seq<Seq<char>>,
    b: Seq<Seq<char>>,
    one: Seq<char>,
    separator: Seq<char>,
)
    ensures
        joined(Seq::empty(), separator).len() == 0,
        joined(seq![one], separator) == one,
        a.len() > 0 && b.len() > 0 ==> joined(a + b, separator) == joined(a, separator) + separator
            + joined(b, separator),
    decreases b.len(),
{
    if a.len() > 0 && b.len() > 0 {
        assert((a + b).drop_last() =~= a + b.drop_last());
        if b.len() == 1 {
            assert(a + b.drop_last() =~= a);
        } else {
            law_joining_puts_separators_between(a, b.drop_last(), one, separator);
            let first = joined(a, separator);
            let rest = joined(b.drop_last(), separator);
            assert(first + separator + rest + separator + b.last() =~= first + separator + (rest
                + separator + b.last()));
        }
    }
}

/// The lines of a text hold no line feed. Without carriage returns they join to the text again, but for
/// the line feed that may end it.
pub proof fn law_lines_are_what_line_feeds_separate(s: Seq<char>)
    ensures
        forall|i: int, j: int|
            0 <= i < text_lines(s).len() && 0 <= j < text_lines(s)[i].len() ==> (
            #[trigger] text_lines(s)[i][j]) != '\n',
        s.len() == 0 <==> text_lines(s).len() == 0,
        s.len() > 0 && (forall|i: int| 0 <= i < s.len() ==> (#[trigger] s[i]) != '\r') ==> (s
            == joined(text_lines(s), seq!['\n']) || s == joined(text_lines(s), seq!['\n'])
            + seq!['\n']),
    decreases s.len(),
{
    if s.len() > 0 {
        let at = line_feed_at(s);
        lemma_line_feed_at(s);
        if at >= s.len() {
            assert(text_lines(s) =~= seq![s]);
            law_joining_puts_separators_between(Seq::empty(), Seq::empty(), s, seq!['\n']);
        } else {
            let line = s.take(at as int);
            let first = without_return(line);
            let rest = s.skip(at as int + 1);
            law_lines_are_what_line_feeds_separate(rest);
            let lines = text_lines(s);
            assert(lines == seq![first] + text_lines(rest));
            assert forall|i: int, j: int| 0 <= i < lines.len() && 0 <= j < lines[i].len() implies (
            #[trigger] lines[i][j]) != '\n' by {
                if i > 0 {
                    assert(lines[i] == text_lines(rest)[i - 1]);
                    assert(text_lines(rest)[i - 1][j] != '\n');
                } else {
                    assert(first[j] == s[j]);
                }
            }
            if forall|i: int| 0 <= i < s.len() ==> (#[trigger] s[i]) != '\r' {
                if line.len() > 0 {
                    assert(line.last() == s[at - 1]);
                }
                assert(first == line);
                assert forall|i: int| 0 <= i < rest.len() implies (#[trigger] rest[i]) != '\r' by {
                    assert(s[i + at + 1] != '\r');
                }
                let feed = seq!['\n'];
                law_joining_puts_separators_between(seq![first], text_lines(rest), first, feed);
                if rest.len() == 0 {
                    assert(lines =~= seq![first]);
                    assert(s =~= first + feed);
                } else {
                    assert(s =~= first + feed + rest);
                    let tail = joined(text_lines(rest), feed);
                    assert(first + feed + (tail + feed) =~= first + feed + tail + feed);
                }
            }
        }
    }
}

proof fn lemma_line_feed_at(s: Seq<char>)
    ensures
        line_feed_at(s) <= s.len(),
        line_feed_at(s) < s.len() ==> s[line_feed_at(s) as int] == '\n',
        forall|i: int| 0 <= i < line_feed_at(s) ==> (#[trigger] s[i]) != '\n',
    decreases s.len(),
{
    if s.len() > 0 && s[0] != '\n' {
        let rest = s.drop_first();
        lemma_line_feed_at(rest);
        assert forall|i: int| 0 <= i < line_feed_at(s) implies (#[trigger] s[i]) != '\n' by {
            if i > 0 {
                assert(rest[i - 1] != '\n');
            }
        }
    }
}

/// A number in decimal has no superfluous zero in front and reads back as the number. A text reads as a
/// number exactly if it is made of digits, with a plus sign before them or without, and the number is
/// not too large.
pub proof fn law_numbers_read_back(n: nat, max: nat, s: Seq<char>)
    ensures
        n <= max ==> parsed_unsigned(decimal(n), max) == Some(n),
        n > max ==> parsed_unsigned(decimal(n), max) is None,
        n <= max ==> parsed_unsigned(seq!['+'] + decimal(n), max) == Some(n),
        decimal(n).len() > 1 ==> decimal(n)[0] != '0',
        s.len() == 0 ==> parsed_unsigned(s, max) is None,
        (exists|i: int| 0 < i < s.len() && !('0' <= #[trigger] s[i] && s[i] <= '9'))
            ==> parsed_unsigned(s, max) is None,
        s.len() > 0 && s[0] != '+' && !('0' <= s[0] && s[0] <= '9') ==> parsed_unsigned(s, max)
            is None,
{
    lemma_decimal(n);
    assert(is_digit(decimal(n)[0]));
    let signed = seq!['+'] + decimal(n);
    assert(signed.drop_first() =~= decimal(n));
    lemma_no_leading_zero(n);
    if exists|i: int| 0 < i < s.len() && !('0' <= #[trigger] s[i] && s[i] <= '9') {
        let i = choose|i: int| 0 < i < s.len() && !('0' <= #[trigger] s[i] && s[i] <= '9');
        if s[0] == '+' {
            assert(s.drop_first()[i - 1] == s[i]);
        }
    }
}

proof fn lemma_no_leading_zero(n: nat)
    ensures
        decimal(n).len() > 0,
        n > 0 ==> decimal(n)[0] != '0',
        n < 10 ==> decimal(n).len() == 1,
    decreases n,
{
    if n >= 10 {
        lemma_no_leading_zero(n / 10);
    }
}

} // verus!
