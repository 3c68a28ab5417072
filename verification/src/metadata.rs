//! The metadata of a document as it is stored: one JSON object with the
//! five fields in a fixed order and without white space, which is what a
//! compact JSON writer makes of the record.
//!
//! Writing and reading are inverse to each other: what `encode_metadata`
//! writes, `decode_metadata` reads back unchanged.

use vstd::prelude::*;
use crate::processors::{DocumentMetadata, MetadataView};
use crate::text::{chars_of, decimal, decimal_chars, string_of};

verus! {

/// The character of a hexadecimal digit, in lower case.
pub open spec fn hex_char(d: int) -> char {
    if d < 10 {
        (('0' as u8) + d) as char
    } else {
        (('a' as u8) + d - 10) as char
    }
}

/// How a character stands inside a JSON string: the quote and the
/// backslash behind a backslash, the control characters by their short
/// name where they have one and by their code otherwise, every other
/// character as itself.
pub open spec fn escaped_char(c: char) -> Seq<char> {
    if c == '"' {
        seq!['\\', '"']
    } else if c == '\\' {
        seq!['\\', '\\']
    } else if c == '\n' {
        seq!['\\', 'n']
    } else if c == '\r' {
        seq!['\\', 'r']
    } else if c == '\t' {
        seq!['\\', 't']
    } else if c == '\u{8}' {
        seq!['\\', 'b']
    } else if c == '\u{c}' {
        seq!['\\', 'f']
    } else if ' ' > c {
        seq!['\\', 'u', '0', '0', hex_char((c as int) / 16), hex_char((c as int) % 16)]
    } else {
        seq![c]
    }
}

/// The body of the JSON string for a text.
pub open spec fn escaped(s: Seq<char>) -> Seq<char>
    decreases s.len(),
{
    if s.len() == 0 {
        Seq::empty()
    } else {
        escaped_char(s[0]) + escaped(s.drop_first())
    }
}

/// The JSON string for a text.
pub open spec fn quoted(s: Seq<char>) -> Seq<char> {
    seq!['"'] + escaped(s) + seq!['"']
}

/// The JSON value for an optional text: `null` for none.
pub open spec fn optional_quoted(s: Option<Seq<char>>) -> Seq<char> {
    match s {
        Some(s) => quoted(s),
        None => seq!['n', 'u', 'l', 'l'],
    }
}

/// The opening brace and the key of the first field.
#[verifier::opaque]
pub open spec fn key_file_name() -> Seq<char> {
    seq!['{', '"', 'f', 'i', 'l', 'e', '_', 'n', 'a', 'm', 'e', '"', ':']
}

/// The comma and the key of the second field.
#[verifier::opaque]
pub open spec fn key_file_size() -> Seq<char> {
    seq![',', '"', 'f', 'i', 'l', 'e', '_', 's', 'i', 'z', 'e', '"', ':']
}

/// The comma and the key of the third field.
#[verifier::opaque]
pub open spec fn key_file_type() -> Seq<char> {
    seq![',', '"', 'f', 'i', 'l', 'e', '_', 't', 'y', 'p', 'e', '"', ':']
}

/// The comma and the key of the fourth field.
#[verifier::opaque]
pub open spec fn key_created_at() -> Seq<char> {
    seq![',', '"', 'c', 'r', 'e', 'a', 't', 'e', 'd', '_', 'a', 't', '"', ':']
}

/// The comma and the key of the fifth field.
#[verifier::opaque]
pub open spec fn key_modified_at() -> Seq<char> {
    seq![',', '"', 'm', 'o', 'd', 'i', 'f', 'i', 'e', 'd', '_', 'a', 't', '"', ':']
}

/// The stored form of a metadata record.
pub open spec fn encoded_metadata(m: MetadataView) -> Seq<char> {
    key_file_name() + quoted(m.file_name) + key_file_size() + decimal(m.file_size as nat)
        + key_file_type() + quoted(m.file_type) + key_created_at() + optional_quoted(m.created_at)
        + key_modified_at() + optional_quoted(m.modified_at) + seq!['}']
}

/// The body of a string grows at its end as the text does.
pub proof fn escaped_push(s: Seq<char>, c: char)
    ensures
        escaped(s.push(c)) == escaped(s) + escaped_char(c),
    decreases s.len(),
{
    if s.len() == 0 {
        assert(s.push(c).drop_first() =~= Seq::<char>::empty());
        assert(escaped(s.push(c)) =~= escaped_char(c) + escaped(Seq::empty()));
        assert(escaped(s) + escaped_char(c) =~= escaped_char(c));
        assert(escaped_char(c) + Seq::<char>::empty() =~= escaped_char(c));
    } else {
        assert(s.push(c).drop_first() =~= s.drop_first().push(c));
        escaped_push(s.drop_first(), c);
        assert(escaped(s.push(c)) =~= escaped(s) + escaped_char(c));
    }
}

fn hex(d: u8) -> (c: char)
    requires
        d < 16,
    ensures
        c == hex_char(d as int),
{
    if d < 10 {
        (48u8 + d) as char
    } else {
        (97u8 + (d - 10)) as char
    }
}

/// Appends to `out` how `c` stands inside a JSON string.
fn push_escaped(out: &mut Vec<char>, c: char)
    ensures
        final(out)@ == old(out)@ + escaped_char(c),
{
    if c == '"' {
        out.push('\\');
        out.push('"');
    } else if c == '\\' {
        out.push('\\');
        out.push('\\');
    } else if c == '\n' {
        out.push('\\');
        out.push('n');
    } else if c == '\r' {
        out.push('\\');
        out.push('r');
    } else if c == '\t' {
        out.push('\\');
        out.push('t');
    } else if c == '\u{8}' {
        out.push('\\');
        out.push('b');
    } else if c == '\u{c}' {
        out.push('\\');
        out.push('f');
    } else if ' ' > c {
        let code = c as u8;
        out.push('\\');
        out.push('u');
        out.push('0');
        out.push('0');
        out.push(hex(code / 16));
        out.push(hex(code % 16));
    } else {
        out.push(c);
    }
    assert(out@ =~= old(out)@ + escaped_char(c));
}

/// Appends the characters of `v` to `out`.
fn push_all(out: &mut Vec<char>, v: &Vec<char>)
    ensures
        final(out)@ == old(out)@ + v@,
{
    let mut i: usize = 0;
    while i < v.len()
        invariant
            i <= v.len(),
            out@ == old(out)@ + v@.take(i as int),
        decreases v.len() - i,
    {
        out.push(v[i]);
        i += 1;
        assert(out@ =~= old(out)@ + v@.take(i as int));
    }
    assert(v@.take(v.len() as int) =~= v@);
}

/// Appends the JSON string for `s` to `out`.
fn push_quoted(out: &mut Vec<char>, s: &str)
    ensures
        final(out)@ == old(out)@ + quoted(s@),
{
    let text = chars_of(s);
    out.push('"');
    let ghost start = out@;
    let mut i: usize = 0;
    assert(text@.take(0) =~= Seq::<char>::empty());
    while i < text.len()
        invariant
            i <= text.len(),
            out@ == start + escaped(text@.take(i as int)),
        decreases text.len() - i,
    {
        proof {
            escaped_push(text@.take(i as int), text@[i as int]);
            assert(text@.take(i + 1) =~= text@.take(i as int).push(text@[i as int]));
        }
        push_escaped(out, text[i]);
        i += 1;
        assert(out@ =~= start + escaped(text@.take(i as int)));
    }
    assert(text@.take(text.len() as int) =~= text@);
    out.push('"');
    assert(out@ =~= old(out)@ + quoted(s@));
}

/// Appends the JSON value for an optional text to `out`.
fn push_optional(out: &mut Vec<char>, s: &Option<String>)
    ensures
        final(out)@ == old(out)@ + optional_quoted(crate::records::text_view(*s)),
{
    match s {
        Some(s) => push_quoted(out, s.as_str()),
        None => {
            out.push('n');
            out.push('u');
            out.push('l');
            out.push('l');
            assert(out@ =~= old(out)@ + seq!['n', 'u', 'l', 'l']);
        },
    }
}

fn push_key(out: &mut Vec<char>, first: char, name: &str)
    ensures
        final(out)@ == old(out)@ + (seq![first, '"'] + name@ + seq!['"', ':']),
{
    out.push(first);
    out.push('"');
    let ghost start = out@;
    push_all(out, &chars_of(name));
    out.push('"');
    out.push(':');
    assert(out@ =~= old(out)@ + (seq![first, '"'] + name@ + seq!['"', ':']));
}

/// The stored form of a metadata record.
pub fn encode_metadata(m: &DocumentMetadata) -> (r: String)
    ensures
        r@ == encoded_metadata(m@),
{
    let mut out: Vec<char> = Vec::new();
    proof {
        reveal_strlit("file_name");
        reveal_strlit("file_size");
        reveal_strlit("file_type");
        reveal_strlit("created_at");
        reveal_strlit("modified_at");
        reveal(key_file_name);
        reveal(key_file_size);
        reveal(key_file_type);
        reveal(key_created_at);
        reveal(key_modified_at);
    }
    push_key(&mut out, '{', "file_name");
    assert(out@ =~= key_file_name());
    push_quoted(&mut out, m.file_name.as_str());
    let ghost a = out@;
    push_key(&mut out, ',', "file_size");
    assert(out@ =~= a + key_file_size());
    push_all(&mut out, &decimal_chars(m.file_size));
    let ghost b = out@;
    push_key(&mut out, ',', "file_type");
    assert(out@ =~= b + key_file_type());
    push_quoted(&mut out, m.file_type.as_str());
    let ghost c = out@;
    push_key(&mut out, ',', "created_at");
    assert(out@ =~= c + key_created_at());
    push_optional(&mut out, &m.created_at);
    let ghost d = out@;
    push_key(&mut out, ',', "modified_at");
    assert(out@ =~= d + key_modified_at());
    push_optional(&mut out, &m.modified_at);
    out.push('}');
    assert(out@ =~= encoded_metadata(m@));
    string_of(&out)
}


/// The value of a hexadecimal digit, in either case.
pub open spec fn hex_value(c: char) -> Option<int> {
    if '0' <= c && c <= '9' {
        Some(c as int - '0' as int)
    } else if 'a' <= c && c <= 'f' {
        Some(c as int - 'a' as int + 10)
    } else if 'A' <= c && c <= 'F' {
        Some(c as int - 'A' as int + 10)
    } else {
        None
    }
}

/// The number is the code of a character: surrogates are none.
pub open spec fn is_scalar(v: int) -> bool {
    0 <= v < 0xD800 || 0xE000 <= v <= 0x10FFFF
}

/// The character that `\uXXXX` stands for, from its four digits.
pub open spec fn unicode_escape(a: char, b: char, c: char, d: char) -> Option<char> {
    match (hex_value(a), hex_value(b), hex_value(c), hex_value(d)) {
        (Some(a), Some(b), Some(c), Some(d)) => {
            let v = ((a * 16 + b) * 16 + c) * 16 + d;
            if is_scalar(v) {
                Some(v as char)
            } else {
                None
            }
        },
        _ => None,
    }
}

/// The character that a short escape stands for, from the letter behind
/// the backslash.
pub open spec fn short_escape(c: char) -> Option<char> {
    if c == '"' {
        Some('"')
    } else if c == '\\' {
        Some('\\')
    } else if c == '/' {
        Some('/')
    } else if c == 'b' {
        Some('\u{8}')
    } else if c == 'f' {
        Some('\u{c}')
    } else if c == 'n' {
        Some('\n')
    } else if c == 'r' {
        Some('\r')
    } else if c == 't' {
        Some('\t')
    } else {
        None
    }
}

/// Reads one character of a string's body from the start of `t`: the
/// character, and how many characters of `t` stood for it. A quote, a
/// control character and an escape that JSON does not know are refused,
/// as is the code of a surrogate.
pub open spec fn read_char(t: Seq<char>) -> Option<(char, int)> {
    if t.len() == 0 || t[0] == '"' || ' ' > t[0] {
        None
    } else if t[0] != '\\' {
        Some((t[0], 1))
    } else if t.len() < 2 {
        None
    } else if t[1] == 'u' {
        if t.len() < 6 {
            None
        } else {
            match unicode_escape(t[2], t[3], t[4], t[5]) {
                Some(c) => Some((c, 6)),
                None => None,
            }
        }
    } else {
        match short_escape(t[1]) {
            Some(c) => Some((c, 2)),
            None => None,
        }
    }
}

/// Reads the body of a string up to its closing quote: the text, and
/// what is left of `t` behind the quote.
pub open spec fn read_body(t: Seq<char>) -> Option<(Seq<char>, Seq<char>)>
    decreases t.len(),
{
    if t.len() == 0 {
        None
    } else if t[0] == '"' {
        Some((Seq::empty(), t.skip(1)))
    } else {
        match read_char(t) {
            Some((c, n)) => if 1 <= n <= t.len() {
                match read_body(t.skip(n)) {
                    Some((s, rest)) => Some((seq![c] + s, rest)),
                    None => None,
                }
            } else {
                None
            },
            None => None,
        }
    }
}

/// Reads a JSON string from the start of `t`.
#[verifier::opaque]
pub open spec fn read_string(t: Seq<char>) -> Option<(Seq<char>, Seq<char>)> {
    if t.len() > 0 && t[0] == '"' {
        read_body(t.skip(1))
    } else {
        None
    }
}

/// Reads `null` or a JSON string from the start of `t`.
#[verifier::opaque]
pub open spec fn read_optional(t: Seq<char>) -> Option<(Option<Seq<char>>, Seq<char>)> {
    if t.len() >= 4 && t.take(4) == seq!['n', 'u', 'l', 'l'] {
        Some((None, t.skip(4)))
    } else {
        match read_string(t) {
            Some((s, rest)) => Some((Some(s), rest)),
            None => None,
        }
    }
}

/// The character is a decimal digit.
pub open spec fn is_digit(c: char) -> bool {
    '0' <= c && c <= '9'
}

/// How many digits stand at the start of `t`.
pub open spec fn digits_at(t: Seq<char>) -> nat
    decreases t.len(),
{
    if t.len() > 0 && is_digit(t[0]) {
        1 + digits_at(t.skip(1))
    } else {
        0
    }
}

/// The number that a run of digits writes.
pub open spec fn value_of(d: Seq<char>) -> nat
    decreases d.len(),
{
    if d.len() == 0 {
        0
    } else {
        (value_of(d.drop_last()) * 10 + (d.last() as int - '0' as int)) as nat
    }
}

/// Reads a number from the start of `t`: all the digits that stand
/// there. No digit, a zero in front of another digit and a number beyond
/// 64 bits are refused.
#[verifier::opaque]
pub open spec fn read_number(t: Seq<char>) -> Option<(u64, Seq<char>)> {
    let n = digits_at(t) as int;
    let d = t.take(n);
    if n == 0 || (n > 1 && t[0] == '0') || value_of(d) > u64::MAX {
        None
    } else {
        Some((value_of(d) as u64, t.skip(n)))
    }
}

/// Reads the given characters from the start of `t`.
#[verifier::opaque]
pub open spec fn read_exact(t: Seq<char>, expected: Seq<char>) -> Option<Seq<char>> {
    if expected.len() <= t.len() && t.take(expected.len() as int) == expected {
        Some(t.skip(expected.len() as int))
    } else {
        None
    }
}

/// Reads the last field and the closing brace, behind which nothing may
/// follow.
pub open spec fn decoded_after_created(
    t: Seq<char>,
    file_name: Seq<char>,
    file_size: u64,
    file_type: Seq<char>,
    created_at: Option<Seq<char>>,
) -> Option<MetadataView> {
    match read_exact(t, key_modified_at()) {
        Some(value) => match read_optional(value) {
            Some((modified_at, rest)) => if rest == seq!['}'] {
                Some(MetadataView { file_name, file_size, file_type, created_at, modified_at })
            } else {
                None
            },
            None => None,
        },
        None => None,
    }
}

/// Reads the fourth field and what follows it.
pub open spec fn decoded_after_type(
    t: Seq<char>,
    file_name: Seq<char>,
    file_size: u64,
    file_type: Seq<char>,
) -> Option<MetadataView> {
    match read_exact(t, key_created_at()) {
        Some(value) => match read_optional(value) {
            Some((created_at, rest)) => decoded_after_created(
                rest,
                file_name,
                file_size,
                file_type,
                created_at,
            ),
            None => None,
        },
        None => None,
    }
}

/// Reads the third field and what follows it.
pub open spec fn decoded_after_size(t: Seq<char>, file_name: Seq<char>, file_size: u64) -> Option<
    MetadataView,
> {
    match read_exact(t, key_file_type()) {
        Some(value) => match read_string(value) {
            Some((file_type, rest)) => decoded_after_type(rest, file_name, file_size, file_type),
            None => None,
        },
        None => None,
    }
}

/// Reads the second field and what follows it.
pub open spec fn decoded_after_name(t: Seq<char>, file_name: Seq<char>) -> Option<MetadataView> {
    match read_exact(t, key_file_size()) {
        Some(value) => match read_number(value) {
            Some((file_size, rest)) => decoded_after_size(rest, file_name, file_size),
            None => None,
        },
        None => None,
    }
}

/// Reads a metadata record: the five fields in their order, nothing
/// between them, nothing behind the closing brace.
pub open spec fn decoded_metadata(t: Seq<char>) -> Option<MetadataView> {
    match read_exact(t, key_file_name()) {
        Some(value) => match read_string(value) {
            Some((file_name, rest)) => decoded_after_name(rest, file_name),
            None => None,
        },
        None => None,
    }
}

/// A character that was written is read back, whatever follows it.
pub proof fn read_char_of_escaped(c: char, rest: Seq<char>)
    ensures
        read_char(escaped_char(c) + rest) == Some((c, escaped_char(c).len() as int)),
        1 <= escaped_char(c).len(),
        (escaped_char(c) + rest)[0] != '"',
{
    let e = escaped_char(c);
    let t = e + rest;
    if c == '"' || c == '\\' || c == '\n' || c == '\r' || c == '\t' || c == '\u{8}' || c == '\u{c}' {
        assert(t[0] == e[0]);
        assert(t[1] == e[1]);
    } else if ' ' > c {
        let hi = (c as int) / 16;
        let lo = (c as int) % 16;
        assert(0 <= hi < 2);
        assert(0 <= lo < 16);
        assert(t[0] == '\\');
        assert(t[1] == 'u');
        assert(t[2] == '0');
        assert(t[3] == '0');
        assert(t[4] == hex_char(hi));
        assert(t[5] == hex_char(lo));
        assert(hex_value('0') == Some(0int));
        assert(hex_value(hex_char(hi)) == Some(hi));
        assert(hex_value(hex_char(lo)) == Some(lo));
        assert(((0 * 16 + 0) * 16 + hi) * 16 + lo == c as int);
        assert(is_scalar(c as int));
        assert((c as int) as char == c);
        assert(unicode_escape(t[2], t[3], t[4], t[5]) == Some(c));
    } else {
        assert(t[0] == c);
    }
}

/// The body of a string that was written is read back up to its closing
/// quote, and what follows the quote is left.
pub proof fn read_body_of_escaped(s: Seq<char>, rest: Seq<char>)
    ensures
        read_body(escaped(s) + seq!['"'] + rest) == Some((s, rest)),
    decreases s.len(),
{
    let t = escaped(s) + seq!['"'] + rest;
    if s.len() == 0 {
        assert(t[0] == '"');
        assert(t.skip(1) =~= rest);
    } else {
        let c = s[0];
        let tail = escaped(s.drop_first()) + seq!['"'] + rest;
        assert(t =~= escaped_char(c) + tail);
        read_char_of_escaped(c, tail);
        let n = escaped_char(c).len() as int;
        assert(t.skip(n) =~= tail);
        read_body_of_escaped(s.drop_first(), rest);
        assert(seq![c] + s.drop_first() =~= s);
    }
}

/// A string that was written is read back, and what follows it is left.
pub proof fn read_string_of_quoted(s: Seq<char>, rest: Seq<char>)
    ensures
        read_string(quoted(s) + rest) == Some((s, rest)),
{
    reveal(read_string);
    let t = quoted(s) + rest;
    assert(t[0] == '"');
    assert(t.skip(1) =~= escaped(s) + seq!['"'] + rest);
    read_body_of_escaped(s, rest);
}

/// An optional text that was written is read back, and what follows it
/// is left.
pub proof fn read_optional_of_quoted(s: Option<Seq<char>>, rest: Seq<char>)
    ensures
        read_optional(optional_quoted(s) + rest) == Some((s, rest)),
{
    reveal(read_optional);
    reveal(read_string);
    let t = optional_quoted(s) + rest;
    match s {
        Some(text) => {
            assert(t[0] == '"');
            if t.len() >= 4 {
                assert(t.take(4)[0] == '"');
            }
            read_string_of_quoted(text, rest);
        },
        None => {
            assert(t.take(4) =~= seq!['n', 'u', 'l', 'l']);
            assert(t.skip(4) =~= rest);
        },
    }
}

/// What stands at the start is read, and the rest is left.
pub proof fn read_exact_of_prefix(expected: Seq<char>, rest: Seq<char>)
    ensures
        read_exact(expected + rest, expected) == Some(rest),
{
    reveal(read_exact);
    let t = expected + rest;
    assert(t.take(expected.len() as int) =~= expected);
    assert(t.skip(expected.len() as int) =~= rest);
}

/// The numeral of a number is made of digits, starts with a zero only
/// when it is `0`, and writes that number.
pub proof fn decimal_is_a_numeral(n: nat)
    ensures
        decimal(n).len() >= 1,
        forall|i: int| 0 <= i < decimal(n).len() ==> is_digit(#[trigger] decimal(n)[i]),
        decimal(n).len() > 1 ==> decimal(n)[0] != '0',
        n > 0 ==> decimal(n)[0] != '0',
        value_of(decimal(n)) == n,
    decreases n,
{
    if n < 10 {
        let d = decimal(n);
        assert(d.len() == 1);
        assert(d.drop_last() =~= Seq::<char>::empty());
        assert(value_of(d.drop_last()) == 0);
        assert(d.last() as int - '0' as int == n);
    } else {
        decimal_is_a_numeral(n / 10);
        let before = decimal(n / 10);
        let d = decimal(n);
        assert(d.drop_last() =~= before);
        assert(d.last() as int - '0' as int == n % 10);
        assert(d[0] == before[0]);
        assert forall|i: int| 0 <= i < d.len() implies is_digit(#[trigger] d[i]) by {
            if i < before.len() {
                assert(d[i] == before[i]);
            }
        }
    }
}

/// Digits at the start count, up to the first character that is none.
pub proof fn digits_at_of_run(d: Seq<char>, rest: Seq<char>)
    requires
        forall|i: int| 0 <= i < d.len() ==> is_digit(#[trigger] d[i]),
        rest.len() == 0 || !is_digit(rest[0]),
    ensures
        digits_at(d + rest) == d.len(),
    decreases d.len(),
{
    let t = d + rest;
    if d.len() == 0 {
        assert(t =~= rest);
    } else {
        assert(t[0] == d[0]);
        assert(t.skip(1) =~= d.drop_first() + rest);
        assert forall|i: int| 0 <= i < d.drop_first().len() implies is_digit(
            #[trigger] d.drop_first()[i],
        ) by {
            assert(d.drop_first()[i] == d[i + 1]);
        }
        digits_at_of_run(d.drop_first(), rest);
    }
}

/// A number that was written is read back, and what follows it is left,
/// as long as no digit follows it.
pub proof fn read_number_of_decimal(n: u64, rest: Seq<char>)
    requires
        rest.len() == 0 || !is_digit(rest[0]),
    ensures
        read_number(decimal(n as nat) + rest) == Some((n, rest)),
{
    reveal(read_number);
    let d = decimal(n as nat);
    let t = d + rest;
    decimal_is_a_numeral(n as nat);
    digits_at_of_run(d, rest);
    assert(t.take(d.len() as int) =~= d);
    assert(t.skip(d.len() as int) =~= rest);
    assert(t[0] == d[0]);
}

/// What is written behind the fourth field.
pub open spec fn encoded_after_created(m: MetadataView) -> Seq<char> {
    key_modified_at() + (optional_quoted(m.modified_at) + seq!['}'])
}

/// What is written behind the third field.
pub open spec fn encoded_after_type(m: MetadataView) -> Seq<char> {
    key_created_at() + (optional_quoted(m.created_at) + encoded_after_created(m))
}

/// What is written behind the second field.
pub open spec fn encoded_after_size(m: MetadataView) -> Seq<char> {
    key_file_type() + (quoted(m.file_type) + encoded_after_type(m))
}

/// What is written behind the first field.
pub open spec fn encoded_after_name(m: MetadataView) -> Seq<char> {
    key_file_size() + (decimal(m.file_size as nat) + encoded_after_size(m))
}

/// The stored form is the first field and what is written behind it.
pub proof fn encoded_by_fields(m: MetadataView)
    ensures
        encoded_metadata(m) == key_file_name() + (quoted(m.file_name) + encoded_after_name(m)),
{
    assert(encoded_metadata(m) =~= key_file_name() + (quoted(m.file_name) + encoded_after_name(m)));
}

proof fn last_field_reads_back(m: MetadataView)
    ensures
        decoded_after_created(
            encoded_after_created(m),
            m.file_name,
            m.file_size,
            m.file_type,
            m.created_at,
        ) == Some(m),
{
    let tail = seq!['}'];
    read_exact_of_prefix(key_modified_at(), optional_quoted(m.modified_at) + tail);
    read_optional_of_quoted(m.modified_at, tail);
}

proof fn fourth_field_reads_back(m: MetadataView)
    ensures
        decoded_after_type(encoded_after_type(m), m.file_name, m.file_size, m.file_type) == Some(m),
{
    let tail = encoded_after_created(m);
    read_exact_of_prefix(key_created_at(), optional_quoted(m.created_at) + tail);
    read_optional_of_quoted(m.created_at, tail);
    last_field_reads_back(m);
}

proof fn third_field_reads_back(m: MetadataView)
    ensures
        decoded_after_size(encoded_after_size(m), m.file_name, m.file_size) == Some(m),
{
    let tail = encoded_after_type(m);
    read_exact_of_prefix(key_file_type(), quoted(m.file_type) + tail);
    read_string_of_quoted(m.file_type, tail);
    fourth_field_reads_back(m);
}

proof fn second_field_reads_back(m: MetadataView)
    ensures
        decoded_after_name(encoded_after_name(m), m.file_name) == Some(m),
{
    let tail = encoded_after_size(m);
    read_exact_of_prefix(key_file_size(), decimal(m.file_size as nat) + tail);
    assert(tail[0] == ',') by {
        reveal(key_file_type);
    }
    read_number_of_decimal(m.file_size, tail);
    third_field_reads_back(m);
}

/// Reading is the inverse of writing: the stored form of a metadata
/// record decodes to that record.
pub proof fn metadata_round_trip(m: MetadataView)
    ensures
        decoded_metadata(encoded_metadata(m)) == Some(m),
{
    let tail = encoded_after_name(m);
    encoded_by_fields(m);
    read_exact_of_prefix(key_file_name(), quoted(m.file_name) + tail);
    read_string_of_quoted(m.file_name, tail);
    second_field_reads_back(m);
}

/// `char::from_u32`: the character with this code, or `None` where the
/// number is the code of no character.
pub assume_specification[ char::from_u32 ](i: u32) -> (r: Option<char>)
    ensures
        r == (if is_scalar(i as int) {
            Some(i as char)
        } else {
            None::<char>
        }),
;

fn hex_digit_value(c: char) -> (r: Option<u32>)
    ensures
        match hex_value(c) {
            Some(v) => r == Some(v as u32) && 0 <= v < 16,
            None => r is None,
        },
{
    if '0' <= c && c <= '9' {
        Some((c as u32) - ('0' as u32))
    } else if 'a' <= c && c <= 'f' {
        Some((c as u32) - ('a' as u32) + 10)
    } else if 'A' <= c && c <= 'F' {
        Some((c as u32) - ('A' as u32) + 10)
    } else {
        None
    }
}

fn short_escape_of(c: char) -> (r: Option<char>)
    ensures
        r == short_escape(c),
{
    if c == '"' {
        Some('"')
    } else if c == '\\' {
        Some('\\')
    } else if c == '/' {
        Some('/')
    } else if c == 'b' {
        Some('\u{8}')
    } else if c == 'f' {
        Some('\u{c}')
    } else if c == 'n' {
        Some('\n')
    } else if c == 'r' {
        Some('\r')
    } else if c == 't' {
        Some('\t')
    } else {
        None
    }
}

fn unicode_escape_of(a: char, b: char, c: char, d: char) -> (r: Option<char>)
    ensures
        r == unicode_escape(a, b, c, d),
{
    match (hex_digit_value(a), hex_digit_value(b), hex_digit_value(c), hex_digit_value(d)) {
        (Some(a), Some(b), Some(c), Some(d)) => {
            let v: u32 = ((a * 16 + b) * 16 + c) * 16 + d;
            char::from_u32(v)
        },
        _ => None,
    }
}

/// Reads one character of a string's body at `pos`.
fn read_char_at(text: &Vec<char>, pos: usize) -> (r: Option<(char, usize)>)
    requires
        pos <= text@.len(),
    ensures
        match read_char(text@.skip(pos as int)) {
            Some((c, n)) => r == Some((c, n as usize)) && 1 <= n && pos + n <= text@.len(),
            None => r is None,
        },
{
    let ghost t = text@.skip(pos as int);
    if pos >= text.len() {
        return None;
    }
    let first = text[pos];
    assert(t[0] == first);
    if first == '"' || ' ' > first {
        return None;
    }
    if first != '\\' {
        return Some((first, 1));
    }
    if text.len() - pos < 2 {
        return None;
    }
    let second = text[pos + 1];
    assert(t[1] == second);
    if second == 'u' {
        if text.len() - pos < 6 {
            return None;
        }
        assert(t[2] == text@[pos + 2]);
        assert(t[3] == text@[pos + 3]);
        assert(t[4] == text@[pos + 4]);
        assert(t[5] == text@[pos + 5]);
        match unicode_escape_of(text[pos + 2], text[pos + 3], text[pos + 4], text[pos + 5]) {
            Some(c) => Some((c, 6)),
            None => None,
        }
    } else {
        match short_escape_of(second) {
            Some(c) => Some((c, 2)),
            None => None,
        }
    }
}

/// The text that was read so far in front of what is read from here on.
pub open spec fn continued(so_far: Seq<char>, r: Option<(Seq<char>, Seq<char>)>) -> Option<
    (Seq<char>, Seq<char>),
> {
    match r {
        Some((s, rest)) => Some((so_far + s, rest)),
        None => None,
    }
}

/// Reads a JSON string at `pos`: the text, and the position behind the
/// closing quote.
fn read_string_at(text: &Vec<char>, pos: usize) -> (r: Option<(String, usize)>)
    requires
        pos <= text@.len(),
    ensures
        match read_string(text@.skip(pos as int)) {
            Some((s, rest)) => r matches Some((v, next)) && v@ == s && pos <= next <= text@.len()
                && text@.skip(next as int) == rest,
            None => r is None,
        },
{
    reveal(read_string);
    if pos >= text.len() || text[pos] != '"' {
        return None;
    }
    let ghost whole = read_body(text@.skip(pos + 1));
    assert(text@.skip(pos as int).skip(1) =~= text@.skip(pos + 1));
    let mut so_far: Vec<char> = Vec::new();
    let mut i: usize = pos + 1;
    assert(continued(so_far@, whole) == whole) by {
        if let Some((s, rest)) = whole {
            assert(so_far@ + s =~= s);
        }
    }
    assert(read_string(text@.skip(pos as int)) == whole);
    loop
        invariant
            pos < i <= text@.len(),
            read_string(text@.skip(pos as int)) == whole,
            continued(so_far@, read_body(text@.skip(i as int))) == whole,
        decreases text@.len() - i,
    {
        let ghost t = text@.skip(i as int);
        if i >= text.len() {
            return None;
        }
        assert(t[0] == text@[i as int]);
        if text[i] == '"' {
            assert(t.skip(1) =~= text@.skip(i + 1));
            assert(so_far@ + Seq::<char>::empty() =~= so_far@);
            return Some((string_of(&so_far), i + 1));
        }
        match read_char_at(text, i) {
            Some((c, n)) => {
                proof {
                    assert(t.skip(n as int) =~= text@.skip(i + n));
                    if let Some((s, rest)) = read_body(text@.skip(i + n)) {
                        assert(so_far@ + (seq![c] + s) =~= so_far@.push(c) + s);
                    }
                }
                so_far.push(c);
                i += n;
            },
            None => {
                return None;
            },
        }
    }
}

/// Reads `null` or a JSON string at `pos`.
fn read_optional_at(text: &Vec<char>, pos: usize) -> (r: Option<(Option<String>, usize)>)
    requires
        pos <= text@.len(),
    ensures
        match read_optional(text@.skip(pos as int)) {
            Some((s, rest)) => r matches Some((v, next)) && crate::records::text_view(v) == s && pos
                <= next <= text@.len() && text@.skip(next as int) == rest,
            None => r is None,
        },
{
    reveal(read_optional);
    let ghost t = text@.skip(pos as int);
    if text.len() - pos >= 4 && text[pos] == 'n' && text[pos + 1] == 'u' && text[pos + 2] == 'l'
        && text[pos + 3] == 'l' {
        assert(t.take(4) =~= seq!['n', 'u', 'l', 'l']);
        assert(t.skip(4) =~= text@.skip(pos + 4));
        return Some((None, pos + 4));
    }
    proof {
        if t.len() >= 4 && t.take(4) == seq!['n', 'u', 'l', 'l'] {
            assert(t.take(4)[0] == t[0] && t[0] == text@[pos as int]);
            assert(t.take(4)[1] == t[1] && t[1] == text@[pos + 1]);
            assert(t.take(4)[2] == t[2] && t[2] == text@[pos + 2]);
            assert(t.take(4)[3] == t[3] && t[3] == text@[pos + 3]);
        }
    }
    match read_string_at(text, pos) {
        Some((s, next)) => Some((Some(s), next)),
        None => None,
    }
}

/// Reads a number at `pos`.
fn read_number_at(text: &Vec<char>, pos: usize) -> (r: Option<(u64, usize)>)
    requires
        pos <= text@.len(),
    ensures
        match read_number(text@.skip(pos as int)) {
            Some((n, rest)) => r matches Some((v, next)) && v == n && pos <= next <= text@.len()
                && text@.skip(next as int) == rest,
            None => r is None,
        },
{
    reveal(read_number);
    let ghost t = text@.skip(pos as int);
    let mut i: usize = pos;
    let mut value: u64 = 0;
    let mut too_large = false;
    assert(text@.subrange(pos as int, pos as int) =~= Seq::<char>::empty());
    while i < text.len() && '0' <= text[i] && text[i] <= '9'
        invariant
            pos <= i <= text@.len(),
            t == text@.skip(pos as int),
            digits_at(t) == (i - pos) + digits_at(text@.skip(i as int)),
            too_large <==> value_of(text@.subrange(pos as int, i as int)) > u64::MAX,
            !too_large ==> value == value_of(text@.subrange(pos as int, i as int)),
        decreases text@.len() - i,
    {
        let digit = ((text[i] as u32) - ('0' as u32)) as u64;
        proof {
            let here = text@.skip(i as int);
            assert(here[0] == text@[i as int]);
            assert(here.skip(1) =~= text@.skip(i + 1));
            let run = text@.subrange(pos as int, i + 1);
            assert(run.drop_last() =~= text@.subrange(pos as int, i as int));
            assert(run.last() == text@[i as int]);
        }
        if too_large || value > (u64::MAX - digit) / 10 {
            too_large = true;
        } else {
            value = value * 10 + digit;
        }
        i += 1;
    }
    proof {
        let here = text@.skip(i as int);
        if i < text@.len() {
            assert(here[0] == text@[i as int]);
        }
        assert(digits_at(here) == 0);
        assert(t.take(i - pos) =~= text@.subrange(pos as int, i as int));
        assert(t.skip(i - pos) =~= text@.skip(i as int));
        if i > pos {
            assert(t[0] == text@[pos as int]);
        }
    }
    if i == pos || (i - pos > 1 && text[pos] == '0') || too_large {
        None
    } else {
        Some((value, i))
    }
}

/// Reads the characters of `expected` at `pos`.
fn read_exact_at(text: &Vec<char>, pos: usize, expected: &Vec<char>) -> (r: Option<usize>)
    requires
        pos <= text@.len(),
    ensures
        match read_exact(text@.skip(pos as int), expected@) {
            Some(rest) => r matches Some(next) && pos <= next <= text@.len() && text@.skip(
                next as int,
            ) == rest,
            None => r is None,
        },
{
    reveal(read_exact);
    let ghost t = text@.skip(pos as int);
    if crate::text::matches_at(text, expected, pos) {
        assert(t.take(expected@.len() as int) =~= text@.subrange(
            pos as int,
            pos + expected@.len(),
        ));
        assert(t.skip(expected@.len() as int) =~= text@.skip(pos + expected@.len()));
        let total = text.len();
        assert(pos + expected@.len() <= total);
        Some(pos + expected.len())
    } else {
        proof {
            if expected@.len() <= t.len() {
                assert(t.take(expected@.len() as int) =~= text@.subrange(
                    pos as int,
                    pos + expected@.len(),
                ));
            }
        }
        None
    }
}

fn key(first: char, name: &str) -> (r: Vec<char>)
    ensures
        r@ == seq![first, '"'] + name@ + seq!['"', ':'],
{
    let mut r: Vec<char> = Vec::new();
    push_key(&mut r, first, name);
    assert(r@ =~= seq![first, '"'] + name@ + seq!['"', ':']);
    r
}

/// Reads a stored metadata record. What is not the stored form of a
/// record, field for field and without white space, gives `None`.
pub fn decode_metadata(text: &str) -> (r: Option<DocumentMetadata>)
    ensures
        match decoded_metadata(text@) {
            Some(m) => r matches Some(x) && x@ == m,
            None => r is None,
        },
{
    let t = chars_of(text);
    proof {
        reveal_strlit("file_name");
        reveal_strlit("file_size");
        reveal_strlit("file_type");
        reveal_strlit("created_at");
        reveal_strlit("modified_at");
        reveal(key_file_name);
        reveal(key_file_size);
        reveal(key_file_type);
        reveal(key_created_at);
        reveal(key_modified_at);
        assert(t@.skip(0) =~= t@);
    }
    let k1 = key('{', "file_name");
    assert(k1@ =~= key_file_name());
    let k2 = key(',', "file_size");
    assert(k2@ =~= key_file_size());
    let k3 = key(',', "file_type");
    assert(k3@ =~= key_file_type());
    let k4 = key(',', "created_at");
    assert(k4@ =~= key_created_at());
    let k5 = key(',', "modified_at");
    assert(k5@ =~= key_modified_at());
    let name_at = match read_exact_at(&t, 0, &k1) {
        Some(p) => p,
        None => {
            return None;
        },
    };
    let (file_name, size_key_at) = match read_string_at(&t, name_at) {
        Some(x) => x,
        None => {
            return None;
        },
    };
    let size_at = match read_exact_at(&t, size_key_at, &k2) {
        Some(p) => p,
        None => {
            return None;
        },
    };
    let (file_size, type_key_at) = match read_number_at(&t, size_at) {
        Some(x) => x,
        None => {
            return None;
        },
    };
    let type_at = match read_exact_at(&t, type_key_at, &k3) {
        Some(p) => p,
        None => {
            return None;
        },
    };
    let (file_type, created_key_at) = match read_string_at(&t, type_at) {
        Some(x) => x,
        None => {
            return None;
        },
    };
    let created_value_at = match read_exact_at(&t, created_key_at, &k4) {
        Some(p) => p,
        None => {
            return None;
        },
    };
    let (created_at, modified_key_at) = match read_optional_at(&t, created_value_at) {
        Some(x) => x,
        None => {
            return None;
        },
    };
    let modified_value_at = match read_exact_at(&t, modified_key_at, &k5) {
        Some(p) => p,
        None => {
            return None;
        },
    };
    let (modified_at, end_at) = match read_optional_at(&t, modified_value_at) {
        Some(x) => x,
        None => {
            return None;
        },
    };
    let closed = t.len() - end_at == 1 && t[end_at] == '}';
    proof {
        let rest = t@.skip(end_at as int);
        if closed {
            assert(rest =~= seq!['}']);
        } else if rest == seq!['}'] {
            assert(rest.len() == 1);
            assert(rest[0] == t@[end_at as int]);
        }
    }
    if !closed {
        return None;
    }
    Some(DocumentMetadata { file_name, file_size, file_type, created_at, modified_at })
}

} // verus!
