//! Verified construction of the provider's JSON envelope.
//!
//! The provider expects one fixed body shape: a top-level `message` object
//! holding the device token, a generic `notification` block and an
//! `android.notification` block that mirrors it plus a fixed sound and a
//! click action. The body is rendered compactly with the keys of every
//! object in ascending order, and string values are escaped exactly as the
//! JSON standard asks: quote, backslash and the control characters below
//! 0x20, with the short escapes for backspace, tab, line feed, form feed and
//! carriage return and a `\u00..` escape for the rest. All other characters
//! pass through unchanged.

use crate::payload::FcmPayloadData;
use crate::text::push_char;
use crate::text::spec_digit;
use vstd::prelude::*;
use vstd::string::StrSliceExecFns;
use vstd::string::StringExecFns;
use vstd::utf8::encode_utf8;

verus! {

/// The character for one hexadecimal digit, lower case.
pub open spec fn spec_hex_digit(d: int) -> char {
    if d < 10 {
        spec_digit(d)
    } else if d == 10 {
        'a'
    } else if d == 11 {
        'b'
    } else if d == 12 {
        'c'
    } else if d == 13 {
        'd'
    } else if d == 14 {
        'e'
    } else {
        'f'
    }
}

/// How one character is rendered inside a JSON string literal.
pub open spec fn spec_escape_char(c: char) -> Seq<char> {
    if c == '"' {
        seq!['\\', '"']
    } else if c == '\\' {
        seq!['\\', '\\']
    } else if c == '\u{8}' {
        seq!['\\', 'b']
    } else if c == '\t' {
        seq!['\\', 't']
    } else if c == '\n' {
        seq!['\\', 'n']
    } else if c == '\u{c}' {
        seq!['\\', 'f']
    } else if c == '\r' {
        seq!['\\', 'r']
    } else if (c as u32) < 0x20 {
        seq!['\\', 'u', '0', '0', spec_hex_digit((c as u32) as int / 16), spec_hex_digit(
            (c as u32) as int % 16,
        )]
    } else {
        seq![c]
    }
}

/// How a whole string is rendered inside a JSON string literal, without the
/// surrounding quotes.
pub open spec fn spec_escape(s: Seq<char>) -> Seq<char>
    decreases s.len(),
{
    if s.len() == 0 {
        Seq::empty()
    } else {
        spec_escape_char(s[0]) + spec_escape(s.drop_first())
    }
}

/// A whole JSON string literal: the escaped text between quotes.
pub open spec fn spec_quoted(s: Seq<char>) -> Seq<char> {
    seq!['"'] + spec_escape(s) + seq!['"']
}

/// Escaping a concatenation escapes the parts one after the other.
proof fn lemma_escape_concat(a: Seq<char>, b: Seq<char>)
    ensures
        spec_escape(a + b) == spec_escape(a) + spec_escape(b),
    decreases a.len(),
{
    if a.len() == 0 {
        assert(a + b =~= b);
        assert(spec_escape(a) + spec_escape(b) =~= spec_escape(b));
    } else {
        lemma_escape_concat(a.drop_first(), b);
        assert((a + b).drop_first() =~= a.drop_first() + b);
        assert(spec_escape_char(a[0]) + (spec_escape(a.drop_first()) + spec_escape(b))
            =~= (spec_escape_char(a[0]) + spec_escape(a.drop_first())) + spec_escape(b));
    }
}

fn hex_char(d: u32) -> (c: char)
    requires
        d < 16,
    ensures
        c == spec_hex_digit(d as int),
{
    match d {
        0 => '0',
        1 => '1',
        2 => '2',
        3 => '3',
        4 => '4',
        5 => '5',
        6 => '6',
        7 => '7',
        8 => '8',
        9 => '9',
        10 => 'a',
        11 => 'b',
        12 => 'c',
        13 => 'd',
        14 => 'e',
        _ => 'f',
    }
}

/// Appends the escaped form of one character to `out`.
fn push_escaped_char(out: &mut String, c: char)
    ensures
        final(out)@ == old(out)@ + spec_escape_char(c),
{
    if c == '"' {
        push_char(out, '\\');
        push_char(out, '"');
    } else if c == '\\' {
        push_char(out, '\\');
        push_char(out, '\\');
    } else if c == '\u{8}' {
        push_char(out, '\\');
        push_char(out, 'b');
    } else if c == '\t' {
        push_char(out, '\\');
        push_char(out, 't');
    } else if c == '\n' {
        push_char(out, '\\');
        push_char(out, 'n');
    } else if c == '\u{c}' {
        push_char(out, '\\');
        push_char(out, 'f');
    } else if c == '\r' {
        push_char(out, '\\');
        push_char(out, 'r');
    } else if (c as u32) < 0x20 {
        push_char(out, '\\');
        push_char(out, 'u');
        push_char(out, '0');
        push_char(out, '0');
        push_char(out, hex_char((c as u32) / 16));
        push_char(out, hex_char((c as u32) % 16));
    } else {
        push_char(out, c);
    }
    proof {
        assert(final(out)@ =~= old(out)@ + spec_escape_char(c));
    }
}

/// Appends the escaped form of `s` to `out`, without quotes.
fn append_escaped(out: &mut String, s: &str)
    ensures
        final(out)@ == old(out)@ + spec_escape(s@),
{
    let n = s.unicode_len();
    let mut i: usize = 0;
    proof {
        assert(s@.subrange(0, 0) =~= Seq::<char>::empty());
        assert(out@ =~= old(out)@ + spec_escape(s@.subrange(0, 0)));
    }
    while i < n
        invariant
            i <= n,
            n == s@.len(),
            out@ == old(out)@ + spec_escape(s@.subrange(0, i as int)),
        decreases n - i,
    {
        let c = s.get_char(i);
        push_escaped_char(out, c);
        proof {
            let pre = s@.subrange(0, i as int);
            let one = seq![s@[i as int]];
            assert(s@.subrange(0, i + 1) =~= pre + one);
            lemma_escape_concat(pre, one);
            assert(one.drop_first() =~= Seq::<char>::empty());
            assert(spec_escape(one.drop_first()) =~= Seq::<char>::empty());
            assert(spec_escape(one) =~= spec_escape_char(s@[i as int]));
            assert(out@ =~= old(out)@ + spec_escape(s@.subrange(0, i + 1)));
        }
        i = i + 1;
    }
    proof {
        assert(s@.subrange(0, n as int) =~= s@);
    }
}

/// Appends a whole JSON string literal for `s` to `out`.
fn append_quoted(out: &mut String, s: &str)
    ensures
        final(out)@ == old(out)@ + spec_quoted(s@),
{
    push_char(out, '"');
    append_escaped(out, s);
    push_char(out, '"');
    proof {
        assert(final(out)@ =~= old(out)@ + spec_quoted(s@));
    }
}

/// The envelope body for one notification: the exact compact JSON text sent
/// to the provider, a function of the payload fields and the device token
/// alone.
pub open spec fn spec_envelope(
    title: Seq<char>,
    body: Seq<char>,
    image: Seq<char>,
    click_action: Seq<char>,
    token: Seq<char>,
) -> Seq<char> {
    "{\"message\":{\"android\":{\"notification\":{\"body\":"@ + spec_quoted(body)
        + ",\"click_action\":"@ + spec_quoted(click_action) + ",\"image\":"@ + spec_quoted(image)
        + ",\"sound\":\"default\",\"title\":"@ + spec_quoted(title)
        + "}},\"notification\":{\"body\":"@ + spec_quoted(body) + ",\"image\":"@ + spec_quoted(
        image,
    ) + ",\"title\":"@ + spec_quoted(title) + "},\"token\":"@ + spec_quoted(token) + "}}"@
}

/// Law: building the envelope is pure — two builds from the same payload
/// fields and the same device token yield the identical text, and so
/// byte-identical JSON. The premises are exactly what `build_envelope`
/// ensures of each of two calls on equal inputs.
pub proof fn lemma_envelope_deterministic(
    title: Seq<char>,
    body: Seq<char>,
    image: Seq<char>,
    click_action: Seq<char>,
    token: Seq<char>,
    r1: Seq<char>,
    r2: Seq<char>,
)
    requires
        r1 == spec_envelope(title, body, image, click_action, token),
        r2 == spec_envelope(title, body, image, click_action, token),
    ensures
        r1 == r2,
        encode_utf8(r1) == encode_utf8(r2),
{
}

/// Builds the JSON envelope for `payload` and `device_token`.
///
/// The result is a pure function of the arguments: equal payloads and tokens
/// give the identical text.
pub fn build_envelope(payload: &FcmPayloadData, device_token: &str) -> (r: String)
    ensures
        r@ == spec_envelope(
            payload.title@,
            payload.message@,
            payload.image@,
            payload.click_action@,
            device_token@,
        ),
{
    let mut out = String::new();
    out.append("{\"message\":{\"android\":{\"notification\":{\"body\":");
    append_quoted(&mut out, payload.message.as_str());
    out.append(",\"click_action\":");
    append_quoted(&mut out, payload.click_action.as_str());
    out.append(",\"image\":");
    append_quoted(&mut out, payload.image.as_str());
    out.append(",\"sound\":\"default\",\"title\":");
    append_quoted(&mut out, payload.title.as_str());
    out.append("}},\"notification\":{\"body\":");
    append_quoted(&mut out, payload.message.as_str());
    out.append(",\"image\":");
    append_quoted(&mut out, payload.image.as_str());
    out.append(",\"title\":");
    append_quoted(&mut out, payload.title.as_str());
    out.append("},\"token\":");
    append_quoted(&mut out, device_token);
    out.append("}}");
    proof {
        assert(out@ =~= spec_envelope(
            payload.title@,
            payload.message@,
            payload.image@,
            payload.click_action@,
            device_token@,
        ));
    }
    out
}

} // verus!
