//! Percent-encoding of URL components and its inverse.
//!
//! Encoding keeps the RFC 3986 unreserved bytes (`A-Z a-z 0-9 - _ . ~`) and writes
//! every other byte of the UTF-8 form as `%XX` with upper-case hex digits.
//! Decoding turns every `%` followed by two hex digits (either case) back into
//! the byte and copies everything else unchanged; the bytes must then form valid
//! UTF-8.

use vstd::prelude::*;
use vstd::string::*;
use vstd::utf8::*;
use crate::text::push_char;

verus! {

/// The bytes that encoding leaves as they are.
pub open spec fn is_unreserved(b: u8) -> bool {
    ||| 0x41 <= b <= 0x5A
    ||| 0x61 <= b <= 0x7A
    ||| 0x30 <= b <= 0x39
    ||| b == 0x2D
    ||| b == 0x5F
    ||| b == 0x2E
    ||| b == 0x7E
}

/// Upper-case hex digit (as an ASCII byte) for a value below 16.
pub open spec fn hex_upper_byte(n: u8) -> u8 {
    if n < 10 {
        (48 + n) as u8
    } else {
        (55 + n) as u8
    }
}

/// What one input byte becomes.
pub open spec fn encode_piece(b: u8) -> Seq<u8> {
    if is_unreserved(b) {
        seq![b]
    } else {
        seq![0x25u8, hex_upper_byte(b / 16), hex_upper_byte(b % 16)]
    }
}

/// The encoded form, as ASCII bytes.
pub open spec fn percent_encode_bytes(bytes: Seq<u8>) -> Seq<u8>
    decreases bytes.len(),
{
    if bytes.len() == 0 {
        Seq::empty()
    } else {
        percent_encode_bytes(bytes.drop_last()) + encode_piece(bytes.last())
    }
}

/// ASCII bytes read as characters.
pub open spec fn ascii_chars(bytes: Seq<u8>) -> Seq<char> {
    bytes.map_values(|b: u8| b as char)
}

/// The value of a hex digit byte (either case).
pub open spec fn hex_value(b: u8) -> Option<u8> {
    if 0x30 <= b <= 0x39 {
        Some((b - 0x30) as u8)
    } else if 0x41 <= b <= 0x46 {
        Some((b - 0x37) as u8)
    } else if 0x61 <= b <= 0x66 {
        Some((b - 0x57) as u8)
    } else {
        None
    }
}

/// Percent-decoding of a byte sequence.
pub open spec fn percent_decode_bytes(bytes: Seq<u8>) -> Seq<u8>
    decreases bytes.len(),
{
    if bytes.len() == 0 {
        Seq::empty()
    } else if bytes[0] == 0x25 && bytes.len() >= 3 && hex_value(bytes[1]) is Some && hex_value(
        bytes[2],
    ) is Some {
        seq![(hex_value(bytes[1])->0 * 16 + hex_value(bytes[2])->0) as u8]
            + percent_decode_bytes(bytes.skip(3))
    } else {
        seq![bytes[0]] + percent_decode_bytes(bytes.skip(1))
    }
}

fn hex_upper(n: u8) -> (r: u8)
    requires
        n < 16,
    ensures
        r == hex_upper_byte(n),
{
    if n < 10 {
        48 + n
    } else {
        55 + n
    }
}

fn hex_val(b: u8) -> (r: Option<u8>)
    ensures
        r == hex_value(b),
{
    if 0x30 <= b && b <= 0x39 {
        Some(b - 0x30)
    } else if 0x41 <= b && b <= 0x46 {
        Some(b - 0x37)
    } else if 0x61 <= b && b <= 0x66 {
        Some(b - 0x57)
    } else {
        None
    }
}

fn is_unreserved_byte(b: u8) -> (r: bool)
    ensures
        r == is_unreserved(b),
{
    (0x41 <= b && b <= 0x5A) || (0x61 <= b && b <= 0x7A) || (0x30 <= b && b <= 0x39) || b == 0x2D
        || b == 0x5F || b == 0x2E || b == 0x7E
}

/// Percent-encodes `s`: unreserved characters stay, every other byte of the
/// UTF-8 form becomes `%XX`.
pub fn encode(s: &str) -> (r: String)
    ensures
        r@ == ascii_chars(percent_encode_bytes(s.spec_bytes())),
        r@ == encoded(s@),
{
    let bytes = s.as_bytes();
    let n = bytes.len();
    let mut out = String::new();
    let mut i: usize = 0;
    while i < n
        invariant
            n == bytes@.len(),
            bytes@ == s.spec_bytes(),
            i <= n,
            out@ == ascii_chars(percent_encode_bytes(bytes@.take(i as int))),
        decreases n - i,
    {
        let b = bytes[i];
        proof {
            assert(bytes@.take(i + 1).drop_last() =~= bytes@.take(i as int));
            assert(bytes@.take(i + 1).last() == b);
        }
        if is_unreserved_byte(b) {
            push_char(&mut out, b as char);
        } else {
            push_char(&mut out, '%');
            push_char(&mut out, hex_upper(b / 16) as char);
            push_char(&mut out, hex_upper(b % 16) as char);
        }
        proof {
            let prev = percent_encode_bytes(bytes@.take(i as int));
            let next = percent_encode_bytes(bytes@.take(i + 1));
            assert(next == prev + encode_piece(b));
            assert(ascii_chars(next) =~= ascii_chars(prev) + ascii_chars(encode_piece(b)));
            if !is_unreserved(b) {
                assert(ascii_chars(encode_piece(b)) =~= seq![
                    0x25u8 as char,
                    hex_upper_byte(b / 16) as char,
                    hex_upper_byte(b % 16) as char,
                ]);
                assert(0x25u8 as char == '%');
            } else {
                assert(ascii_chars(encode_piece(b)) =~= seq![b as char]);
            }
        }
        i = i + 1;
    }
    proof {
        assert(bytes@.take(n as int) =~= bytes@);
    }
    out
}

/// The text of the error `String::from_utf8` reports for bytes that are not
/// UTF-8 (the `Display` of its `FromUtf8Error`: where the valid prefix ends
/// and how long the bad sequence is).
pub uninterp spec fn utf8_error_text(v: Seq<u8>) -> Seq<char>;

/// std's `String::from_utf8`: a `String` when the bytes are valid UTF-8,
/// else the error's text.
#[verifier::external_body]
pub(crate) fn string_from_utf8(v: Vec<u8>) -> (r: Result<String, String>)
    ensures
        r is Ok <==> valid_utf8(v@),
        r matches Ok(s) ==> s@ == decode_utf8(v@),
        r matches Err(e) ==> e@ == utf8_error_text(v@),
{
    match String::from_utf8(v) {
        Ok(s) => Ok(s),
        Err(e) => Err(e.to_string()),
    }
}

/// Percent-decoding of a byte string, without the UTF-8 step.
pub fn decode_bytes(data: &[u8]) -> (r: Vec<u8>)
    ensures
        r@ == percent_decode_bytes(data@),
{
    let n = data.len();
    let mut out: Vec<u8> = Vec::new();
    let mut i: usize = 0;
    proof {
        assert(data@.skip(0) =~= data@);
    }
    while i < n
        invariant
            n == data@.len(),
            i <= n,
            percent_decode_bytes(data@) == out@ + percent_decode_bytes(data@.skip(i as int)),
        decreases n - i,
    {
        let rest = Ghost(data@.skip(i as int));
        let b = data[i];
        if b == 0x25 && n - i > 2 {
            let h1 = hex_val(data[i + 1]);
            let h2 = hex_val(data[i + 2]);
            if h1.is_some() && h2.is_some() {
                let v = h1.unwrap() * 16 + h2.unwrap();
                out.push(v);
                proof {
                    assert(rest@.skip(3) =~= data@.skip(i + 3));
                    assert(rest@[1] == data@[i + 1]);
                    assert(rest@[2] == data@[i + 2]);
                }
                i = i + 3;
                continue;
            }
        }
        out.push(b);
        proof {
            assert(rest@.skip(1) =~= data@.skip(i + 1));
            assert(rest@[0] == b);
        }
        i = i + 1;
    }
    proof {
        assert(data@.skip(n as int) =~= Seq::<u8>::empty());
        assert(out@ + Seq::<u8>::empty() =~= out@);
    }
    out
}

/// Percent-decodes `s`; `None` when the decoded bytes are not valid UTF-8.
pub fn decode(s: &str) -> (r: Option<String>)
    ensures
        r is Some <==> valid_utf8(percent_decode_bytes(s.spec_bytes())),
        r matches Some(t) ==> t@ == decode_utf8(percent_decode_bytes(s.spec_bytes())),
{
    match string_from_utf8(decode_bytes(s.as_bytes())) {
        Ok(t) => Some(t),
        Err(_) => None,
    }
}

proof fn lemma_encode_front(b: Seq<u8>)
    requires
        b.len() > 0,
    ensures
        percent_encode_bytes(b) == encode_piece(b[0]) + percent_encode_bytes(b.drop_first()),
    decreases b.len(),
{
    if b.len() == 1 {
        assert(b.drop_last() =~= Seq::<u8>::empty());
        assert(b.drop_first() =~= Seq::<u8>::empty());
        assert(percent_encode_bytes(b) =~= encode_piece(b[0]) + percent_encode_bytes(
            b.drop_first(),
        ));
    } else {
        lemma_encode_front(b.drop_last());
        assert(b.drop_last().drop_first() =~= b.drop_first().drop_last());
        assert(b.drop_first().last() == b.last());
        assert(b.drop_last()[0] == b[0]);
        assert(percent_encode_bytes(b) =~= encode_piece(b[0]) + percent_encode_bytes(
            b.drop_first(),
        ));
    }
}

proof fn lemma_hex_roundtrip(n: u8)
    requires
        n < 16,
    ensures
        hex_value(hex_upper_byte(n)) == Some(n),
        hex_upper_byte(n) < 128,
{
}

proof fn lemma_decode_piece(x: u8, rest: Seq<u8>)
    ensures
        percent_decode_bytes(encode_piece(x) + rest) == seq![x] + percent_decode_bytes(rest),
{
    let s = encode_piece(x) + rest;
    if is_unreserved(x) {
        assert(s[0] == x);
        assert(s.skip(1) =~= rest);
    } else {
        lemma_hex_roundtrip(x / 16);
        lemma_hex_roundtrip(x % 16);
        assert(s[0] == 0x25);
        assert(s[1] == hex_upper_byte(x / 16));
        assert(s[2] == hex_upper_byte(x % 16));
        assert(s.skip(3) =~= rest);
        assert((x / 16) * 16 + x % 16 == x);
    }
}

proof fn lemma_decode_encode_bytes(b: Seq<u8>)
    ensures
        percent_decode_bytes(percent_encode_bytes(b)) == b,
    decreases b.len(),
{
    if b.len() > 0 {
        lemma_encode_front(b);
        lemma_decode_piece(b[0], percent_encode_bytes(b.drop_first()));
        lemma_decode_encode_bytes(b.drop_first());
        assert(seq![b[0]] + b.drop_first() =~= b);
    }
}

proof fn lemma_encode_ascii(b: Seq<u8>)
    ensures
        forall|i: int| 0 <= i < percent_encode_bytes(b).len() ==> #[trigger] percent_encode_bytes(b)[i] < 128,
    decreases b.len(),
{
    if b.len() > 0 {
        lemma_encode_ascii(b.drop_last());
        let x = b.last();
        if !is_unreserved(x) {
            lemma_hex_roundtrip(x / 16);
            lemma_hex_roundtrip(x % 16);
        }
        let prev = percent_encode_bytes(b.drop_last());
        assert forall|i: int| 0 <= i < percent_encode_bytes(b).len() implies #[trigger] percent_encode_bytes(b)[i] < 128 by {
            if i >= prev.len() {
                assert(percent_encode_bytes(b)[i] == encode_piece(x)[i - prev.len()]);
            } else {
                assert(percent_encode_bytes(b)[i] == prev[i]);
            }
        }
    }
}

proof fn lemma_ascii_bytes_roundtrip(e: Seq<u8>)
    requires
        forall|i: int| 0 <= i < e.len() ==> #[trigger] e[i] < 128,
    ensures
        encode_utf8(ascii_chars(e)) == e,
{
    let t = ascii_chars(e);
    assert forall|i: int| 0 <= i < t.len() implies '\0' <= #[trigger] t[i] <= '\u{7f}' by {
        assert(t[i] == e[i] as char);
    }
    is_ascii_chars_encode_utf8(t);
    assert forall|i: int| 0 <= i < e.len() implies #[trigger] encode_utf8(t)[i] == e[i] by {
        assert(t[i] == e[i] as char);
        assert(encode_utf8(t)[i] == t[i] as u8);
    }
    assert(encode_utf8(t) =~= e);
}

/// Decoding what [`encode`] produced always succeeds and gives back the
/// original string.
pub proof fn lemma_decode_encode(s: Seq<char>)
    ensures
        valid_utf8(
            percent_decode_bytes(encode_utf8(ascii_chars(percent_encode_bytes(encode_utf8(s))))),
        ),
        decode_utf8(
            percent_decode_bytes(encode_utf8(ascii_chars(percent_encode_bytes(encode_utf8(s))))),
        ) == s,
{
    let e = percent_encode_bytes(encode_utf8(s));
    lemma_encode_ascii(encode_utf8(s));
    lemma_ascii_bytes_roundtrip(e);
    lemma_decode_encode_bytes(encode_utf8(s));
    encode_utf8_valid_utf8(s);
    encode_utf8_decode_utf8(s);
}

proof fn lemma_utf8_concat(a: Seq<char>, b: Seq<char>)
    ensures
        encode_utf8(a + b) == encode_utf8(a) + encode_utf8(b),
    decreases a.len(),
{
    if a.len() == 0 {
        assert(a + b =~= b);
        assert(encode_utf8(a) + encode_utf8(b) =~= encode_utf8(b));
    } else {
        lemma_utf8_concat(a.drop_first(), b);
        assert((a + b).drop_first() =~= a.drop_first() + b);
        assert((a + b)[0] == a[0]);
        assert(encode_utf8(a + b) =~= encode_scalar(a[0] as u32) + (encode_utf8(a.drop_first()) + encode_utf8(b)));
    }
}

proof fn lemma_percent_concat(x: Seq<u8>, y: Seq<u8>)
    ensures
        percent_encode_bytes(x + y) == percent_encode_bytes(x) + percent_encode_bytes(y),
    decreases y.len(),
{
    if y.len() == 0 {
        assert(x + y =~= x);
        assert(percent_encode_bytes(x) + percent_encode_bytes(y) =~= percent_encode_bytes(x));
    } else {
        lemma_percent_concat(x, y.drop_last());
        assert((x + y).drop_last() =~= x + y.drop_last());
        assert((x + y).last() == y.last());
        assert(percent_encode_bytes(x + y) =~= percent_encode_bytes(x) + (percent_encode_bytes(y.drop_last())
            + encode_piece(y.last())));
    }
}

/// What [`encode`] gives for a string with these characters.
pub open spec fn encoded(s: Seq<char>) -> Seq<char> {
    ascii_chars(percent_encode_bytes(encode_utf8(s)))
}

/// Encoding works character by character, carrying nothing from one to the
/// next: the encoding of a concatenation is the concatenation of the
/// encodings, and the empty string encodes to the empty string.
pub proof fn lemma_encode_concat(a: Seq<char>, b: Seq<char>)
    ensures
        encoded(a + b) == encoded(a) + encoded(b),
        encoded(Seq::empty()) == Seq::<char>::empty(),
{
    lemma_utf8_concat(a, b);
    lemma_percent_concat(encode_utf8(a), encode_utf8(b));
    assert(encoded(a + b) =~= encoded(a) + encoded(b));
    assert(encoded(Seq::empty()) =~= Seq::<char>::empty());
}

} // verus!
