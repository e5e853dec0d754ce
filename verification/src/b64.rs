//! Standard base64 (RFC 4648 alphabet, `=` padding), through the `base64` crate.

use vstd::prelude::*;
use base64::Engine;

verus! {

/// The character for a 6-bit value in the standard alphabet.
pub open spec fn b64_char(i: int) -> char {
    if i < 26 {
        (65 + i) as char
    } else if i < 52 {
        (97 + i - 26) as char
    } else if i < 62 {
        (48 + i - 52) as char
    } else if i == 62 {
        '+'
    } else {
        '/'
    }
}

/// Base64 with padding: each group of three bytes becomes four characters, a
/// final group of one or two bytes is padded with `=`.
pub open spec fn base64_encode(b: Seq<u8>) -> Seq<char>
    decreases b.len(),
{
    if b.len() == 0 {
        Seq::empty()
    } else if b.len() == 1 {
        seq![b64_char(b[0] as int / 4), b64_char((b[0] % 4) * 16), '=', '=']
    } else if b.len() == 2 {
        seq![
            b64_char(b[0] as int / 4),
            b64_char((b[0] % 4) * 16 + b[1] / 16),
            b64_char((b[1] % 16) * 4),
            '=',
        ]
    } else {
        seq![
            b64_char(b[0] as int / 4),
            b64_char((b[0] % 4) * 16 + b[1] / 16),
            b64_char((b[1] % 16) * 4 + b[2] / 64),
            b64_char(b[2] as int % 64),
        ] + base64_encode(b.skip(3))
    }
}

/// `base64::engine::general_purpose::STANDARD.encode`: the padded standard encoding.
#[verifier::external_body]
pub(crate) fn encode_base64(data: &[u8]) -> (r: String)
    ensures
        r@ == base64_encode(data@),
{
    base64::engine::general_purpose::STANDARD.encode(data)
}

/// The text of the error `base64`'s standard engine reports for a string it
/// does not accept (the `Display` of its `DecodeError`, which names the
/// offending byte and offset).
pub uninterp spec fn base64_error_text(s: Seq<char>) -> Seq<char>;

/// `base64::engine::general_purpose::STANDARD.decode`. That engine requires
/// canonical padding and zero trailing bits, so it accepts exactly the strings
/// that the standard encoding produces, and returns the bytes they encode;
/// the error is turned into its text.
#[verifier::external_body]
pub(crate) fn decode_base64(s: &str) -> (r: Result<Vec<u8>, String>)
    ensures
        r matches Ok(b) ==> base64_encode(b@) == s@,
        (exists|b: Seq<u8>| base64_encode(b) == s@) ==> r is Ok,
        r matches Err(e) ==> e@ == base64_error_text(s@),
{
    match base64::engine::general_purpose::STANDARD.decode(s) {
        Ok(b) => Ok(b),
        Err(e) => Err(e.to_string()),
    }
}

proof fn lemma_b64_char(i: int, j: int)
    requires
        0 <= i < 64,
        0 <= j < 64,
    ensures
        b64_char(i) != '=',
        b64_char(i) == b64_char(j) ==> i == j,
{
    let ci = b64_char(i);
    let cj = b64_char(j);
    assert(ci as int != 61);
    if ci == cj {
        assert(ci as int == cj as int);
    }
}

proof fn lemma_encode_len(b: Seq<u8>)
    ensures
        base64_encode(b).len() == 4 * ((b.len() + 2) / 3),
    decreases b.len(),
{
    if b.len() >= 3 {
        lemma_encode_len(b.skip(3));
    }
}

proof fn lemma_encode_injective(a: Seq<u8>, b: Seq<u8>)
    requires
        base64_encode(a) == base64_encode(b),
    ensures
        a == b,
    decreases a.len(),
{
    let ea = base64_encode(a);
    lemma_encode_len(a);
    lemma_encode_len(b);
    if a.len() == 0 {
        assert(b.len() == 0);
        assert(a =~= b);
        return;
    }
    assert(b.len() > 0);
    // the first group of four characters
    lemma_b64_char(a[0] as int / 4, b[0] as int / 4);
    if b.len() >= 2 {
        lemma_b64_char((a[0] % 4) as int * 16, b[0] as int % 4 * 16 + b[1] as int / 16);
    }
    if a.len() >= 2 {
        lemma_b64_char((b[0] % 4) as int * 16, a[0] as int % 4 * 16 + a[1] as int / 16);
    }
    if a.len() >= 2 && b.len() >= 2 {
        lemma_b64_char(a[0] as int % 4 * 16 + a[1] as int / 16, b[0] as int % 4 * 16 + b[1] as int / 16);
        lemma_b64_char((a[1] % 16) as int * 4, (b[1] % 16) as int * 4);
    }
    if a.len() >= 3 {
        lemma_b64_char((a[1] % 16) as int * 4 + a[2] as int / 64, 0);
        lemma_b64_char(a[2] as int % 64, 0);
    }
    if b.len() >= 3 {
        lemma_b64_char((b[1] % 16) as int * 4 + b[2] as int / 64, 0);
        lemma_b64_char(b[2] as int % 64, 0);
    }
    if a.len() >= 3 && b.len() >= 3 {
        lemma_b64_char((a[1] % 16) as int * 4 + a[2] as int / 64, (b[1] % 16) as int * 4 + b[2] as int / 64);
        lemma_b64_char(a[2] as int % 64, b[2] as int % 64);
    }
    if a.len() >= 2 && b.len() >= 3 {
        lemma_b64_char((a[1] % 16) as int * 4, (b[1] % 16) as int * 4 + b[2] as int / 64);
    }
    if b.len() >= 2 && a.len() >= 3 {
        lemma_b64_char((b[1] % 16) as int * 4, (a[1] % 16) as int * 4 + a[2] as int / 64);
    }
    if a.len() == 1 {
        assert(ea[2] == '=');
        assert(b.len() == 1);
        assert(a[0] == b[0]);
        assert(a =~= b);
    } else if a.len() == 2 {
        assert(ea[3] == '=');
        assert(ea[2] != '=');
        assert(b.len() == 2);
        assert(a[0] == b[0]);
        assert(a[1] == b[1]);
        assert(a =~= b);
    } else {
        assert(ea[3] != '=');
        assert(ea[2] != '=');
        assert(b.len() >= 3);
        let x0 = a[0] as int;
        let x1 = a[1] as int;
        let x2 = a[2] as int;
        let y0 = b[0] as int;
        let y1 = b[1] as int;
        let y2 = b[2] as int;
        assert(ea[0] == b64_char(x0 / 4) && ea[0] == b64_char(y0 / 4));
        assert(ea[1] == b64_char(x0 % 4 * 16 + x1 / 16) && ea[1] == b64_char(y0 % 4 * 16 + y1 / 16));
        assert(ea[2] == b64_char(x1 % 16 * 4 + x2 / 64) && ea[2] == b64_char(y1 % 16 * 4 + y2 / 64));
        assert(ea[3] == b64_char(x2 % 64) && ea[3] == b64_char(y2 % 64));
        assert(x0 / 4 == y0 / 4);
        assert(x0 % 4 * 16 + x1 / 16 == y0 % 4 * 16 + y1 / 16);
        assert(x1 % 16 * 4 + x2 / 64 == y1 % 16 * 4 + y2 / 64);
        assert(x2 % 64 == y2 % 64);
        assert(x0 == y0 && x1 == y1 && x2 == y2) by (nonlinear_arith)
            requires
                0 <= x0 < 256,
                0 <= x1 < 256,
                0 <= x2 < 256,
                0 <= y0 < 256,
                0 <= y1 < 256,
                0 <= y2 < 256,
                x0 / 4 == y0 / 4,
                x0 % 4 * 16 + x1 / 16 == y0 % 4 * 16 + y1 / 16,
                x1 % 16 * 4 + x2 / 64 == y1 % 16 * 4 + y2 / 64,
                x2 % 64 == y2 % 64,
        ;
        assert(a[0] == b[0]);
        assert(a[1] == b[1]);
        assert(a[2] == b[2]);
        assert(base64_encode(a.skip(3)) =~= ea.skip(4));
        assert(base64_encode(b.skip(3)) =~= ea.skip(4));
        lemma_encode_injective(a.skip(3), b.skip(3));
        assert(a =~= b.take(3) + b.skip(3));
        assert(b =~= b.take(3) + b.skip(3));
    }
}

/// Standard base64 names its bytes uniquely: the bytes a string decodes to
/// are the only ones that encode to it.
pub proof fn lemma_base64_injective(s: Seq<char>, b: Seq<u8>)
    requires
        base64_encode(b) == s,
    ensures
        forall|c: Seq<u8>| base64_encode(c) == s ==> c == b,
{
    assert forall|c: Seq<u8>| base64_encode(c) == s implies c == b by {
        lemma_encode_injective(b, c);
    }
}

} // verus!
