//! Percent-encoding of hrefs.
//!
//! Every href handed to or returned by the library is in its unescaped
//! form; the escaped form appears only inside request URIs and XML bodies.
//! The escaping set is every byte that is not an ASCII letter, digit,
//! `/` or `.`.
use vstd::prelude::*;
use vstd::utf8::{decode_utf8, encode_utf8, encode_utf8_decode_utf8, valid_utf8};
use crate::text::string_from_utf8;
use vstd::string::StrSliceExecFns;

verus! {

/// Whether a byte stands for itself inside an escaped href.
pub open spec fn is_href_safe(b: u8) -> bool {
    (48u8 <= b && b <= 57u8) || (97u8 <= b && b <= 122u8) || (65u8 <= b && b <= 90u8) || b == 47u8
        || b == 46u8
}

/// The ASCII uppercase hexadecimal digit for a value below sixteen.
pub open spec fn spec_hex_digit(n: u8) -> u8 {
    if n < 10 {
        (48u8 + n) as u8
    } else {
        (65u8 + (n - 10)) as u8
    }
}

/// The escaped form of one byte: safe bytes stand for themselves, every
/// other byte becomes a percent sign and two hexadecimal digits.
pub open spec fn quote_byte(b: u8) -> Seq<u8> {
    if is_href_safe(b) {
        seq![b]
    } else {
        seq![37u8, spec_hex_digit(b / 16), spec_hex_digit(b % 16)]
    }
}

/// The escaped form of a whole byte string.
pub open spec fn quote_bytes_seq(s: Seq<u8>) -> Seq<u8>
    decreases s.len(),
{
    if s.len() == 0 {
        Seq::empty()
    } else {
        quote_byte(s[0]) + quote_bytes_seq(s.drop_first())
    }
}

/// Whether a byte is an ASCII hexadecimal digit.
pub open spec fn is_hex(b: u8) -> bool {
    (48u8 <= b && b <= 57u8) || (97u8 <= b && b <= 102u8) || (65u8 <= b && b <= 70u8)
}

/// The value of an ASCII hexadecimal digit.
pub open spec fn hex_value(b: u8) -> u8 {
    if 48u8 <= b && b <= 57u8 {
        (b - 48u8) as u8
    } else if 97u8 <= b && b <= 102u8 {
        (b - 97u8 + 10) as u8
    } else {
        (b - 65u8 + 10) as u8
    }
}

/// The unescaped form of a byte string: a percent sign followed by two
/// hexadecimal digits stands for one byte; anything else, a stray percent
/// sign included, stands for itself.
pub open spec fn unquote_bytes_seq(s: Seq<u8>) -> Seq<u8>
    decreases s.len(),
{
    if s.len() == 0 {
        Seq::empty()
    } else if s[0] == 37u8 && s.len() >= 3 && is_hex(s[1]) && is_hex(s[2]) {
        seq![(16 * hex_value(s[1]) + hex_value(s[2])) as u8] + unquote_bytes_seq(s.skip(3))
    } else {
        seq![s[0]] + unquote_bytes_seq(s.drop_first())
    }
}

/// Escapes a byte string for use inside a URI or an XML body.
pub fn quote_bytes(s: &Vec<u8>) -> (r: Vec<u8>)
    ensures
        r@ == quote_bytes_seq(s@),
{
    let mut out: Vec<u8> = Vec::new();
    let mut i: usize = 0;
    proof {
        assert(s@.skip(0) =~= s@);
    }
    while i < s.len()
        invariant
            i <= s.len(),
            quote_bytes_seq(s@) == out@ + quote_bytes_seq(s@.skip(i as int)),
        decreases s.len() - i,
    {
        proof {
            assert(s@.skip(i as int)[0] == s@[i as int]);
            assert(s@.skip(i as int).drop_first() =~= s@.skip(i + 1));
        }
        let b = s[i];
        if (48u8 <= b && b <= 57u8) || (97u8 <= b && b <= 122u8) || (65u8 <= b && b <= 90u8) || b
            == 47u8 || b == 46u8 {
            out.push(b);
        } else {
            out.push(37u8);
            out.push(hex_digit(b / 16));
            out.push(hex_digit(b % 16));
        }
        i = i + 1;
    }
    proof {
        assert(s@.skip(s@.len() as int).len() == 0);
        assert(out@ =~= quote_bytes_seq(s@));
    }
    out
}

/// The ASCII uppercase hexadecimal digit for a value below sixteen.
pub fn hex_digit(n: u8) -> (r: u8)
    requires
        n < 16,
    ensures
        r == spec_hex_digit(n),
{
    if n < 10 {
        48u8 + n
    } else {
        65u8 + (n - 10)
    }
}

/// Unescapes a byte string taken out of a URI or an XML body.
pub fn unquote_bytes(s: &Vec<u8>) -> (r: Vec<u8>)
    ensures
        r@ == unquote_bytes_seq(s@),
{
    let mut out: Vec<u8> = Vec::new();
    let mut i: usize = 0;
    proof {
        assert(s@.skip(0) =~= s@);
    }
    while i < s.len()
        invariant
            i <= s.len(),
            unquote_bytes_seq(s@) == out@ + unquote_bytes_seq(s@.skip(i as int)),
        decreases s.len() - i,
    {
        proof {
            assert(s@.skip(i as int)[0] == s@[i as int]);
        }
        if s[i] == 37u8 && s.len() - i >= 3 && hex_byte_value(s[i + 1]).is_some() && hex_byte_value(
            s[i + 2],
        ).is_some() {
            proof {
                assert(s@.skip(i as int)[1] == s@[i + 1]);
                assert(s@.skip(i as int)[2] == s@[i + 2]);
                assert(s@.skip(i as int).skip(3) =~= s@.skip(i + 3));
            }
            let hi = hex_byte_value(s[i + 1]).unwrap();
            let lo = hex_byte_value(s[i + 2]).unwrap();
            out.push(16 * hi + lo);
            i = i + 3;
        } else {
            proof {
                assert(s@.skip(i as int).drop_first() =~= s@.skip(i + 1));
            }
            out.push(s[i]);
            i = i + 1;
        }
    }
    proof {
        assert(s@.skip(s@.len() as int).len() == 0);
        assert(out@ =~= unquote_bytes_seq(s@));
    }
    out
}

/// The value of an ASCII hexadecimal digit, or nothing for any other byte.
pub fn hex_byte_value(b: u8) -> (r: Option<u8>)
    ensures
        r is Some <==> is_hex(b),
        r matches Some(v) ==> v == hex_value(b) && v < 16,
{
    if 48u8 <= b && b <= 57u8 {
        Some(b - 48u8)
    } else if 97u8 <= b && b <= 102u8 {
        Some(b - 97u8 + 10)
    } else if 65u8 <= b && b <= 70u8 {
        Some(b - 65u8 + 10)
    } else {
        None
    }
}

/// The characters of an ASCII byte string.
pub open spec fn ascii_chars_of(s: Seq<u8>) -> Seq<char> {
    s.map(|_i: int, b: u8| b as char)
}

/// Whether every byte of a string is ASCII.
pub open spec fn all_ascii(s: Seq<u8>) -> bool {
    forall|i: int| 0 <= i < s.len() ==> s[i] < 128
}

/// The escaped form of an href, character by character.
pub open spec fn spec_quote(s: Seq<char>) -> Seq<char> {
    ascii_chars_of(quote_bytes_seq(encode_utf8(s)))
}

/// The unescaped form of an href: the percent-decoded bytes, read back as
/// UTF-8; nothing when the decoded bytes are not well-formed UTF-8.
pub open spec fn spec_unquote(s: Seq<char>) -> Option<Seq<char>> {
    if valid_utf8(unquote_bytes_seq(encode_utf8(s))) {
        Some(decode_utf8(unquote_bytes_seq(encode_utf8(s))))
    } else {
        None
    }
}

/// Every byte of an escaped href is ASCII.
pub proof fn lemma_quote_bytes_ascii(s: Seq<u8>)
    ensures
        all_ascii(quote_bytes_seq(s)),
    decreases s.len(),
{
    if s.len() > 0 {
        lemma_quote_bytes_ascii(s.drop_first());
    }
}

/// An ASCII byte string is well-formed UTF-8 and decodes to its own
/// characters.
pub proof fn lemma_ascii_utf8(s: Seq<u8>)
    requires
        all_ascii(s),
    ensures
        valid_utf8(s),
        decode_utf8(s) == ascii_chars_of(s),
        encode_utf8(ascii_chars_of(s)) == s,
{
    let c = ascii_chars_of(s);
    assert(vstd::utf8::is_ascii_chars(c)) by {
        assert forall|i: int| 0 <= i < c.len() implies (c[i] as nat) < 128 by {
            assert(s[i] < 128);
        }
    }
    vstd::utf8::is_ascii_chars_encode_utf8(c);
    assert(encode_utf8(c) =~= s) by {
        assert forall|i: int| 0 <= i < s.len() implies encode_utf8(c)[i] == s[i] by {
            assert(c[i] == s[i] as char);
        }
    }
    vstd::utf8::encode_utf8_valid_utf8(c);
    encode_utf8_decode_utf8(c);
}

/// Unescaping undoes escaping, byte for byte.
pub proof fn lemma_unquote_quote_bytes(s: Seq<u8>)
    ensures
        unquote_bytes_seq(quote_bytes_seq(s)) == s,
    decreases s.len(),
{
    if s.len() == 0 {
        assert(unquote_bytes_seq(quote_bytes_seq(s)) =~= s);
    } else {
        let b = s[0];
        let rest = quote_bytes_seq(s.drop_first());
        lemma_unquote_quote_bytes(s.drop_first());
        if is_href_safe(b) {
            let q = seq![b] + rest;
            assert(quote_bytes_seq(s) == q);
            assert(q[0] == b && b != 37u8);
            assert(q.drop_first() =~= rest);
            assert(unquote_bytes_seq(q) =~= seq![b] + unquote_bytes_seq(rest));
            assert(unquote_bytes_seq(quote_bytes_seq(s)) =~= s);
        } else {
            let h1 = spec_hex_digit(b / 16);
            let h2 = spec_hex_digit(b % 16);
            let q = seq![37u8, h1, h2] + rest;
            assert(quote_bytes_seq(s) == q);
            assert(q[0] == 37u8 && q[1] == h1 && q[2] == h2);
            assert(is_hex(h1) && is_hex(h2));
            assert(hex_value(h1) == b / 16 && hex_value(h2) == b % 16);
            assert(16 * (b / 16) + (b % 16) == b) by {
                vstd::arithmetic::div_mod::lemma_fundamental_div_mod(b as int, 16);
            }
            assert(q.skip(3) =~= rest);
            assert(unquote_bytes_seq(q) =~= seq![b] + unquote_bytes_seq(rest));
            assert(unquote_bytes_seq(quote_bytes_seq(s)) =~= s);
        }
    }
}

/// Unescaping undoes escaping: any href passes unchanged through a quote
/// followed by an unquote.
pub proof fn lemma_unquote_quote(h: Seq<char>)
    ensures
        spec_unquote(spec_quote(h)) == Some(h),
{
    let bytes = encode_utf8(h);
    let q = quote_bytes_seq(bytes);
    lemma_quote_bytes_ascii(bytes);
    lemma_ascii_utf8(q);
    assert(encode_utf8(spec_quote(h)) == q);
    lemma_unquote_quote_bytes(bytes);
    vstd::utf8::encode_utf8_valid_utf8(h);
    encode_utf8_decode_utf8(h);
}

/// Percent-escapes an href for embedding into a request URI or an XML body.
///
/// The input must not already be escaped.
pub fn quote_href(href: &str) -> (r: String)
    ensures
        r@ == spec_quote(href@),
{
    let bytes = href.as_bytes_vec();
    let quoted = quote_bytes(&bytes);
    proof {
        lemma_quote_bytes_ascii(bytes@);
        lemma_ascii_utf8(quoted@);
    }
    let r = string_from_utf8(quoted);
    r.unwrap()
}

/// Percent-decodes an href taken out of a server response.
///
/// Returns nothing when the decoded bytes are not well-formed UTF-8; such
/// an href is surfaced as a response-parsing error, never altered silently.
pub fn unquote_href(href: &str) -> (r: Option<String>)
    ensures
        r is Some <==> spec_unquote(href@) is Some,
        r matches Some(t) ==> Some(t@) == spec_unquote(href@),
{
    let bytes = href.as_bytes_vec();
    let plain = unquote_bytes(&bytes);
    string_from_utf8(plain)
}

} // verus!
