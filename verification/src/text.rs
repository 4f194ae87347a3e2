//! Character-level text helpers.
//!
//! Strings are processed as vectors of characters so that every rule about
//! them is stated over `Seq<char>`. Three small trusted functions convert
//! between `String`, `Vec<char>` and UTF-8 bytes; everything else is proved.
use vstd::prelude::*;

verus! {

/// Relies on `str::chars`: yields the characters of the string in order.
#[verifier::external_body]
pub fn chars_of(s: &str) -> (r: Vec<char>)
    ensures
        r@ == s@,
{
    s.chars().collect()
}

/// Relies on `String`'s `FromIterator<char>`: collects the characters in order.
#[verifier::external_body]
pub fn string_from_chars(v: &Vec<char>) -> (r: String)
    ensures
        r@ == v@,
{
    v.iter().collect()
}

/// Relies on `String::from_utf8`: succeeds exactly on well-formed UTF-8 and
/// decodes it.
#[verifier::external_body]
pub fn string_from_utf8(bytes: Vec<u8>) -> (r: Option<String>)
    ensures
        r is Some <==> vstd::utf8::valid_utf8(bytes@),
        r matches Some(s) ==> s@ == vstd::utf8::decode_utf8(bytes@),
{
    String::from_utf8(bytes).ok()
}

/// Copies the characters of `v` between `from` and `to`.
pub fn copy_range(v: &Vec<char>, from: usize, to: usize) -> (r: Vec<char>)
    requires
        from <= to <= v@.len(),
    ensures
        r@ == v@.subrange(from as int, to as int),
{
    let mut out: Vec<char> = Vec::new();
    let mut i: usize = from;
    while i < to
        invariant
            from <= i <= to <= v@.len(),
            out@ == v@.subrange(from as int, i as int),
        decreases to - i,
    {
        out.push(v[i]);
        proof {
            assert(out@ =~= v@.subrange(from as int, i + 1));
        }
        i = i + 1;
    }
    out
}

/// What one character contributes to the CR-LF restored form of `s`:
/// a line feed not preceded by a carriage return becomes the pair
/// `"\r\n"`; every other character stays as it is.
pub open spec fn crlf_at(s: Seq<char>, i: int) -> Seq<char> {
    if s[i] == '\n' && (i == 0 || s[i - 1] != '\r') {
        seq!['\r', '\n']
    } else {
        seq![s[i]]
    }
}

/// The CR-LF restored form of the first `n` characters of `s`.
pub open spec fn crlf_restore_prefix(s: Seq<char>, n: int) -> Seq<char>
    decreases n,
{
    if n <= 0 {
        Seq::empty()
    } else {
        crlf_restore_prefix(s, n - 1) + crlf_at(s, n - 1)
    }
}

/// The CR-LF restored form of `s`: every bare `'\n'` is rewritten to
/// `"\r\n"`, everything else is passed through unchanged.
pub open spec fn crlf_restore(s: Seq<char>) -> Seq<char> {
    crlf_restore_prefix(s, s.len() as int)
}

/// Rewrites every line feed that is not already preceded by a carriage
/// return into the pair `"\r\n"`.
///
/// XML parsing normalizes line endings to bare line feeds; calendar and
/// contact payloads are CR-LF-terminated, so the normalization is undone
/// before data is handed back.
pub fn crlf_restore_chars(s: &Vec<char>) -> (r: Vec<char>)
    ensures
        r@ == crlf_restore(s@),
{
    let mut out: Vec<char> = Vec::new();
    let mut i: usize = 0;
    while i < s.len()
        invariant
            i <= s.len(),
            out@ == crlf_restore_prefix(s@, i as int),
        decreases s.len() - i,
    {
        if s[i] == '\n' && (i == 0 || s[i - 1] != '\r') {
            out.push('\r');
            out.push('\n');
        } else {
            out.push(s[i]);
        }
        proof {
            assert(out@ =~= crlf_restore_prefix(s@, i + 1));
        }
        i = i + 1;
    }
    out
}

/// The escaped form of one character of text content: `<`, `>` and `&`
/// become entity references, everything else stays as it is.
pub open spec fn escape_at(c: char) -> Seq<char> {
    if c == '<' {
        seq!['&', 'l', 't', ';']
    } else if c == '>' {
        seq!['&', 'g', 't', ';']
    } else if c == '&' {
        seq!['&', 'a', 'm', 'p', ';']
    } else {
        seq![c]
    }
}

/// The escaped form of the first `n` characters of `s`.
pub open spec fn escape_prefix(s: Seq<char>, n: int) -> Seq<char>
    decreases n,
{
    if n <= 0 {
        Seq::empty()
    } else {
        escape_prefix(s, n - 1) + escape_at(s[n - 1])
    }
}

/// The form of `s` safe to embed as XML text content.
pub open spec fn escape_seq(s: Seq<char>) -> Seq<char> {
    escape_prefix(s, s.len() as int)
}

/// Replaces the characters that cannot stand in XML text content:
/// `<` becomes `&lt;`, `>` becomes `&gt;` and `&` becomes `&amp;`.
///
/// This is only suitable for text content, not for attribute values or
/// other XML contexts.
pub fn escape_text(raw: &str) -> (r: String)
    ensures
        r@ == escape_seq(raw@),
{
    let s = chars_of(raw);
    let mut out: Vec<char> = Vec::new();
    let mut i: usize = 0;
    while i < s.len()
        invariant
            s@ == raw@,
            i <= s.len(),
            out@ == escape_prefix(s@, i as int),
        decreases s.len() - i,
    {
        let c = s[i];
        if c == '<' {
            out.push('&');
            out.push('l');
            out.push('t');
            out.push(';');
        } else if c == '>' {
            out.push('&');
            out.push('g');
            out.push('t');
            out.push(';');
        } else if c == '&' {
            out.push('&');
            out.push('a');
            out.push('m');
            out.push('p');
            out.push(';');
        } else {
            out.push(c);
        }
        proof {
            assert(out@ =~= escape_prefix(s@, i + 1));
        }
        i = i + 1;
    }
    string_from_chars(&out)
}

} // verus!
