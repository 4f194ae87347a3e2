//! What the CalDAV and CardDAV clients share: the capability check on
//! the DAV response header.
use vstd::prelude::*;
use vstd::string::StringExecFns;
use crate::dav::{headers_of, spec_header_value, spec_is_success};
use crate::text::chars_of;

verus! {

/// Why a capability check failed.
#[derive(Debug)]
pub enum CheckSupportError {
    /// The answer carried no DAV header at all.
    MissingHeader,
    /// The DAV header does not list the required capability.
    NotAdvertised,
    /// The transport failed; the payload describes the failure.
    Request(String),
    /// The server answered with a non-success status.
    BadStatusCode(u16),
}

/// The PROPFIND body with which collections are searched for under a
/// home set: resource type, etag and supported report set.
pub open spec fn spec_home_search_propfind_body() -> Seq<char> {
    "<propfind xmlns=\"DAV:\"><prop>"@ + crate::xml::spec_render_xml("DAV:"@, "resourcetype"@)
        + crate::xml::spec_render_xml("DAV:"@, "getetag"@) + crate::xml::spec_render_xml(
        "DAV:"@,
        "supported-report-set"@,
    ) + "</prop></propfind>"@
}

/// Whether a character counts as blank when a header token is trimmed.
pub open spec fn is_blank(c: char) -> bool {
    c == ' ' || c == '\t'
}

/// `s` without its leading blanks.
pub open spec fn trim_front(s: Seq<char>) -> Seq<char>
    decreases s.len(),
{
    if s.len() > 0 && is_blank(s[0]) {
        trim_front(s.drop_first())
    } else {
        s
    }
}

/// `s` without its trailing blanks.
pub open spec fn trim_back(s: Seq<char>) -> Seq<char>
    decreases s.len(),
{
    if s.len() > 0 && is_blank(s[s.len() - 1]) {
        trim_back(s.drop_last())
    } else {
        s
    }
}

/// `s` without leading and trailing blanks.
pub open spec fn spec_trim(s: Seq<char>) -> Seq<char> {
    trim_back(trim_front(s))
}

/// The position of the first comma at or after `from`, or the length of
/// `s` when there is none.
pub open spec fn comma_after(s: Seq<char>, from: int) -> int
    decreases s.len() - from,
{
    if from < 0 || from >= s.len() {
        s.len() as int
    } else if s[from] == ',' {
        from
    } else {
        comma_after(s, from + 1)
    }
}

/// Whether the comma-separated list `s` contains a field that equals
/// `token` once trimmed.
pub open spec fn spec_advertises(s: Seq<char>, token: Seq<char>) -> bool
    decreases s.len(),
{
    let j = comma_after(s, 0);
    if j < 0 || j >= s.len() {
        spec_trim(s) == token
    } else {
        spec_trim(s.take(j)) == token || spec_advertises(s.skip(j + 1), token)
    }
}

/// Whether the characters of `v` between `a` and `b` are exactly `t`.
fn chars_eq_range(v: &Vec<char>, a: usize, b: usize, t: &Vec<char>) -> (r: bool)
    requires
        a <= b <= v@.len(),
    ensures
        r == (v@.subrange(a as int, b as int) == t@),
{
    if b - a != t.len() {
        proof {
            assert(v@.subrange(a as int, b as int).len() != t@.len());
        }
        return false;
    }
    let mut i: usize = 0;
    while i < t.len()
        invariant
            a <= b <= v@.len(),
            b - a == t@.len(),
            i <= t@.len(),
            forall|m: int| 0 <= m < i ==> v@.subrange(a as int, b as int)[m] == t@[m],
        decreases t.len() - i,
    {
        if v[a + i] != t[i] {
            proof {
                assert(v@.subrange(a as int, b as int)[i as int] != t@[i as int]);
            }
            return false;
        }
        i = i + 1;
    }
    proof {
        assert(v@.subrange(a as int, b as int) =~= t@);
    }
    true
}

/// The trimmed bounds of the characters of `v` between `a` and `b`: the
/// subrange they delimit is the trim of the one given.
fn trim_bounds(v: &Vec<char>, a: usize, b: usize) -> (r: (usize, usize))
    requires
        a <= b <= v@.len(),
    ensures
        a <= r.0 <= r.1 <= b,
        v@.subrange(r.0 as int, r.1 as int) == spec_trim(v@.subrange(a as int, b as int)),
{
    let ghost seg = v@.subrange(a as int, b as int);
    let mut lo: usize = a;
    while lo < b && (v[lo] == ' ' || v[lo] == '\t')
        invariant
            a <= lo <= b <= v@.len(),
            seg == v@.subrange(a as int, b as int),
            trim_front(seg) == trim_front(v@.subrange(lo as int, b as int)),
        decreases b - lo,
    {
        proof {
            assert(v@.subrange(lo as int, b as int)[0] == v@[lo as int]);
            assert(v@.subrange(lo as int, b as int).drop_first() =~= v@.subrange(
                lo + 1,
                b as int,
            ));
        }
        lo = lo + 1;
    }
    proof {
        if lo < b {
            assert(v@.subrange(lo as int, b as int)[0] == v@[lo as int]);
        }
        assert(trim_front(seg) == v@.subrange(lo as int, b as int));
    }
    let mut hi: usize = b;
    while hi > lo && (v[hi - 1] == ' ' || v[hi - 1] == '\t')
        invariant
            a <= lo <= hi <= b <= v@.len(),
            trim_front(seg) == v@.subrange(lo as int, b as int),
            trim_back(trim_front(seg)) == trim_back(v@.subrange(lo as int, hi as int)),
        decreases hi,
    {
        proof {
            let cur = v@.subrange(lo as int, hi as int);
            assert(cur[cur.len() - 1] == v@[hi - 1]);
            assert(cur.drop_last() =~= v@.subrange(lo as int, hi - 1));
        }
        hi = hi - 1;
    }
    proof {
        let cur = v@.subrange(lo as int, hi as int);
        if hi > lo {
            assert(cur[cur.len() - 1] == v@[hi - 1]);
        }
        assert(trim_back(cur) == cur);
    }
    (lo, hi)
}

/// Decides whether the comma-separated header value `header` lists
/// `token`, compared exactly after trimming blanks.
pub fn dav_header_advertises(header: &str, token: &str) -> (r: bool)
    ensures
        r == spec_advertises(header@, token@),
{
    let s = chars_of(header);
    let t = chars_of(token);
    proof {
        assert(s@.skip(0) =~= s@);
    }
    let mut i: usize = 0;
    loop
        invariant
            s@ == header@,
            t@ == token@,
            0 <= i <= s@.len(),
            spec_advertises(s@, t@) == spec_advertises(s@.skip(i as int), t@),
        decreases s@.len() - i,
    {
        let ghost suffix = s@.skip(i as int);
        let mut j: usize = i;
        while j < s.len() && s[j] != ','
            invariant
                s@ == header@,
                i <= j <= s@.len(),
                suffix == s@.skip(i as int),
                comma_after(suffix, 0) == comma_after(suffix, j - i),
                forall|m: int| i <= m < j ==> s@[m] != ',',
            decreases s.len() - j,
        {
            proof {
                assert(suffix[j - i] == s@[j as int]);
            }
            j = j + 1;
        }
        proof {
            if j < s.len() {
                assert(suffix[j - i] == s@[j as int]);
            }
            assert(comma_after(suffix, 0) == j - i || j == s@.len());
        }
        let (lo, hi) = trim_bounds(&s, i, j);
        proof {
            if j == s.len() {
                assert(suffix.take(suffix.len() as int) =~= suffix);
            }
            assert(suffix.take(j - i) =~= s@.subrange(i as int, j as int));
        }
        if chars_eq_range(&s, lo, hi, &t) {
            return true;
        }
        if j == s.len() {
            return false;
        }
        proof {
            assert(suffix.skip(j - i + 1) =~= s@.skip(j + 1));
        }
        i = j + 1;
    }
}

/// Reads the answer of an OPTIONS capability probe: the DAV header must
/// be present and list `token` exactly (after trimming); a missing
/// header and a missing capability are different failures.
pub fn check_support_response(
    status: u16,
    headers: &Vec<(String, String)>,
    token: &str,
) -> (r: Result<(), CheckSupportError>)
    ensures
        match r {
            Ok(()) => spec_is_success(status) && (match spec_header_value(
                headers_of(headers@),
                "dav"@,
            ) {
                Some(h) => spec_advertises(h, token@),
                None => false,
            }),
            Err(e) => match e {
                CheckSupportError::BadStatusCode(c) => c == status && !spec_is_success(status),
                CheckSupportError::MissingHeader => spec_is_success(status)
                    && spec_header_value(headers_of(headers@), "dav"@) is None,
                CheckSupportError::NotAdvertised => spec_is_success(status) && (match
                    spec_header_value(headers_of(headers@), "dav"@) {
                    Some(h) => !spec_advertises(h, token@),
                    None => false,
                }),
                CheckSupportError::Request(_) => false,
            },
        },
{
    if !(200 <= status && status < 300) {
        return Err(CheckSupportError::BadStatusCode(status));
    }
    match crate::dav::find_header(headers, "dav") {
        None => Err(CheckSupportError::MissingHeader),
        Some(h) => {
            if dav_header_advertises(h.as_str(), token) {
                Ok(())
            } else {
                Err(CheckSupportError::NotAdvertised)
            }
        },
    }
}

} // verus!
