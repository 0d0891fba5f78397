//! Token extraction from a raw inbound request.
//!
//! The listener deliberately avoids a general HTTP parser: the buffer is
//! decoded as UTF-8 (lossily, never fatally), split on whitespace, and the
//! second whitespace-delimited field (the request target) must start with
//! the literal prefix `/?loginToken=`; the non-empty remainder is the token.
//! Every failure along the way yields "no token", never an error.

use vstd::prelude::*;
use vstd::string::StrSliceExecFns;
use vstd::utf8::{decode_utf8, valid_utf8};

verus! {

/// A character the splitter treats as whitespace (the Unicode
/// `White_Space` set, as `char::is_whitespace` defines it).
pub open spec fn is_ws(c: char) -> bool {
    c == ' ' || c == '\t' || c == '\n' || c == '\r' || c == '\u{b}' || c == '\u{c}'
        || c == '\u{85}' || c == '\u{a0}' || c == '\u{1680}'
        || (0x2000 <= c as u32 && c as u32 <= 0x200a)
        || c == '\u{2028}' || c == '\u{2029}' || c == '\u{202f}' || c == '\u{205f}'
        || c == '\u{3000}'
}

/// Index of the first non-whitespace character at or after `i` (or the length).
pub open spec fn scan_non_ws(s: Seq<char>, i: int) -> int
    decreases s.len() - i,
{
    if i >= s.len() {
        s.len() as int
    } else if is_ws(s[i]) {
        scan_non_ws(s, i + 1)
    } else {
        i
    }
}

/// Index of the first whitespace character at or after `i` (or the length).
pub open spec fn scan_ws(s: Seq<char>, i: int) -> int
    decreases s.len() - i,
{
    if i >= s.len() {
        s.len() as int
    } else if is_ws(s[i]) {
        i
    } else {
        scan_ws(s, i + 1)
    }
}

/// The literal query prefix that carries the one-time login token.
pub open spec fn token_prefix() -> Seq<char> {
    "/?loginToken="@
}

/// Start of the second whitespace-delimited field of `s` (or the length,
/// when there is no second field).
pub open spec fn second_field_start(s: Seq<char>) -> int {
    scan_non_ws(s, scan_ws(s, scan_non_ws(s, 0)))
}

/// What token extraction finds in the decoded request text: the second
/// whitespace-delimited field must start with `/?loginToken=` and have a
/// non-empty remainder; otherwise there is no token.
pub open spec fn extract_spec(s: Seq<char>) -> Option<Seq<char>> {
    let f2 = second_field_start(s);
    let e2 = scan_ws(s, f2);
    if f2 >= s.len() {
        None
    } else {
        let field = s.subrange(f2, e2);
        if field.len() > token_prefix().len() && field.subrange(
            0,
            token_prefix().len() as int,
        ) == token_prefix() {
            Some(field.subrange(token_prefix().len() as int, field.len() as int))
        } else {
            None
        }
    }
}

fn char_is_ws(c: char) -> (b: bool)
    ensures
        b == is_ws(c),
{
    c == ' ' || c == '\t' || c == '\n' || c == '\r' || c == '\u{b}' || c == '\u{c}'
        || c == '\u{85}' || c == '\u{a0}' || c == '\u{1680}'
        || (0x2000 <= c as u32 && c as u32 <= 0x200a)
        || c == '\u{2028}' || c == '\u{2029}' || c == '\u{202f}' || c == '\u{205f}'
        || c == '\u{3000}'
}

/// Bounds of the whitespace scans.
pub proof fn lemma_scan_bounds(s: Seq<char>, i: int)
    requires
        0 <= i <= s.len(),
    ensures
        i <= scan_non_ws(s, i) <= s.len(),
        i <= scan_ws(s, i) <= s.len(),
    decreases s.len() - i,
{
    if i < s.len() {
        lemma_scan_bounds(s, i + 1);
    }
}

/// `scan_ws` stops exactly at the end of a maximal non-whitespace run.
pub proof fn lemma_scan_ws_stops(s: Seq<char>, i: int, j: int)
    requires
        0 <= i <= j <= s.len(),
        forall|k: int| i <= k < j ==> !is_ws(s[k]),
        j == s.len() || is_ws(s[j]),
    ensures
        scan_ws(s, i) == j,
    decreases j - i,
{
    if i < j {
        lemma_scan_ws_stops(s, i + 1, j);
    }
}

/// `scan_non_ws` stops exactly at the end of a maximal whitespace run.
pub proof fn lemma_scan_non_ws_stops(s: Seq<char>, i: int, j: int)
    requires
        0 <= i <= j <= s.len(),
        forall|k: int| i <= k < j ==> is_ws(s[k]),
        j == s.len() || !is_ws(s[j]),
    ensures
        scan_non_ws(s, i) == j,
    decreases j - i,
{
    if i < j {
        lemma_scan_non_ws_stops(s, i + 1, j);
    }
}

fn find_non_ws(s: &str, from: usize) -> (r: usize)
    requires
        from <= s@.len(),
    ensures
        from <= r <= s@.len(),
        r == scan_non_ws(s@, from as int),
{
    let len = s.unicode_len();
    let mut i = from;
    while i < len
        invariant
            from <= i <= len,
            len == s@.len(),
            scan_non_ws(s@, from as int) == scan_non_ws(s@, i as int),
        decreases len - i,
    {
        let c = s.get_char(i);
        if !char_is_ws(c) {
            return i;
        }
        i += 1;
    }
    i
}

fn find_ws(s: &str, from: usize) -> (r: usize)
    requires
        from <= s@.len(),
    ensures
        from <= r <= s@.len(),
        r == scan_ws(s@, from as int),
{
    let len = s.unicode_len();
    let mut i = from;
    while i < len
        invariant
            from <= i <= len,
            len == s@.len(),
            scan_ws(s@, from as int) == scan_ws(s@, i as int),
        decreases len - i,
    {
        let c = s.get_char(i);
        if char_is_ws(c) {
            return i;
        }
        i += 1;
    }
    i
}

/// Extracts the one-time login token from the decoded request text.
///
/// This function never fails: it only may find nothing.
pub fn extract_token_str(s: &str) -> (r: Option<String>)
    ensures
        match r {
            Some(t) => extract_spec(s@) == Some(t@),
            None => extract_spec(s@) is None,
        },
{
    proof {
        reveal_strlit("/?loginToken=");
    }
    let len = s.unicode_len();
    let f1 = find_non_ws(s, 0);
    let e1 = find_ws(s, f1);
    let f2 = find_non_ws(s, e1);
    if f2 >= len {
        return None;
    }
    let e2 = find_ws(s, f2);
    let plen: usize = 13;
    let ghost field = s@.subrange(f2 as int, e2 as int);
    proof {
        assert(token_prefix().len() == 13);
    }
    if e2 - f2 <= plen {
        return None;
    }
    let p = "/?loginToken=";
    let mut j: usize = 0;
    while j < plen
        invariant
            j <= plen,
            plen == 13,
            token_prefix().len() == 13,
            p@ == token_prefix(),
            p@.len() == 13,
            f2 + plen < e2 <= s@.len(),
            f2 as int == second_field_start(s@),
            e2 as int == scan_ws(s@, f2 as int),
            field == s@.subrange(f2 as int, e2 as int),
            forall|k: int| 0 <= k < j ==> s@[f2 + k] == token_prefix()[k],
        decreases plen - j,
    {
        let sc = s.get_char(f2 + j);
        let pc = p.get_char(j);
        if sc != pc {
            proof {
                assert(field.subrange(0, 13)[j as int] == s@[f2 + j]);
                assert(field.subrange(0, 13) != token_prefix());
            }
            return None;
        }
        j += 1;
    }
    proof {
        assert(field.subrange(0, 13) =~= token_prefix());
    }
    let tok = s.substring_char(f2 + plen, e2);
    proof {
        assert(tok@ =~= field.subrange(13, field.len() as int));
    }
    Some(tok.to_owned())
}

/// What `String::from_utf8_lossy` yields: a decoding determined by the
/// bytes alone, with invalid sequences replaced rather than rejected.
pub uninterp spec fn lossy_decode(bytes: Seq<u8>) -> Seq<char>;

/// Relies on `String::from_utf8_lossy`: the result is a function of the
/// bytes alone, and a valid UTF-8 buffer decodes exactly, as
/// `vstd::utf8::decode_utf8` describes.
#[verifier::external_body]
fn decode_lossy(bytes: &[u8]) -> (r: String)
    ensures
        r@ == lossy_decode(bytes@),
        valid_utf8(bytes@) ==> r@ == decode_utf8(bytes@),
{
    String::from_utf8_lossy(bytes).into_owned()
}

/// Extracts the one-time login token from a raw inbound request buffer.
///
/// The buffer is decoded as UTF-8 first, lossily: extraction never fails,
/// it only may find nothing.
pub fn extract_token(raw: &[u8]) -> (r: Option<String>)
    ensures
        match r {
            Some(t) => extract_spec(lossy_decode(raw@)) == Some(t@),
            None => extract_spec(lossy_decode(raw@)) is None,
        },
        valid_utf8(raw@) ==> lossy_decode(raw@) == decode_utf8(raw@),
{
    let s = decode_lossy(raw);
    extract_token_str(s.as_str())
}

/// A request whose second whitespace-delimited field does not carry the
/// login-token prefix with a non-empty remainder yields no token.
pub proof fn lemma_no_prefix_no_token(s: Seq<char>)
    requires
        ({
            let f2 = second_field_start(s);
            let e2 = scan_ws(s, f2);
            f2 < s.len() ==> !(e2 - f2 > token_prefix().len() && s.subrange(f2, e2).subrange(
                0,
                token_prefix().len() as int,
            ) == token_prefix())
        }),
    ensures
        extract_spec(s) is None,
{
    lemma_scan_bounds(s, 0);
    let f1 = scan_non_ws(s, 0);
    lemma_scan_bounds(s, f1);
    let e1 = scan_ws(s, f1);
    lemma_scan_bounds(s, e1);
    let f2 = scan_non_ws(s, e1);
    lemma_scan_bounds(s, f2);
}

/// A well-formed request line around a non-empty, whitespace-free token
/// extracts exactly that token.
pub proof fn lemma_request_line_extracts(t: Seq<char>)
    requires
        t.len() > 0,
        forall|i: int| 0 <= i < t.len() ==> !is_ws(t[i]),
    ensures
        extract_spec("GET /?loginToken="@ + t + " HTTP/1.1"@) == Some(t),
{
    reveal_strlit("GET /?loginToken=");
    reveal_strlit(" HTTP/1.1");
    reveal_strlit("/?loginToken=");
    let a = "GET /?loginToken="@;
    let b = " HTTP/1.1"@;
    let s = a + t + b;
    assert(a.len() == 17);
    assert(b.len() == 9);
    assert(s.len() == 26 + t.len());
    assert forall|k: int| 0 <= k < 3 implies !is_ws(s[k]) by {
        assert(s[k] == a[k]);
    }
    assert(is_ws(s[3]));
    lemma_scan_non_ws_stops(s, 0, 0);
    lemma_scan_ws_stops(s, 0, 3);
    lemma_scan_non_ws_stops(s, 3, 4);
    let e2 = 17 + t.len() as int;
    assert forall|k: int| 4 <= k < e2 implies !is_ws(s[k]) by {
        if k < 17 {
            assert(s[k] == a[k]);
        } else {
            assert(s[k] == t[k - 17]);
        }
    }
    assert(is_ws(s[e2]));
    lemma_scan_ws_stops(s, 4, e2);
    assert(second_field_start(s) == 4);
    let field = s.subrange(4, e2);
    assert(field.len() == 13 + t.len());
    assert(field.subrange(0, 13) =~= token_prefix());
    assert(field.subrange(13, field.len() as int) =~= t);
}

} // verus!
