//! Redirect URL composition.
//!
//! The callback address is `http://localhost:<port>`. For the generic
//! redirect path the caller supplies a template holding a literal
//! placeholder, and every occurrence of the placeholder is replaced with
//! the callback address; the rest of the template is returned unchanged.
//! For the single sign-on path the homeserver issues the login URL itself,
//! so composition supplies the two parameters it needs: the callback
//! address and the provider's canonical identifier.

use vstd::prelude::*;
use vstd::string::{StrSliceExecFns, StringExecFns};
use crate::provider::{idp_id_spec, OauthProvider};

verus! {

/// The decimal digit character for `d`.
pub open spec fn digit_char(d: nat) -> char
    recommends
        d < 10,
{
    if d == 0 {
        '0'
    } else if d == 1 {
        '1'
    } else if d == 2 {
        '2'
    } else if d == 3 {
        '3'
    } else if d == 4 {
        '4'
    } else if d == 5 {
        '5'
    } else if d == 6 {
        '6'
    } else if d == 7 {
        '7'
    } else if d == 8 {
        '8'
    } else {
        '9'
    }
}

/// The decimal rendering of `n`, most significant digit first, without
/// leading zeros (a lone zero for `n == 0`).
pub open spec fn dec_digits(n: nat) -> Seq<char>
    decreases n,
{
    if n < 10 {
        seq![digit_char(n)]
    } else {
        dec_digits(n / 10) + seq![digit_char(n % 10)]
    }
}

/// The local callback address the provider's redirect must target.
pub open spec fn callback_url_spec(port: u16) -> Seq<char> {
    "http://localhost:"@ + dec_digits(port as nat)
}

fn push_digit(s: &mut String, d: u16)
    requires
        d < 10,
    ensures
        final(s)@ == old(s)@ + seq![digit_char(d as nat)],
{
    proof {
        reveal_strlit("0");
        reveal_strlit("1");
        reveal_strlit("2");
        reveal_strlit("3");
        reveal_strlit("4");
        reveal_strlit("5");
        reveal_strlit("6");
        reveal_strlit("7");
        reveal_strlit("8");
        reveal_strlit("9");
    }
    if d == 0 {
        s.append("0");
    } else if d == 1 {
        s.append("1");
    } else if d == 2 {
        s.append("2");
    } else if d == 3 {
        s.append("3");
    } else if d == 4 {
        s.append("4");
    } else if d == 5 {
        s.append("5");
    } else if d == 6 {
        s.append("6");
    } else if d == 7 {
        s.append("7");
    } else if d == 8 {
        s.append("8");
    } else {
        s.append("9");
    }
    proof {
        assert(final(s)@ =~= old(s)@ + seq![digit_char(d as nat)]);
    }
}

fn push_decimal(s: &mut String, n: u16)
    ensures
        final(s)@ == old(s)@ + dec_digits(n as nat),
    decreases n,
{
    if n >= 10 {
        push_decimal(s, n / 10);
        push_digit(s, n % 10);
        proof {
            assert(final(s)@ =~= old(s)@ + dec_digits(n as nat));
        }
    } else {
        push_digit(s, n);
    }
}

/// The local callback address, `http://localhost:<port>`.
pub fn callback_url(port: u16) -> (r: String)
    ensures
        r@ == callback_url_spec(port),
{
    let mut s = "http://localhost:".to_owned();
    push_decimal(&mut s, port);
    s
}

/// The literal placeholder a redirect template must carry where the
/// callback address belongs.
pub open spec fn placeholder() -> Seq<char> {
    "REDIRECT"@
}

/// `s` with every occurrence of the eight-character placeholder replaced
/// by `rep`, scanning left to right without overlap.
pub open spec fn replace_spec(s: Seq<char>, rep: Seq<char>) -> Seq<char>
    decreases s.len(),
{
    if s.len() == 0 {
        Seq::empty()
    } else if s.len() >= 8 && s.subrange(0, 8) == placeholder() {
        rep + replace_spec(s.skip(8), rep)
    } else {
        seq![s[0]] + replace_spec(s.skip(1), rep)
    }
}

fn str_match_at(s: &str, i: usize, pat: &str) -> (b: bool)
    requires
        i + pat@.len() <= s@.len(),
    ensures
        b == (s@.subrange(i as int, i as int + pat@.len() as int) == pat@),
{
    let plen: usize = pat.unicode_len();
    let slen: usize = s.unicode_len();
    let mut j: usize = 0;
    while j < plen
        invariant
            j <= plen,
            plen == pat@.len(),
            slen == s@.len(),
            i + plen <= slen,
            forall|k: int| 0 <= k < j ==> s@[i + k] == pat@[k],
        decreases plen - j,
    {
        let sc = s.get_char(i + j);
        let pc = pat.get_char(j);
        if sc != pc {
            proof {
                assert(s@.subrange(i as int, i as int + pat@.len() as int)[j as int] == s@[i
                    + j]);
            }
            return false;
        }
        j += 1;
    }
    proof {
        assert(s@.subrange(i as int, i as int + pat@.len() as int) =~= pat@);
    }
    true
}

/// `template` with every placeholder occurrence replaced by `rep`.
pub fn substitute_redirect(template: &str, rep: &str) -> (r: String)
    ensures
        r@ == replace_spec(template@, rep@),
{
    proof {
        reveal_strlit("REDIRECT");
    }
    let len = template.unicode_len();
    let mut out = String::new();
    let mut i: usize = 0;
    proof {
        assert(template@.skip(0) =~= template@);
        assert(out@ + replace_spec(template@, rep@) =~= replace_spec(template@, rep@));
    }
    while i < len
        invariant
            i <= len,
            len == template@.len(),
            placeholder().len() == 8,
            replace_spec(template@, rep@) == out@ + replace_spec(
                template@.skip(i as int),
                rep@,
            ),
        decreases len - i,
    {
        let pat = "REDIRECT";
        proof {
            assert(pat@ == placeholder());
        }
        let ghost tail = template@.skip(i as int);
        if len - i >= 8 && str_match_at(template, i, pat) {
            proof {
                assert(tail.subrange(0, 8) =~= template@.subrange(i as int, i as int + 8));
                assert(tail.skip(8) =~= template@.skip(i as int + 8));
                assert(out@ + (rep@ + replace_spec(tail.skip(8), rep@)) =~= (out@ + rep@)
                    + replace_spec(template@.skip(i as int + 8), rep@));
            }
            out.append(rep);
            i += 8;
        } else {
            proof {
                if len - i >= 8 {
                    assert(tail.subrange(0, 8) =~= template@.subrange(i as int, i as int + 8));
                }
                assert(tail.skip(1) =~= template@.skip(i as int + 1));
            }
            let c = template.substring_char(i, i + 1);
            proof {
                assert(c@ =~= seq![tail[0]]);
                assert(out@ + (seq![tail[0]] + replace_spec(tail.skip(1), rep@)) =~= (out@ + c@)
                    + replace_spec(template@.skip(i as int + 1), rep@));
            }
            out.append(c.to_owned().as_str());
            i += 1;
        }
    }
    proof {
        assert(template@.skip(len as int) =~= Seq::<char>::empty());
        assert(out@ =~= out@ + replace_spec(template@.skip(len as int), rep@));
    }
    out
}

/// The full redirect URL for the template path: every placeholder in the
/// caller's template becomes the local callback address.
pub fn compose_redirect_url(template: &str, port: u16) -> (r: String)
    ensures
        r@ == replace_spec(template@, callback_url_spec(port)),
{
    let cb = callback_url(port);
    substitute_redirect(template, cb.as_str())
}

/// The two parameters the homeserver needs to issue a single sign-on login
/// URL: the callback address to redirect to, and the provider identifier.
pub fn sso_redirect_params(provider: &OauthProvider, port: u16) -> (r: (String, String))
    ensures
        r.0@ == callback_url_spec(port),
        r.1@ == idp_id_spec(*provider),
{
    (callback_url(port), provider.idp_id())
}

} // verus!
