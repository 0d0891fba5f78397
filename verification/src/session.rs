//! The authenticated session record and its durable encoding.
//!
//! A session is what the store persists so the app can resume without
//! re-authenticating: the stable user identifier, the device identifier,
//! the opaque credential material, and optional refresh material. The
//! encoding is a fixed binary layout — each string as a four-byte
//! big-endian length followed by its UTF-8 bytes, the optional field
//! behind a presence byte — and decoding accepts exactly the encodings,
//! so a corrupt record reads back as absent rather than as a session.

use vstd::prelude::*;
use vstd::slice::{slice_subrange, slice_to_vec};
use vstd::string::StrSliceExecFns;
use vstd::utf8::{decode_utf8, encode_utf8, valid_utf8};
use vstd::utf8::{decode_utf8_encode_utf8, encode_utf8_decode_utf8, encode_utf8_valid_utf8};

verus! {

/// The outcome of a successful token exchange: everything needed to
/// restore the session later.
pub struct AuthSession {
    /// The stable user identifier.
    pub user_id: String,
    /// The device identifier the homeserver assigned.
    pub device_id: String,
    /// The opaque credential material.
    pub access_token: String,
    /// Optional refresh material.
    pub refresh_token: Option<String>,
}

/// The mathematical content of a session record.
pub open spec fn session_model(s: &AuthSession) -> (
    Seq<char>,
    Seq<char>,
    Seq<char>,
    Option<Seq<char>>,
) {
    (s.user_id@, s.device_id@, s.access_token@, s.refresh_token.deep_view())
}

/// Whether a string's UTF-8 encoding fits the four-byte length prefix.
pub open spec fn str_fits(cs: Seq<char>) -> bool {
    encode_utf8(cs).len() < 0x100000000
}

/// Whether every field of the session fits its length prefix.
pub open spec fn session_fits(s: &AuthSession) -> bool {
    &&& str_fits(s.user_id@)
    &&& str_fits(s.device_id@)
    &&& str_fits(s.access_token@)
    &&& (s.refresh_token matches Some(t) ==> str_fits(t@))
}

/// `n` as four bytes, big-endian.
pub open spec fn len_be(n: nat) -> Seq<u8> {
    seq![
        ((n / 0x1000000) % 0x100) as u8,
        ((n / 0x10000) % 0x100) as u8,
        ((n / 0x100) % 0x100) as u8,
        (n % 0x100) as u8,
    ]
}

/// The number a four-byte big-endian prefix denotes.
pub open spec fn read_be(b: Seq<u8>) -> nat
    recommends
        b.len() == 4,
{
    (b[0] as nat) * 0x1000000 + (b[1] as nat) * 0x10000 + (b[2] as nat) * 0x100 + (b[3] as nat)
}

/// A string field's encoding: length prefix, then UTF-8 bytes.
pub open spec fn enc_str(cs: Seq<char>) -> Seq<u8> {
    len_be(encode_utf8(cs).len()) + encode_utf8(cs)
}

/// An optional field's encoding: a presence byte, then the field if present.
pub open spec fn enc_opt(o: Option<Seq<char>>) -> Seq<u8> {
    match o {
        None => seq![0u8],
        Some(cs) => seq![1u8] + enc_str(cs),
    }
}

/// The session record's full encoding.
pub open spec fn encode_spec(s: &AuthSession) -> Seq<u8> {
    enc_str(s.user_id@) + enc_str(s.device_id@) + enc_str(s.access_token@) + enc_opt(
        s.refresh_token.deep_view(),
    )
}

/// Parses one string field; yields the field and the remaining bytes.
pub open spec fn parse_str(b: Seq<u8>) -> Option<(Seq<char>, Seq<u8>)> {
    if b.len() < 4 {
        None
    } else {
        let n = read_be(b.subrange(0, 4));
        if b.len() - 4 < n {
            None
        } else {
            let data = b.subrange(4, (4 + n) as int);
            if valid_utf8(data) {
                Some((decode_utf8(data), b.skip((4 + n) as int)))
            } else {
                None
            }
        }
    }
}

/// Parses one optional string field.
pub open spec fn parse_opt(b: Seq<u8>) -> Option<(Option<Seq<char>>, Seq<u8>)> {
    if b.len() < 1 {
        None
    } else if b[0] == 0 {
        Some((None, b.skip(1)))
    } else if b[0] == 1 {
        match parse_str(b.skip(1)) {
            Some((cs, rest)) => Some((Some(cs), rest)),
            None => None,
        }
    } else {
        None
    }
}

/// What decoding finds in a byte record: a session's content exactly when
/// the record is a complete, well-formed encoding.
pub open spec fn decode_spec(b: Seq<u8>) -> Option<
    (Seq<char>, Seq<char>, Seq<char>, Option<Seq<char>>),
> {
    match parse_str(b) {
        Some((u, r1)) => match parse_str(r1) {
            Some((d, r2)) => match parse_str(r2) {
                Some((a, r3)) => match parse_opt(r3) {
                    Some((t, r4)) => if r4.len() == 0 {
                        Some((u, d, a, t))
                    } else {
                        None
                    },
                    None => None,
                },
                None => None,
            },
            None => None,
        },
        None => None,
    }
}

/// The length prefix reads back as the length it encodes.
pub proof fn lemma_read_len_be(n: nat)
    requires
        n < 0x100000000,
    ensures
        len_be(n).len() == 4,
        read_be(len_be(n)) == n,
{
    let x = n as u64;
    assert(x < 0x100000000 ==> ((x / 0x1000000) % 0x100) * 0x1000000 + ((x / 0x10000) % 0x100)
        * 0x10000 + ((x / 0x100) % 0x100) * 0x100 + (x % 0x100) == x) by (bit_vector);
}

/// Parsing an encoded string field recovers the field and the rest.
pub proof fn lemma_parse_enc_str(cs: Seq<char>, rest: Seq<u8>)
    requires
        str_fits(cs),
    ensures
        parse_str(enc_str(cs) + rest) == Some((cs, rest)),
{
    let e = encode_utf8(cs);
    let n = e.len();
    lemma_read_len_be(n);
    let b = enc_str(cs) + rest;
    assert(b.subrange(0, 4) =~= len_be(n));
    assert(b.subrange(4, (4 + n) as int) =~= e);
    assert(b.skip((4 + n) as int) =~= rest);
    encode_utf8_valid_utf8(cs);
    encode_utf8_decode_utf8(cs);
}

/// Parsing an encoded optional field recovers the field and the rest.
pub proof fn lemma_parse_enc_opt(o: Option<Seq<char>>, rest: Seq<u8>)
    requires
        o matches Some(cs) ==> str_fits(cs),
    ensures
        parse_opt(enc_opt(o) + rest) == Some((o, rest)),
{
    let b = enc_opt(o) + rest;
    match o {
        None => {
            assert(b.skip(1) =~= rest);
        },
        Some(cs) => {
            assert(b.skip(1) =~= enc_str(cs) + rest);
            lemma_parse_enc_str(cs, rest);
        },
    }
}

/// Round trip: decoding an encoded session yields exactly that session's
/// content. Together with the decoder's strictness, `save` followed by
/// `load` restores an equivalent session.
pub proof fn lemma_codec_round_trip(s: &AuthSession)
    requires
        session_fits(s),
    ensures
        decode_spec(encode_spec(s)) == Some(session_model(s)),
{
    let e1 = enc_str(s.user_id@);
    let e2 = enc_str(s.device_id@);
    let e3 = enc_str(s.access_token@);
    let e4 = enc_opt(s.refresh_token.deep_view());
    let tail0: Seq<u8> = Seq::empty();
    assert(encode_spec(s) =~= e1 + (e2 + (e3 + (e4 + tail0))));
    assert(e4 + tail0 =~= e4);
    lemma_parse_enc_str(s.user_id@, e2 + (e3 + e4));
    lemma_parse_enc_str(s.device_id@, e3 + e4);
    lemma_parse_enc_str(s.access_token@, e4);
    lemma_parse_enc_opt(s.refresh_token.deep_view(), tail0);
    assert(e4 =~= e4 + tail0);
}

fn push_len_be(out: &mut Vec<u8>, n: usize)
    requires
        n < 0x100000000,
    ensures
        final(out)@ == old(out)@ + len_be(n as nat),
{
    let m: u64 = n as u64;
    out.push(((m / 0x1000000) % 0x100) as u8);
    out.push(((m / 0x10000) % 0x100) as u8);
    out.push(((m / 0x100) % 0x100) as u8);
    out.push((m % 0x100) as u8);
    proof {
        assert(final(out)@ =~= old(out)@ + len_be(n as nat));
    }
}

fn push_str_field(out: &mut Vec<u8>, f: &str) -> (ok: bool)
    ensures
        ok == str_fits(f@),
        ok ==> final(out)@ == old(out)@ + enc_str(f@),
        !ok ==> final(out)@ == old(out)@,
{
    let mut bytes = f.as_bytes_vec();
    if bytes.len() as u64 >= 0x100000000u64 {
        return false;
    }
    push_len_be(out, bytes.len());
    out.append(&mut bytes);
    proof {
        assert(final(out)@ =~= old(out)@ + enc_str(f@));
    }
    true
}

/// Encodes a session for durable storage; yields nothing exactly when a
/// field is too large for its length prefix.
pub fn encode_session(s: &AuthSession) -> (r: Option<Vec<u8>>)
    ensures
        r is Some <==> session_fits(s),
        r matches Some(b) ==> b@ == encode_spec(s),
{
    let mut out: Vec<u8> = Vec::new();
    if !push_str_field(&mut out, s.user_id.as_str()) {
        return None;
    }
    if !push_str_field(&mut out, s.device_id.as_str()) {
        return None;
    }
    if !push_str_field(&mut out, s.access_token.as_str()) {
        return None;
    }
    match &s.refresh_token {
        None => {
            out.push(0u8);
        },
        Some(t) => {
            out.push(1u8);
            if !push_str_field(&mut out, t.as_str()) {
                return None;
            }
        },
    }
    proof {
        assert(out@ =~= encode_spec(s));
    }
    Some(out)
}

/// Relies on `String::from_utf8`: it succeeds exactly on valid UTF-8 and
/// decodes it as `vstd::utf8::decode_utf8` describes.
#[verifier::external_body]
fn string_from_utf8(v: Vec<u8>) -> (r: Option<String>)
    ensures
        valid_utf8(v@) ==> r is Some && r->0@ == decode_utf8(v@),
        !valid_utf8(v@) ==> r is None,
{
    String::from_utf8(v).ok()
}

fn read_str_field<'a>(b: &'a [u8]) -> (r: Option<(String, &'a [u8])>)
    ensures
        match r {
            Some(p) => parse_str(b@) == Some((p.0@, p.1@)) && str_fits(p.0@),
            None => parse_str(b@) is None,
        },
{
    if b.len() < 4 {
        return None;
    }
    let n64: u64 = (b[0] as u64) * 0x1000000 + (b[1] as u64) * 0x10000 + (b[2] as u64) * 0x100 + (
    b[3] as u64);
    proof {
        assert(b@.subrange(0, 4) =~= seq![b@[0], b@[1], b@[2], b@[3]]);
        assert(n64 as nat == read_be(b@.subrange(0, 4)));
    }
    if ((b.len() - 4) as u64) < n64 {
        return None;
    }
    let n = n64 as usize;
    let data = slice_subrange(b, 4, 4 + n);
    let rest = slice_subrange(b, 4 + n, b.len());
    match string_from_utf8(slice_to_vec(data)) {
        Some(s) => {
            proof {
                decode_utf8_encode_utf8(data@);
            }
            Some((s, rest))
        },
        None => None,
    }
}

fn read_opt_field<'a>(b: &'a [u8]) -> (r: Option<(Option<String>, &'a [u8])>)
    ensures
        match r {
            Some(p) => parse_opt(b@) == Some((p.0.deep_view(), p.1@)) && (p.0 matches Some(t)
                ==> str_fits(t@)),
            None => parse_opt(b@) is None,
        },
{
    if b.len() < 1 {
        return None;
    }
    let tag = b[0];
    let rest = slice_subrange(b, 1, b.len());
    proof {
        assert(rest@ =~= b@.skip(1));
    }
    if tag == 0 {
        Some((None, rest))
    } else if tag == 1 {
        match read_str_field(rest) {
            Some((s, rest2)) => Some((Some(s), rest2)),
            None => None,
        }
    } else {
        None
    }
}

/// Decodes a durable record; yields a session exactly when the record is a
/// complete, well-formed encoding, so corruption reads back as absent.
pub fn decode_session(b: &[u8]) -> (r: Option<AuthSession>)
    ensures
        match r {
            Some(s) => decode_spec(b@) == Some(session_model(&s)) && session_fits(&s),
            None => decode_spec(b@) is None,
        },
{
    let (user_id, r1) = match read_str_field(b) {
        Some(p) => p,
        None => {
            return None;
        },
    };
    let (device_id, r2) = match read_str_field(r1) {
        Some(p) => p,
        None => {
            return None;
        },
    };
    let (access_token, r3) = match read_str_field(r2) {
        Some(p) => p,
        None => {
            return None;
        },
    };
    let (refresh_token, r4) = match read_opt_field(r3) {
        Some(p) => p,
        None => {
            return None;
        },
    };
    if r4.len() != 0 {
        return None;
    }
    Some(AuthSession { user_id, device_id, access_token, refresh_token })
}

} // verus!
