//! Structural decoding of a compact token: three base64url segments joined
//! by `.`, a header naming the algorithm and key, and a claim set. Nothing
//! decoded here is trusted until the signature has been checked.
use crate::error::AuthError;
use crate::wire::{base64url_decoding, decode_base64url, json_string_at, json_string_member};
use vstd::prelude::*;
use vstd::slice::{slice_subrange, slice_to_vec};

verus! {

/// The byte `.` that separates the segments.
pub const DOT: u8 = 46;

/// The first index at or after `from` where `t` holds `x`.
pub open spec fn index_of_from(t: Seq<u8>, from: int, x: u8) -> Option<int>
    decreases t.len() - from,
{
    if from < 0 || from >= t.len() {
        None
    } else if t[from] == x {
        Some(from)
    } else {
        index_of_from(t, from + 1, x)
    }
}

/// The header, claims and signature segments of `t`, if `t` holds exactly
/// two dots.
pub open spec fn compact_segments(t: Seq<u8>) -> Option<(Seq<u8>, Seq<u8>, Seq<u8>)> {
    match index_of_from(t, 0, DOT) {
        None => None,
        Some(i) => match index_of_from(t, i + 1, DOT) {
            None => None,
            Some(j) => if index_of_from(t, j + 1, DOT) is Some {
                None
            } else {
                Some((t.subrange(0, i), t.subrange(i + 1, j), t.subrange(j + 1, t.len() as int)))
            },
        },
    }
}

/// The unverified header: the algorithm it declares and the key it names.
pub struct TokenHeader {
    pub alg: String,
    pub kid: String,
}

/// A token taken apart: its header, the signed text (header and claims
/// segments with the dot between them), the decoded claims segment, and the
/// signature segment as it was written.
pub struct DecodedToken {
    pub header: TokenHeader,
    pub signing_input: Vec<u8>,
    pub payload: Vec<u8>,
    pub signature: Vec<u8>,
}

pub struct DecodedView {
    pub alg: Seq<char>,
    pub kid: Seq<char>,
    pub signing_input: Seq<u8>,
    pub payload: Seq<u8>,
    pub signature: Seq<u8>,
}

impl View for DecodedToken {
    type V = DecodedView;

    open spec fn view(&self) -> DecodedView {
        DecodedView {
            alg: self.header.alg@,
            kid: self.header.kid@,
            signing_input: self.signing_input@,
            payload: self.payload@,
            signature: self.signature@,
        }
    }
}

/// What decoding `t` yields: every segment must be base64url and the header
/// must name both an algorithm and a key.
pub open spec fn decoded(t: Seq<u8>) -> Option<DecodedView> {
    match compact_segments(t) {
        None => None,
        Some((h, p, s)) => match (base64url_decoding(h), base64url_decoding(p), base64url_decoding(s)) {
            (Some(hb), Some(pb), Some(_)) => match (json_string_at(hb, "alg"@), json_string_at(hb, "kid"@)) {
                (Some(alg), Some(kid)) => Some(DecodedView {
                    alg,
                    kid,
                    signing_input: t.subrange(0, (h.len() + 1 + p.len()) as int),
                    payload: pb,
                    signature: s,
                }),
                _ => None,
            },
            _ => None,
        },
    }
}

/// Finds the first `x` in `b` at or after `from`.
fn find_byte(b: &[u8], from: usize, x: u8) -> (r: Option<usize>)
    ensures
        r matches Some(k) ==> from <= k < b.len() && index_of_from(b@, from as int, x) == Some(
            k as int,
        ),
        r is None ==> index_of_from(b@, from as int, x) is None,
{
    let mut k = from;
    while k < b.len()
        invariant
            from <= k,
            index_of_from(b@, from as int, x) == index_of_from(b@, k as int, x),
        decreases b.len() - k,
    {
        if b[k] == x {
            return Some(k);
        }
        k = k + 1;
    }
    None
}

/// Splits `t` into the segments of `compact_segments`, given as index pairs.
fn split_compact(t: &[u8]) -> (r: Option<(usize, usize)>)
    ensures
        r matches Some((i, j)) ==> i < j < t.len() && compact_segments(t@) == Some(
            (
                t@.subrange(0, i as int),
                t@.subrange(i + 1, j as int),
                t@.subrange(j + 1, t@.len() as int),
            ),
        ),
        r is None ==> compact_segments(t@) is None,
{
    let i = match find_byte(t, 0, DOT) {
        Some(i) => i,
        None => return None,
    };
    let j = match find_byte(t, i + 1, DOT) {
        Some(j) => j,
        None => return None,
    };
    if find_byte(t, j + 1, DOT).is_some() {
        return None;
    }
    Some((i, j))
}

/// Takes a compact token apart without trusting any of it.
pub fn decode_token(t: &[u8]) -> (r: Result<DecodedToken, AuthError>)
    ensures
        r matches Ok(d) ==> decoded(t@) == Some(d@),
        r is Err ==> decoded(t@) is None && r == Err::<DecodedToken, AuthError>(
            AuthError::MalformedToken,
        ),
{
    let (i, j) = match split_compact(t) {
        Some(p) => p,
        None => return Err(AuthError::MalformedToken),
    };
    let h = slice_subrange(t, 0, i);
    let p = slice_subrange(t, i + 1, j);
    let s = slice_subrange(t, j + 1, t.len());
    let hb = decode_base64url(h);
    let pb = decode_base64url(p);
    let sb = decode_base64url(s);
    if hb.is_none() || pb.is_none() || sb.is_none() {
        return Err(AuthError::MalformedToken);
    }
    let hb = hb.unwrap();
    let pb = pb.unwrap();
    let alg = json_string_member(hb.as_slice(), "alg");
    let kid = json_string_member(hb.as_slice(), "kid");
    if alg.is_none() || kid.is_none() {
        return Err(AuthError::MalformedToken);
    }
    let header = TokenHeader { alg: alg.unwrap(), kid: kid.unwrap() };
    let signing_input = slice_to_vec(slice_subrange(t, 0, j));
    assert(t@.subrange(0, j as int) == t@.subrange(0, (h@.len() + 1 + p@.len()) as int));
    Ok(DecodedToken { header, signing_input, payload: pb, signature: slice_to_vec(s) })
}

} // verus!
