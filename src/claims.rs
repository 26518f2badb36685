//! The claim set a token carries, read from its decoded claims segment.
use crate::wire::{
    json_string_at, json_string_list_at, json_string_list_member, json_string_member, json_u64_at,
    json_u64_member, texts,
};
use vstd::prelude::*;

verus! {

/// The claims of a token.
pub struct JwtClaims {
    /// Subject: the unique user identifier; never empty.
    pub sub: String,
    pub email: Option<String>,
    /// The provider-specific group list (`cognito:groups`).
    pub cognito_groups: Option<Vec<String>>,
    /// The generic group list (`groups`).
    pub groups: Option<Vec<String>>,
    /// Expiry, in Unix seconds.
    pub exp: u64,
    /// Issuer URL.
    pub iss: String,
    /// Issue time, in Unix seconds.
    pub iat: Option<u64>,
    /// Audience; a single string is held as a list of one.
    pub aud: Option<Vec<String>>,
}

pub struct ClaimsView {
    pub sub: Seq<char>,
    pub email: Option<Seq<char>>,
    pub cognito_groups: Option<Seq<Seq<char>>>,
    pub groups: Option<Seq<Seq<char>>>,
    pub exp: u64,
    pub iss: Seq<char>,
    pub iat: Option<u64>,
    pub aud: Option<Seq<Seq<char>>>,
}

pub open spec fn opt_text(o: Option<String>) -> Option<Seq<char>> {
    match o {
        Some(s) => Some(s@),
        None => None,
    }
}

pub open spec fn opt_texts(o: Option<Vec<String>>) -> Option<Seq<Seq<char>>> {
    match o {
        Some(v) => Some(texts(v@)),
        None => None,
    }
}

impl View for JwtClaims {
    type V = ClaimsView;

    open spec fn view(&self) -> ClaimsView {
        ClaimsView {
            sub: self.sub@,
            email: opt_text(self.email),
            cognito_groups: opt_texts(self.cognito_groups),
            groups: opt_texts(self.groups),
            exp: self.exp,
            iss: self.iss@,
            iat: self.iat,
            aud: opt_texts(self.aud),
        }
    }
}

/// The audience of claim set `p`: a string member as a list of one, or a
/// list of strings.
pub open spec fn audience_at(p: Seq<u8>) -> Option<Seq<Seq<char>>> {
    match json_string_at(p, "aud"@) {
        Some(a) => Some(seq![a]),
        None => json_string_list_at(p, "aud"@),
    }
}

/// The claims that the JSON claim set `p` holds, if it has a non-empty
/// subject, an expiry and an issuer.
pub open spec fn claims_from_json(p: Seq<u8>) -> Option<ClaimsView> {
    match (json_string_at(p, "sub"@), json_u64_at(p, "exp"@), json_string_at(p, "iss"@)) {
        (Some(sub), Some(exp), Some(iss)) => if sub.len() == 0 {
            None
        } else {
            Some(
                ClaimsView {
                    sub,
                    email: json_string_at(p, "email"@),
                    cognito_groups: json_string_list_at(p, "cognito:groups"@),
                    groups: json_string_list_at(p, "groups"@),
                    exp,
                    iss,
                    iat: json_u64_at(p, "iat"@),
                    aud: audience_at(p),
                },
            )
        },
        _ => None,
    }
}

/// Reads the claims out of a decoded claims segment.
pub fn decode_claims(p: &[u8]) -> (r: Option<JwtClaims>)
    ensures
        r matches Some(c) ==> claims_from_json(p@) == Some(c@),
        r is None ==> claims_from_json(p@) is None,
{
    let sub = json_string_member(p, "sub");
    let exp = json_u64_member(p, "exp");
    let iss = json_string_member(p, "iss");
    if sub.is_none() || exp.is_none() || iss.is_none() {
        return None;
    }
    let sub = sub.unwrap();
    if sub.as_str().is_empty() {
        return None;
    }
    let aud = match json_string_member(p, "aud") {
        Some(a) => {
            let v = vec![a];
            assert(texts(v@) == seq![a@]);
            Some(v)
        },
        None => json_string_list_member(p, "aud"),
    };
    Some(
        JwtClaims {
            sub,
            email: json_string_member(p, "email"),
            cognito_groups: json_string_list_member(p, "cognito:groups"),
            groups: json_string_list_member(p, "groups"),
            exp: exp.unwrap(),
            iss: iss.unwrap(),
            iat: json_u64_member(p, "iat"),
            aud,
        },
    )
}

} // verus!
