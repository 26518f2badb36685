//! Provider configuration, the checks a decoded token must pass against a
//! resolved key, and the principal built from claims that passed them.
use crate::claims::{claims_from_json, decode_claims, opt_text, ClaimsView, JwtClaims};
use crate::crypto::{
    ec_alg, ec_signature_valid, is_ec_alg, is_rsa_alg, rsa_alg, rsa_signature_valid, verify_ec,
    verify_rsa,
};
use crate::error::{AuthError, ClaimKind};
use crate::keys::{Jwk, JwkView, KeyMaterial, MaterialView};
use crate::token::{DecodedToken, DecodedView};
use crate::wire::texts;
use vstd::prelude::*;

verus! {

/// The settings of one OpenID-Connect provider.
pub struct AuthConfig {
    jwks_uri: String,
    issuer: String,
    audience: Option<String>,
    client_secret: Option<String>,
    leeway: u64,
}

pub struct ConfigView {
    pub jwks_uri: Seq<char>,
    pub issuer: Seq<char>,
    pub audience: Option<Seq<char>>,
    pub client_secret: Option<Seq<char>>,
    /// Clock-skew allowance on expiry, in seconds.
    pub leeway: u64,
}

impl View for AuthConfig {
    type V = ConfigView;

    closed spec fn view(&self) -> ConfigView {
        ConfigView {
            jwks_uri: self.jwks_uri@,
            issuer: self.issuer@,
            audience: opt_text(self.audience),
            client_secret: opt_text(self.client_secret),
            leeway: self.leeway,
        }
    }
}

fn copy_text(s: &String) -> (r: String)
    ensures
        r@ == s@,
{
    s.clone()
}

fn copy_opt_text(o: &Option<String>) -> (r: Option<String>)
    ensures
        opt_text(r) == opt_text(*o),
{
    match o {
        Some(s) => Some(s.clone()),
        None => None,
    }
}

fn copy_texts(v: &Vec<String>) -> (r: Vec<String>)
    ensures
        texts(r@) == texts(v@),
{
    let mut r: Vec<String> = Vec::new();
    let mut i: usize = 0;
    while i < v.len()
        invariant
            i <= v@.len(),
            texts(r@) == texts(v@.subrange(0, i as int)),
        decreases v.len() - i,
    {
        r.push(v[i].clone());
        assert(texts(v@.subrange(0, i + 1)) == texts(v@.subrange(0, i as int)).push(v@[i as int]@));
        i = i + 1;
    }
    assert(v@.subrange(0, v@.len() as int) == v@);
    r
}

/// Whether `s` is one of the strings of `v`.
fn contains_text(v: &Vec<String>, s: &String) -> (r: bool)
    ensures
        r == texts(v@).contains(s@),
{
    let mut i: usize = 0;
    while i < v.len()
        invariant
            i <= v@.len(),
            forall|k: int| 0 <= k < i ==> v@[k]@ != s@,
        decreases v.len() - i,
    {
        if v[i] == *s {
            assert(texts(v@)[i as int] == s@);
            return true;
        }
        i = i + 1;
    }
    proof {
        if texts(v@).contains(s@) {
            let k = choose|k: int| 0 <= k < texts(v@).len() && texts(v@)[k] == s@;
            assert(v@[k]@ == s@);
        }
    }
    false
}

impl AuthConfig {
    /// A provider identified by `issuer`, publishing its keys at
    /// `jwks_uri`; no audience check, no client secret, no leeway.
    pub fn oidc(issuer: String, jwks_uri: String) -> (r: AuthConfig)
        ensures
            r@ == (ConfigView {
                jwks_uri: jwks_uri@,
                issuer: issuer@,
                audience: None,
                client_secret: None,
                leeway: 0,
            }),
    {
        AuthConfig { jwks_uri, issuer, audience: None, client_secret: None, leeway: 0 }
    }

    /// Requires tokens to name `audience` among their audiences.
    pub fn with_audience(self, audience: String) -> (r: AuthConfig)
        ensures
            r@ == (ConfigView { audience: Some(audience@), ..self@ }),
    {
        AuthConfig { audience: Some(audience), ..self }
    }

    /// Sets the shared secret used by non-token flows.
    pub fn with_client_secret(self, client_secret: String) -> (r: AuthConfig)
        ensures
            r@ == (ConfigView { client_secret: Some(client_secret@), ..self@ }),
    {
        AuthConfig { client_secret: Some(client_secret), ..self }
    }

    /// Accepts tokens up to `seconds` after their expiry.
    pub fn with_leeway(self, seconds: u64) -> (r: AuthConfig)
        ensures
            r@ == (ConfigView { leeway: seconds, ..self@ }),
    {
        AuthConfig { leeway: seconds, ..self }
    }

    pub fn jwks_uri(&self) -> (r: &String)
        ensures
            r@ == self@.jwks_uri,
    {
        &self.jwks_uri
    }

    pub fn issuer(&self) -> (r: &String)
        ensures
            r@ == self@.issuer,
    {
        &self.issuer
    }

    pub fn audience(&self) -> (r: &Option<String>)
        ensures
            opt_text(*r) == self@.audience,
    {
        &self.audience
    }

    pub fn client_secret(&self) -> (r: &Option<String>)
        ensures
            opt_text(*r) == self@.client_secret,
    {
        &self.client_secret
    }

    pub fn leeway(&self) -> (r: u64)
        ensures
            r == self@.leeway,
    {
        self.leeway
    }
}

/// Whether the header's algorithm is the one the key's own metadata allows:
/// the key's declared algorithm if it has one, and in any case one of the
/// key type's family.
pub open spec fn alg_agrees(key: JwkView, alg: Seq<char>) -> bool {
    &&& (key.alg matches Some(a) ==> a == alg)
    &&& match key.material {
        MaterialView::Rsa { .. } => is_rsa_alg(alg),
        MaterialView::Ec { .. } => is_ec_alg(alg),
    }
}

/// Whether `signature` signs `input` under `key` with algorithm `alg`.
pub open spec fn signature_holds(key: JwkView, alg: Seq<char>, input: Seq<u8>, signature: Seq<u8>) -> bool {
    match key.material {
        MaterialView::Rsa { n, e } => rsa_signature_valid(alg, n, e, input, signature),
        MaterialView::Ec { x, y } => ec_signature_valid(alg, x, y, input, signature),
    }
}

/// Whether the token's audiences satisfy the configured one; with none
/// configured there is nothing to check.
pub open spec fn audience_ok(expected: Option<Seq<char>>, aud: Option<Seq<Seq<char>>>) -> bool {
    match expected {
        None => true,
        Some(a) => aud matches Some(l) && l.contains(a),
    }
}

/// Whether a token expiring at `exp` is still good at `now`.
pub open spec fn unexpired(exp: u64, leeway: u64, now: u64) -> bool {
    now < exp + leeway
}

/// The claim checks, in order: issuer, expiry, audience.
pub open spec fn claims_outcome(cfg: ConfigView, c: ClaimsView, now: u64) -> Result<ClaimsView, AuthError> {
    if c.iss != cfg.issuer {
        Err(AuthError::ClaimInvalid(ClaimKind::Issuer))
    } else if !unexpired(c.exp, cfg.leeway, now) {
        Err(AuthError::ClaimInvalid(ClaimKind::Expiry))
    } else if !audience_ok(cfg.audience, c.aud) {
        Err(AuthError::ClaimInvalid(ClaimKind::Audience))
    } else {
        Ok(c)
    }
}

/// What validating decoded token `d` against key `key` at time `now` gives:
/// the signature first, then the claims.
pub open spec fn validation(cfg: ConfigView, d: DecodedView, key: JwkView, now: u64) -> Result<ClaimsView, AuthError> {
    if !alg_agrees(key, d.alg) || !signature_holds(key, d.alg, d.signing_input, d.signature) {
        Err(AuthError::SignatureInvalid)
    } else {
        match claims_from_json(d.payload) {
            None => Err(AuthError::MalformedToken),
            Some(c) => claims_outcome(cfg, c, now),
        }
    }
}

pub open spec fn claims_result_view(r: Result<JwtClaims, AuthError>) -> Result<ClaimsView, AuthError> {
    match r {
        Ok(c) => Ok(c@),
        Err(e) => Err(e),
    }
}

/// Checks the header's algorithm against the key and the signature.
fn signature_check(d: &DecodedToken, key: &Jwk) -> (r: bool)
    ensures
        r == (alg_agrees(key@, d@.alg) && signature_holds(key@, d@.alg, d@.signing_input, d@.signature)),
{
    let alg = &d.header.alg;
    if let Some(a) = &key.alg {
        if *a != *alg {
            return false;
        }
    }
    match &key.material {
        KeyMaterial::Rsa { n, e } => {
            rsa_alg(alg) && verify_rsa(alg.as_str(), n.as_str(), e.as_str(), d.signing_input.as_slice(), d.signature.as_slice())
        },
        KeyMaterial::Ec { x, y } => {
            ec_alg(alg) && verify_ec(alg.as_str(), x.as_str(), y.as_str(), d.signing_input.as_slice(), d.signature.as_slice())
        },
    }
}

impl AuthConfig {
    /// Checks a token's claims that passed the signature check.
    pub fn check_claims(&self, c: JwtClaims, now: u64) -> (r: Result<JwtClaims, AuthError>)
        ensures
            claims_result_view(r) == claims_outcome(self@, c@, now),
    {
        if c.iss != self.issuer {
            return Err(AuthError::ClaimInvalid(ClaimKind::Issuer));
        }
        if now as u128 >= c.exp as u128 + self.leeway as u128 {
            return Err(AuthError::ClaimInvalid(ClaimKind::Expiry));
        }
        if let Some(a) = &self.audience {
            let ok = match &c.aud {
                Some(l) => contains_text(l, a),
                None => false,
            };
            if !ok {
                return Err(AuthError::ClaimInvalid(ClaimKind::Audience));
            }
        }
        Ok(c)
    }

    /// Validates a decoded token against the key its header named.
    pub fn check_token(&self, d: &DecodedToken, key: &Jwk, now: u64) -> (r: Result<JwtClaims, AuthError>)
        ensures
            claims_result_view(r) == validation(self@, d@, key@, now),
    {
        if !signature_check(d, key) {
            return Err(AuthError::SignatureInvalid);
        }
        match decode_claims(d.payload.as_slice()) {
            None => Err(AuthError::MalformedToken),
            Some(c) => self.check_claims(c, now),
        }
    }
}

/// A caller whose token passed every check.
pub struct AuthenticatedUser {
    pub sub: String,
    pub email: Option<String>,
    pub groups: Vec<String>,
    /// The whole claim set, for callers that need more.
    pub claims: JwtClaims,
}

pub struct PrincipalView {
    pub sub: Seq<char>,
    pub email: Option<Seq<char>>,
    pub groups: Seq<Seq<char>>,
    pub claims: ClaimsView,
}

impl View for AuthenticatedUser {
    type V = PrincipalView;

    open spec fn view(&self) -> PrincipalView {
        PrincipalView {
            sub: self.sub@,
            email: opt_text(self.email),
            groups: texts(self.groups@),
            claims: self.claims@,
        }
    }
}

/// The groups of a principal: the provider-specific list if present and
/// non-empty, else the generic list, else none.
pub open spec fn resolved_groups(c: ClaimsView) -> Seq<Seq<char>> {
    if c.cognito_groups matches Some(g) && g.len() > 0 {
        c.cognito_groups->0
    } else if c.groups is Some {
        c.groups->0
    } else {
        Seq::empty()
    }
}

/// The principal built from validated claims `c`.
pub open spec fn principal_of(c: ClaimsView) -> PrincipalView {
    PrincipalView { sub: c.sub, email: c.email, groups: resolved_groups(c), claims: c }
}

impl AuthenticatedUser {
    /// Builds the principal from validated claims.
    pub fn from_claims(claims: JwtClaims) -> (r: AuthenticatedUser)
        ensures
            r@ == principal_of(claims@),
    {
        let groups = match &claims.cognito_groups {
            Some(g) if g.len() > 0 => copy_texts(g),
            _ => match &claims.groups {
                Some(g) => copy_texts(g),
                None => Vec::new(),
            },
        };
        assert(claims.cognito_groups is None || claims.cognito_groups->0@.len() == 0
            ==> claims.groups is None ==> texts(groups@) == Seq::<Seq<char>>::empty());
        AuthenticatedUser {
            sub: copy_text(&claims.sub),
            email: copy_opt_text(&claims.email),
            groups,
            claims,
        }
    }

    /// Whether the principal belongs to group `role`.
    pub fn has_role(&self, role: &str) -> (r: bool)
        ensures
            r == texts(self.groups@).contains(role@),
    {
        let role = role.to_owned();
        contains_text(&self.groups, &role)
    }

    /// Whether the principal belongs to any of the groups `roles`.
    pub fn has_any_role(&self, roles: &[&str]) -> (r: bool)
        ensures
            r == exists|j: int| 0 <= j < roles@.len() && texts(self.groups@).contains(#[trigger] roles@[j]@),
    {
        let mut j: usize = 0;
        while j < roles.len()
            invariant
                j <= roles@.len(),
                forall|k: int| 0 <= k < j ==> !texts(self.groups@).contains(#[trigger] roles@[k]@),
            decreases roles.len() - j,
        {
            if self.has_role(roles[j]) {
                return true;
            }
            j = j + 1;
        }
        false
    }
}

} // verus!
