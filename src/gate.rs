//! The per-request entry point. It extracts the bearer credential, decodes
//! the token, resolves its key from the cached key set and validates it.
//! Fetching a fresh key set is left to the caller: when the cache lacks the
//! token's key, authentication says so, and the caller fetches once and resumes.
use crate::auth::{principal_of, validation, AuthConfig, AuthenticatedUser, ConfigView, PrincipalView};
use crate::claims::{ClaimsView, JwtClaims};
use crate::error::AuthError;
use crate::keys::{key_for, JwkView, KeySet};
use crate::token::{decode_token, decoded, DecodedToken, DecodedView};
use vstd::prelude::*;
use vstd::slice::slice_subrange;
use vstd::string::StringSliceAdditionalSpecFns;

verus! {

/// The bytes of `Bearer `.
pub open spec fn bearer_prefix() -> Seq<u8> {
    seq![66u8, 101u8, 97u8, 114u8, 101u8, 114u8, 32u8]
}

/// The token of an `Authorization` header value `h`: what follows the
/// `Bearer ` prefix, which must not be empty.
pub open spec fn bearer_token(h: Seq<u8>) -> Option<Seq<u8>> {
    if h.len() > 7 && h.subrange(0, 7) == bearer_prefix() {
        Some(h.subrange(7, h.len() as int))
    } else {
        None
    }
}

/// The token of an optional header value.
pub open spec fn credential(header: Option<Seq<u8>>) -> Option<Seq<u8>> {
    match header {
        Some(h) => bearer_token(h),
        None => None,
    }
}

pub open spec fn header_bytes(header: Option<&str>) -> Option<Seq<u8>> {
    match header {
        Some(h) => Some(h.spec_bytes()),
        None => None,
    }
}

/// Takes the token out of an `Authorization` header value.
pub fn bearer_credential<'a>(header: Option<&'a str>) -> (r: Result<&'a [u8], AuthError>)
    ensures
        r matches Ok(t) ==> credential(header_bytes(header)) == Some(t@),
        r is Err ==> credential(header_bytes(header)) is None && r == Err::<&[u8], AuthError>(
            AuthError::MissingCredential,
        ),
{
    let h = match header {
        Some(h) => h.as_bytes(),
        None => return Err(AuthError::MissingCredential),
    };
    if h.len() <= 7 {
        return Err(AuthError::MissingCredential);
    }
    let prefix: [u8; 7] = [66, 101, 97, 114, 101, 114, 32];
    let mut k: usize = 0;
    while k < 7
        invariant
            k <= 7,
            h@.len() > 7,
            header_bytes(header) == Some(h@),
            prefix@ == bearer_prefix(),
            forall|m: int| 0 <= m < k ==> h@[m] == bearer_prefix()[m],
        decreases 7 - k,
    {
        if h[k] != prefix[k] {
            assert(h@.subrange(0, 7)[k as int] != bearer_prefix()[k as int]);
            return Err(AuthError::MissingCredential);
        }
        k = k + 1;
    }
    assert(h@.subrange(0, 7) == bearer_prefix());
    Ok(slice_subrange(h, 7, h.len()))
}

/// What validating token `t` against key set `keys` gives.
pub open spec fn token_outcome(cfg: ConfigView, t: Seq<u8>, keys: Seq<JwkView>, now: u64) -> Result<ClaimsView, AuthError> {
    match decoded(t) {
        None => Err(AuthError::MalformedToken),
        Some(d) => match key_for(keys, d.kid) {
            None => Err(AuthError::KeyNotFound),
            Some(k) => validation(cfg, d, k, now),
        },
    }
}

pub open spec fn principal_result(r: Result<ClaimsView, AuthError>) -> Result<PrincipalView, AuthError> {
    match r {
        Ok(c) => Ok(principal_of(c)),
        Err(e) => Err(e),
    }
}

pub open spec fn user_result_view(r: Result<AuthenticatedUser, AuthError>) -> Result<PrincipalView, AuthError> {
    match r {
        Ok(u) => Ok(u@),
        Err(e) => Err(e),
    }
}

/// The decision on a request, in the model.
pub enum GateOutcome {
    /// The request is decided: a principal or a rejection.
    Done(Result<PrincipalView, AuthError>),
    /// The cached key set lacks the key of token `d`: fetch once, resume.
    Refresh(DecodedView),
}

/// The decision on header `header`, with configuration `cfg` (if
/// any is reachable) and cached key set `cache`, at time `now`.
pub open spec fn gate(header: Option<Seq<u8>>, cfg: Option<ConfigView>, cache: Seq<JwkView>, now: u64) -> GateOutcome {
    match credential(header) {
        None => GateOutcome::Done(Err(AuthError::MissingCredential)),
        Some(t) => match cfg {
            None => GateOutcome::Done(Err(AuthError::ConfigurationMissing)),
            Some(c) => match decoded(t) {
                None => GateOutcome::Done(Err(AuthError::MalformedToken)),
                Some(d) => match key_for(cache, d.kid) {
                    None => GateOutcome::Refresh(d),
                    Some(k) => GateOutcome::Done(principal_result(validation(c, d, k, now))),
                },
            },
        },
    }
}

/// The outcome once the caller's one refresh is over: `fetched` is the new
/// key set, or `None` where fetching or parsing it failed.
pub open spec fn after_refresh(cfg: ConfigView, d: DecodedView, fetched: Option<Seq<JwkView>>, now: u64) -> Result<PrincipalView, AuthError> {
    match fetched {
        None => Err(AuthError::KeySetFetchFailed),
        Some(keys) => match key_for(keys, d.kid) {
            None => Err(AuthError::KeyNotFound),
            Some(k) => principal_result(validation(cfg, d, k, now)),
        },
    }
}

/// A token whose key the cache lacked, kept while the caller refreshes.
pub struct PendingToken {
    token: DecodedToken,
}

impl PendingToken {
    pub closed spec fn token_view(&self) -> DecodedView {
        self.token@
    }
}

/// What authentication hands back to the request pipeline.
pub enum GateStep {
    Done(Result<AuthenticatedUser, AuthError>),
    /// Fetch the key set once, then call `resume`.
    Refresh(PendingToken),
}

pub open spec fn step_view(s: GateStep) -> GateOutcome {
    match s {
        GateStep::Done(r) => GateOutcome::Done(user_result_view(r)),
        GateStep::Refresh(p) => GateOutcome::Refresh(p.token_view()),
    }
}

pub open spec fn config_view(cfg: Option<&AuthConfig>) -> Option<ConfigView> {
    match cfg {
        Some(c) => Some(c@),
        None => None,
    }
}

fn principal_from(r: Result<JwtClaims, AuthError>) -> (u: Result<AuthenticatedUser, AuthError>)
    ensures
        user_result_view(u) == principal_result(crate::auth::claims_result_view(r)),
{
    match r {
        Ok(c) => Ok(AuthenticatedUser::from_claims(c)),
        Err(e) => Err(e),
    }
}

impl AuthConfig {
    /// Validates `token` against the key set `keys` and returns its claims;
    /// a key identifier that `keys` lacks fails with `KeyNotFound`.
    pub fn validate_token(&self, token: &str, keys: &KeySet, now: u64) -> (r: Result<JwtClaims, AuthError>)
        ensures
            crate::auth::claims_result_view(r) == token_outcome(self@, token.spec_bytes(), keys@, now),
    {
        let d = match decode_token(token.as_bytes()) {
            Ok(d) => d,
            Err(e) => return Err(e),
        };
        match keys.position(&d.header.kid) {
            None => Err(AuthError::KeyNotFound),
            Some(i) => self.check_token(&d, &keys.keys[i], now),
        }
    }
}

/// Decides a request from its `Authorization` header value, the reachable
/// configuration and the cached key set, without any network access.
pub fn authenticate(header: Option<&str>, config: Option<&AuthConfig>, cache: &KeySet, now: u64) -> (r: GateStep)
    ensures
        step_view(r) == gate(header_bytes(header), config_view(config), cache@, now),
{
    let t = match bearer_credential(header) {
        Ok(t) => t,
        Err(e) => return GateStep::Done(Err(e)),
    };
    let cfg = match config {
        Some(c) => c,
        None => return GateStep::Done(Err(AuthError::ConfigurationMissing)),
    };
    let d = match decode_token(t) {
        Ok(d) => d,
        Err(e) => return GateStep::Done(Err(e)),
    };
    match cache.position(&d.header.kid) {
        None => GateStep::Refresh(PendingToken { token: d }),
        Some(i) => GateStep::Done(principal_from(cfg.check_token(&d, &cache.keys[i], now))),
    }
}

/// Finishes a request that waited for a refresh: `fetched` is the key set
/// just fetched, or `None` if fetching or parsing it failed. No further
/// refresh is ever asked for.
pub fn resume(config: &AuthConfig, pending: &PendingToken, fetched: Option<&KeySet>, now: u64) -> (r: Result<AuthenticatedUser, AuthError>)
    ensures
        user_result_view(r) == after_refresh(
            config@,
            pending.token_view(),
            match fetched {
                Some(k) => Some(k@),
                None => None,
            },
            now,
        ),
{
    let keys = match fetched {
        Some(k) => k,
        None => return Err(AuthError::KeySetFetchFailed),
    };
    let d = &pending.token;
    match keys.position(&d.header.kid) {
        None => Err(AuthError::KeyNotFound),
        Some(i) => principal_from(config.check_token(d, &keys.keys[i], now)),
    }
}

} // verus!
