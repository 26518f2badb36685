//! Properties of request authentication as a whole, proved from the models that the
//! executable functions' contracts are stated in.
use crate::auth::{
    alg_agrees, audience_ok, principal_of, signature_holds, unexpired, validation, ConfigView,
};
use crate::claims::claims_from_json;
use crate::error::{AuthError, ClaimKind};
use crate::gate::{after_refresh, bearer_prefix, credential, gate, GateOutcome};
use crate::keys::{key_for, JwkView};
use crate::token::decoded;
use vstd::prelude::*;

verus! {

/// A token signed by the key its header names, present in the cached key
/// set, with the configured issuer, an unexpired `exp`, an audience that
/// passes the audience check and a header algorithm that the key allows,
/// yields a principal whose subject is the token's subject.
pub proof fn lemma_valid_token_yields_principal(
    header: Seq<u8>,
    cfg: ConfigView,
    cache: Seq<JwkView>,
    now: u64,
)
    requires
        ({
            &&& credential(Some(header)) matches Some(t)
            &&& decoded(t) matches Some(d)
            &&& key_for(cache, d.kid) matches Some(k)
            &&& alg_agrees(k, d.alg)
            &&& signature_holds(k, d.alg, d.signing_input, d.signature)
            &&& claims_from_json(d.payload) matches Some(c)
            &&& c.iss == cfg.issuer
            &&& unexpired(c.exp, cfg.leeway, now)
            &&& audience_ok(cfg.audience, c.aud)
        }),
    ensures
        ({
            let d = decoded(credential(Some(header))->0)->0;
            let c = claims_from_json(d.payload)->0;
            &&& gate(Some(header), Some(cfg), cache, now) == GateOutcome::Done(
                Ok::<_, AuthError>(principal_of(c)),
            )
            &&& principal_of(c).sub == c.sub
        }),
{
}

/// Once the token's key is resolved, a signature that does not verify is
/// rejected with `SignatureInvalid`, whatever the claims say.
pub proof fn lemma_bad_signature_rejected(
    header: Seq<u8>,
    cfg: ConfigView,
    cache: Seq<JwkView>,
    now: u64,
)
    requires
        ({
            &&& credential(Some(header)) matches Some(t)
            &&& decoded(t) matches Some(d)
            &&& key_for(cache, d.kid) matches Some(k)
            &&& !signature_holds(k, d.alg, d.signing_input, d.signature)
        }),
    ensures
        gate(Some(header), Some(cfg), cache, now) == GateOutcome::Done(
            Err::<crate::auth::PrincipalView, _>(AuthError::SignatureInvalid),
        ),
{
}

/// A token whose expiry, leeway included, is not after `now` is rejected
/// with a claim-invalid outcome even when its signature verifies, whether
/// its key was cached or just fetched.
pub proof fn lemma_expired_token_rejected(
    header: Seq<u8>,
    cfg: ConfigView,
    keys: Seq<JwkView>,
    now: u64,
)
    requires
        ({
            &&& credential(Some(header)) matches Some(t)
            &&& decoded(t) matches Some(d)
            &&& key_for(keys, d.kid) matches Some(k)
            &&& alg_agrees(k, d.alg)
            &&& signature_holds(k, d.alg, d.signing_input, d.signature)
            &&& claims_from_json(d.payload) matches Some(c)
            &&& c.exp + cfg.leeway <= now
        }),
    ensures
        ({
            let d = decoded(credential(Some(header))->0)->0;
            &&& gate(Some(header), Some(cfg), keys, now) matches GateOutcome::Done(
                Err(AuthError::ClaimInvalid(_)),
            )
            &&& after_refresh(cfg, d, Some(keys), now) matches Err(AuthError::ClaimInvalid(_))
        }),
{
}

/// A token whose issuer differs from the configured one is rejected with
/// `ClaimInvalid(Issuer)` even with a valid signature and an unexpired
/// `exp`, whether its key was cached or just fetched.
pub proof fn lemma_wrong_issuer_rejected(
    header: Seq<u8>,
    cfg: ConfigView,
    keys: Seq<JwkView>,
    now: u64,
)
    requires
        ({
            &&& credential(Some(header)) matches Some(t)
            &&& decoded(t) matches Some(d)
            &&& key_for(keys, d.kid) matches Some(k)
            &&& alg_agrees(k, d.alg)
            &&& signature_holds(k, d.alg, d.signing_input, d.signature)
            &&& claims_from_json(d.payload) matches Some(c)
            &&& c.iss != cfg.issuer
        }),
    ensures
        ({
            let d = decoded(credential(Some(header))->0)->0;
            let e = AuthError::ClaimInvalid(ClaimKind::Issuer);
            &&& gate(Some(header), Some(cfg), keys, now) == GateOutcome::Done(
                Err::<crate::auth::PrincipalView, _>(e),
            )
            &&& after_refresh(cfg, d, Some(keys), now) == Err::<crate::auth::PrincipalView, _>(e)
        }),
{
}

/// A key identifier missing from the cache leads to exactly one refresh:
/// authentication asks for it, and what follows it never asks again. If the
/// fresh set lacks the key too the outcome is `KeyNotFound`; if it has the
/// key, the same request against the fresh set as the new cache is decided
/// without another fetch, and with the same outcome.
pub proof fn lemma_single_refresh_on_miss(
    header: Seq<u8>,
    cfg: ConfigView,
    cache: Seq<JwkView>,
    fresh: Seq<JwkView>,
    now: u64,
)
    requires
        ({
            &&& credential(Some(header)) matches Some(t)
            &&& decoded(t) matches Some(d)
            &&& key_for(cache, d.kid) is None
        }),
    ensures
        ({
            let d = decoded(credential(Some(header))->0)->0;
            &&& gate(Some(header), Some(cfg), cache, now) == GateOutcome::Refresh(d)
            &&& key_for(fresh, d.kid) is None ==> after_refresh(cfg, d, Some(fresh), now) == Err::<
                crate::auth::PrincipalView,
                _,
            >(AuthError::KeyNotFound)
            &&& key_for(fresh, d.kid) is Some ==> gate(Some(header), Some(cfg), fresh, now)
                == GateOutcome::Done(after_refresh(cfg, d, Some(fresh), now))
        }),
{
}

/// Against a cache that holds the token's key, authentication decides at once:
/// it never asks for a fetch.
pub proof fn lemma_warm_cache_never_fetches(
    header: Option<Seq<u8>>,
    cfg: Option<ConfigView>,
    cache: Seq<JwkView>,
    now: u64,
)
    requires
        credential(header) matches Some(t) && decoded(t) matches Some(d) ==> key_for(
            cache,
            d.kid,
        ) is Some,
    ensures
        gate(header, cfg, cache, now) is Done,
{
}

/// A request without an `Authorization` header, or with one that does not
/// start with `Bearer `, is rejected with `MissingCredential`.
pub proof fn lemma_missing_bearer_rejected(
    header: Option<Seq<u8>>,
    cfg: Option<ConfigView>,
    cache: Seq<JwkView>,
    now: u64,
)
    requires
        header matches Some(h) ==> h.len() < 7 || h.subrange(0, 7) != bearer_prefix(),
    ensures
        gate(header, cfg, cache, now) == GateOutcome::Done(
            Err::<crate::auth::PrincipalView, _>(AuthError::MissingCredential),
        ),
{
}

/// A principal only ever comes out of claims that passed validation against
/// the key the token names, whether that key was cached or just fetched.
pub proof fn lemma_principal_only_from_validated_claims(
    header: Option<Seq<u8>>,
    cfg: Option<ConfigView>,
    cache: Seq<JwkView>,
    fresh: Option<Seq<JwkView>>,
    now: u64,
)
    ensures
        gate(header, cfg, cache, now) matches GateOutcome::Done(Ok(p)) ==> ({
            &&& credential(header) matches Some(t)
            &&& cfg matches Some(c)
            &&& decoded(t) matches Some(d)
            &&& key_for(cache, d.kid) matches Some(k)
            &&& validation(c, d, k, now) matches Ok(claims)
            &&& p == principal_of(claims)
        }),
        gate(header, cfg, cache, now) matches GateOutcome::Refresh(d) ==> (after_refresh(
            cfg->0,
            d,
            fresh,
            now,
        ) matches Ok(p) ==> ({
            &&& fresh matches Some(keys)
            &&& key_for(keys, d.kid) matches Some(k)
            &&& validation(cfg->0, d, k, now) matches Ok(claims)
            &&& p == principal_of(claims)
        })),
{
}

} // verus!
