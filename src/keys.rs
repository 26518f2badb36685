//! The key set an identity provider publishes, and lookup by key identifier.
use crate::crypto::same_text;
use crate::error::AuthError;
use crate::wire::{json_array_items_at, json_array_items_member, json_string_at, json_string_member};
use vstd::prelude::*;

verus! {

/// The public key material of a verification key, as base64url text.
pub enum KeyMaterial {
    Rsa { n: String, e: String },
    Ec { x: String, y: String },
}

/// One verification key of a key set.
pub struct Jwk {
    pub kid: String,
    /// The algorithm the provider declares for this key, if any.
    pub alg: Option<String>,
    pub material: KeyMaterial,
}

pub enum MaterialView {
    Rsa { n: Seq<char>, e: Seq<char> },
    Ec { x: Seq<char>, y: Seq<char> },
}

pub struct JwkView {
    pub kid: Seq<char>,
    pub alg: Option<Seq<char>>,
    pub material: MaterialView,
}

impl View for KeyMaterial {
    type V = MaterialView;

    open spec fn view(&self) -> MaterialView {
        match self {
            KeyMaterial::Rsa { n, e } => MaterialView::Rsa { n: n@, e: e@ },
            KeyMaterial::Ec { x, y } => MaterialView::Ec { x: x@, y: y@ },
        }
    }
}

impl View for Jwk {
    type V = JwkView;

    open spec fn view(&self) -> JwkView {
        JwkView {
            kid: self.kid@,
            alg: match self.alg {
                Some(a) => Some(a@),
                None => None,
            },
            material: self.material@,
        }
    }
}

/// A key set: the keys in the order the provider listed them.
pub struct KeySet {
    pub keys: Vec<Jwk>,
}

impl View for KeySet {
    type V = Seq<JwkView>;

    open spec fn view(&self) -> Seq<JwkView> {
        self.keys@.map_values(|k: Jwk| k@)
    }
}

/// The verification key that the JSON object `obj` describes: it needs a
/// key identifier, a use of `sig` if it names a use at all, and the
/// public parameters of an RSA or EC key. Others are passed over.
pub open spec fn key_from_json(obj: Seq<u8>) -> Option<JwkView> {
    let kid = json_string_at(obj, "kid"@);
    let key_use = json_string_at(obj, "use"@);
    let kty = json_string_at(obj, "kty"@);
    let alg = json_string_at(obj, "alg"@);
    if kid is None || (key_use matches Some(u) && u != "sig"@) {
        None
    } else if kty == Some("RSA"@) {
        match (json_string_at(obj, "n"@), json_string_at(obj, "e"@)) {
            (Some(n), Some(e)) => Some(JwkView { kid: kid->0, alg, material: MaterialView::Rsa { n, e } }),
            _ => None,
        }
    } else if kty == Some("EC"@) {
        match (json_string_at(obj, "x"@), json_string_at(obj, "y"@)) {
            (Some(x), Some(y)) => Some(JwkView { kid: kid->0, alg, material: MaterialView::Ec { x, y } }),
            _ => None,
        }
    } else {
        None
    }
}

/// The usable keys among the JSON objects `objs`, in order.
pub open spec fn keys_from_json(objs: Seq<Seq<u8>>) -> Seq<JwkView>
    decreases objs.len(),
{
    if objs.len() == 0 {
        Seq::empty()
    } else {
        let rest = keys_from_json(objs.drop_last());
        match key_from_json(objs.last()) {
            Some(k) => rest.push(k),
            None => rest,
        }
    }
}

/// The key set that a key-set document `body` holds: the usable keys of its
/// `keys` array.
pub open spec fn key_set_from_json(body: Seq<u8>) -> Option<Seq<JwkView>> {
    match json_array_items_at(body, "keys"@) {
        Some(objs) => Some(keys_from_json(objs)),
        None => None,
    }
}

/// The first key of `keys` with identifier `kid`.
pub open spec fn key_for(keys: Seq<JwkView>, kid: Seq<char>) -> Option<JwkView>
    decreases keys.len(),
{
    if keys.len() == 0 {
        None
    } else if keys[0].kid == kid {
        Some(keys[0])
    } else {
        key_for(keys.drop_first(), kid)
    }
}

/// Reads one key out of a JSON object.
fn key_from_object(obj: &[u8]) -> (r: Option<Jwk>)
    ensures
        r matches Some(k) ==> key_from_json(obj@) == Some(k@),
        r is None ==> key_from_json(obj@) is None,
{
    let kid = json_string_member(obj, "kid");
    let key_use = json_string_member(obj, "use");
    let kty = json_string_member(obj, "kty");
    let alg = json_string_member(obj, "alg");
    let kid = match kid {
        Some(k) => k,
        None => return None,
    };
    if let Some(u) = &key_use {
        if !same_text(u, "sig") {
            return None;
        }
    }
    let kty = match kty {
        Some(t) => t,
        None => return None,
    };
    if same_text(&kty, "RSA") {
        match (json_string_member(obj, "n"), json_string_member(obj, "e")) {
            (Some(n), Some(e)) => Some(Jwk { kid, alg, material: KeyMaterial::Rsa { n, e } }),
            _ => None,
        }
    } else if same_text(&kty, "EC") {
        match (json_string_member(obj, "x"), json_string_member(obj, "y")) {
            (Some(x), Some(y)) => Some(Jwk { kid, alg, material: KeyMaterial::Ec { x, y } }),
            _ => None,
        }
    } else {
        None
    }
}

impl KeySet {
    /// A key set with no keys: what the cache holds before the first fetch.
    pub fn empty() -> (r: KeySet)
        ensures
            r@ == Seq::<JwkView>::empty(),
    {
        KeySet { keys: Vec::new() }
    }

    /// Parses a key-set document; a body that is not one fails with
    /// `KeySetFetchFailed`.
    pub fn parse(body: &[u8]) -> (r: Result<KeySet, AuthError>)
        ensures
            r matches Ok(ks) ==> key_set_from_json(body@) == Some(ks@),
            r is Err ==> key_set_from_json(body@) is None && r == Err::<KeySet, AuthError>(
                AuthError::KeySetFetchFailed,
            ),
    {
        let objs = match json_array_items_member(body, "keys") {
            Some(o) => o,
            None => return Err(AuthError::KeySetFetchFailed),
        };
        let mut keys: Vec<Jwk> = Vec::new();
        let mut i: usize = 0;
        while i < objs.len()
            invariant
                i <= objs@.len(),
                keys@.map_values(|k: Jwk| k@) == keys_from_json(
                    objs@.subrange(0, i as int).map_values(|b: Vec<u8>| b@),
                ),
            decreases objs.len() - i,
        {
            let ghost before = objs@.subrange(0, i as int).map_values(|b: Vec<u8>| b@);
            let ghost after = objs@.subrange(0, i + 1).map_values(|b: Vec<u8>| b@);
            assert(after.drop_last() == before);
            assert(after.last() == objs@[i as int]@);
            match key_from_object(objs[i].as_slice()) {
                Some(k) => {
                    keys.push(k);
                },
                None => {},
            }
            i = i + 1;
        }
        assert(objs@.subrange(0, objs@.len() as int) == objs@);
        Ok(KeySet { keys })
    }

    /// The position of the first key with identifier `kid`.
    pub fn position(&self, kid: &String) -> (r: Option<usize>)
        ensures
            r matches Some(i) ==> i < self.keys@.len() && key_for(self@, kid@) == Some(
                self@[i as int],
            ),
            r is None ==> key_for(self@, kid@) is None,
    {
        let mut i: usize = 0;
        assert(self@.subrange(0, self@.len() as int) == self@);
        while i < self.keys.len()
            invariant
                i <= self.keys@.len(),
                key_for(self@, kid@) == key_for(self@.subrange(i as int, self@.len() as int), kid@),
            decreases self.keys.len() - i,
        {
            let ghost rest = self@.subrange(i as int, self@.len() as int);
            assert(rest.drop_first() == self@.subrange(i + 1, self@.len() as int));
            if self.keys[i].kid == *kid {
                return Some(i);
            }
            i = i + 1;
        }
        None
    }

    /// Whether a key with identifier `kid` is present.
    pub fn contains(&self, kid: &String) -> (r: bool)
        ensures
            r == (key_for(self@, kid@) is Some),
    {
        self.position(kid).is_some()
    }
}

} // verus!
