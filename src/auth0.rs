use crate::error::Error;
use crate::json::{field, get_field, get_text, get_text_list, json_of, parse_json, string_views, text_list_of, text_of, Json, json_of_text};
use vstd::prelude::*;

verus! {

/// A signature-verification key, as jsonwebtoken holds it.
#[verifier::external_type_specification]
#[verifier::external_body]
pub struct ExDecodingKey(jsonwebtoken::DecodingKey);

/// The checks that jsonwebtoken applies to a token.
#[verifier::external_type_specification]
#[verifier::external_body]
pub struct ExValidation(jsonwebtoken::Validation);

/// The public-key material of one signing key.
#[derive(Debug)]
pub enum KeyMaterial {
    /// An RSA public key: base64url modulus and exponent.
    Rsa { modulus: String, exponent: String },
    /// A key of any other algorithm family; tokens never verify against it.
    Unsupported,
}

/// One entry of a signing-key document.
#[derive(Debug)]
pub struct JwkEntry {
    pub kid: Option<String>,
    pub material: KeyMaterial,
}

/// The claims carried by a verified bearer token.
#[derive(Debug)]
pub struct AuthClaims {
    pub sub: String,
    pub permissions: Vec<String>,
}

/// The entries of the key-set document `text`, in document order, or `None`
/// when it is not a key set.
pub uninterp spec fn key_set_entries(text: Seq<char>) -> Option<Seq<JwkEntry>>;

/// The claims in the payload of `token`: its middle part, base64url-decoded
/// and read as JSON; `None` when that fails. Nothing is verified.
pub uninterp spec fn token_claims(token: Seq<char>) -> Option<Json>;

/// The key identifier that the header of `token` names, or `None` when the
/// header does not decode or names none.
pub uninterp spec fn header_kid(token: Seq<char>) -> Option<Seq<char>>;

/// The keys of a list of entries by identifier; of two entries with one
/// identifier the later wins, and entries without one are not keys.
pub open spec fn key_map(entries: Seq<JwkEntry>) -> Map<Seq<char>, KeyMaterial>
    decreases entries.len(),
{
    if entries.len() == 0 {
        Map::empty()
    } else {
        let rest = key_map(entries.drop_last());
        match entries.last().kid {
            Some(k) => rest.insert(k@, entries.last().material),
            None => rest,
        }
    }
}

/// Every entry names its key.
pub open spec fn all_identified(entries: Seq<JwkEntry>) -> bool {
    forall|i: int| 0 <= i < entries.len() ==> (#[trigger] entries[i]).kid is Some
}

/// `keys` holds an RSA key under `kid`.
pub open spec fn has_rsa_key(keys: Map<Seq<char>, KeyMaterial>, kid: Seq<char>) -> bool {
    keys.contains_key(kid) && keys[kid] is Rsa
}

/// Relies on `serde_json::from_str` into jsonwebtoken's `JwkSet`: the
/// document's keys, each with its key identifier and, for RSA keys, the
/// modulus and exponent; `None` when the text is not a key set.
#[verifier::external_body]
fn parse_key_set(text: &str) -> (r: Option<Vec<JwkEntry>>)
    ensures
        match r {
            Some(v) => key_set_entries(text@) == Some(v@),
            None => key_set_entries(text@) is None,
        },
{
    let set: jsonwebtoken::jwk::JwkSet = serde_json::from_str(text).ok()?;
    Some(set.keys.into_iter().map(|jwk| JwkEntry {
        kid: jwk.common.key_id,
        material: match jwk.algorithm {
            jsonwebtoken::jwk::AlgorithmParameters::RSA(rsa) => KeyMaterial::Rsa {
                modulus: rsa.n,
                exponent: rsa.e,
            },
            _ => KeyMaterial::Unsupported,
        },
    }).collect())
}

/// Relies on `jsonwebtoken::decode_header`: the key identifier in the
/// token's header, read without verifying anything.
#[verifier::external_body]
fn header_key_id(token: &str) -> (r: Option<String>)
    ensures
        match r {
            Some(k) => header_kid(token@) == Some(k@),
            None => header_kid(token@) is None,
        },
{
    jsonwebtoken::decode_header(token).ok().and_then(|h| h.kid)
}

/// Relies on `DecodingKey::from_rsa_components`: an RSA key from base64url
/// modulus and exponent; `None` when either does not decode.
#[verifier::external_body]
fn rsa_decoding_key(modulus: &str, exponent: &str) -> (r: Option<jsonwebtoken::DecodingKey>) {
    jsonwebtoken::DecodingKey::from_rsa_components(modulus, exponent).ok()
}

/// Relies on `Validation::new` with RS256: RS256 signatures only, expiry
/// required and checked with 60 s leeway, and audience checking on with no
/// audience expected, so that a token carrying an `aud` claim is refused.
#[verifier::external_body]
fn rs256_validation() -> (r: jsonwebtoken::Validation) {
    jsonwebtoken::Validation::new(jsonwebtoken::Algorithm::RS256)
}

/// Relies on `jsonwebtoken::decode` into `serde_json::Value`, converted by
/// `json_of`: when the token's signature verifies under `key` and its claims
/// pass `validation` (which reads the current time), the claims of its
/// payload; `None` otherwise.
#[verifier::external_body]
fn verified_claims(
    token: &str,
    key: &jsonwebtoken::DecodingKey,
    validation: &jsonwebtoken::Validation,
) -> (r: Option<Json>)
    ensures
        r matches Some(j) ==> token_claims(token@) == Some(j),
{
    jsonwebtoken::decode::<serde_json::Value>(token, key, validation).ok().map(|d| json_of(d.claims))
}

/// The subject and the permission list of a claims object: `sub` must be a
/// string and `permissions` an array of strings.
pub open spec fn claims_spec(j: Json) -> Option<(Seq<char>, Seq<Seq<char>>)> {
    match field(j, "sub"@) {
        Some(sub) => match (text_of(sub), field(j, "permissions"@)) {
            (Some(subject), Some(listed)) => match text_list_of(listed) {
                Some(permissions) => Some((subject, permissions)),
                None => None,
            },
            _ => None,
        },
        None => None,
    }
}

/// `c` holds the subject and permissions of the claims in `token`'s payload,
/// verbatim and in order.
pub open spec fn claims_of_token(token: Seq<char>, c: AuthClaims) -> bool {
    match token_claims(token) {
        Some(j) => claims_spec(j) == Some((c.sub@, string_views(c.permissions@))),
        None => false,
    }
}

/// The token's access token in a management-API answer: the `access_token`
/// member of the JSON object `body` holds, when it is a string.
pub open spec fn access_token_spec(body: Seq<char>) -> Option<Seq<char>> {
    match json_of_text(body) {
        Some(j) => match field(j, "access_token"@) {
            Some(t) => text_of(t),
            None => None,
        },
        None => None,
    }
}

/// The subject and the permission list of a claims object, verbatim; `None`
/// unless `sub` is a string and `permissions` an array of strings.
pub fn claims_of_json(j: &Json) -> (r: Option<AuthClaims>)
    ensures
        match r {
            Some(c) => claims_spec(*j) == Some((c.sub@, string_views(c.permissions@))),
            None => claims_spec(*j) is None,
        },
{
    let sub = match get_field(j, "sub") {
        Some(s) => match get_text(s) {
            Some(t) => t,
            None => return None,
        },
        None => return None,
    };
    let permissions = match get_field(j, "permissions") {
        Some(p) => match get_text_list(p) {
            Some(v) => v,
            None => return None,
        },
        None => return None,
    };
    Some(AuthClaims { sub, permissions })
}

/// A client of the identity provider: its domain and credentials, and the
/// provider's signing keys once loaded.
#[derive(Debug)]
pub struct Client {
    domain: String,
    client_id: String,
    client_secret: String,
    jwk_cache: Vec<JwkEntry>,
}

impl Client {
    /// The provider's domain.
    pub closed spec fn spec_domain(&self) -> Seq<char> {
        self.domain@
    }

    /// The client identifier used with the provider.
    pub closed spec fn spec_client_id(&self) -> Seq<char> {
        self.client_id@
    }

    /// The client secret used with the provider.
    pub closed spec fn spec_client_secret(&self) -> Seq<char> {
        self.client_secret@
    }

    /// The signing keys by key identifier.
    pub closed spec fn spec_keys(&self) -> Map<Seq<char>, KeyMaterial> {
        key_map(self.jwk_cache@)
    }

    /// A client with no signing keys yet.
    pub fn new(domain: String, client_id: String, client_secret: String) -> (r: Self)
        ensures
            r.spec_domain() == domain@,
            r.spec_client_id() == client_id@,
            r.spec_client_secret() == client_secret@,
            r.spec_keys() == Map::<Seq<char>, KeyMaterial>::empty(),
    {
        Client { domain, client_id, client_secret, jwk_cache: Vec::new() }
    }

    /// Where the provider publishes its signing keys.
    pub fn jwks_url(&self) -> (r: String)
        ensures
            r@ == "https://"@ + self.spec_domain() + "/.well-known/jwks.json"@,
    {
        let mut url = String::from_str("https://");
        url.append(self.domain.as_str());
        url.append("/.well-known/jwks.json");
        url
    }

    /// Where the provider issues management-API access tokens.
    pub fn management_token_url(&self) -> (r: String)
        ensures
            r@ == "https://"@ + self.spec_domain() + "/oauth/token"@,
    {
        let mut url = String::from_str("https://");
        url.append(self.domain.as_str());
        url.append("/oauth/token");
        url
    }

    /// The form of a client-credentials grant for the management API:
    /// client identifier, client secret, audience and grant type, in order.
    pub fn management_token_form(&self) -> (r: Vec<(String, String)>)
        ensures
            r@.len() == 4,
            r@[0].0@ == "client_id"@ && r@[0].1@ == self.spec_client_id(),
            r@[1].0@ == "client_secret"@ && r@[1].1@ == self.spec_client_secret(),
            r@[2].0@ == "audience"@ && r@[2].1@ == "https://"@ + self.spec_domain() + "/api/v2/"@,
            r@[3].0@ == "grant_type"@ && r@[3].1@ == "client_credentials"@,
    {
        let mut audience = String::from_str("https://");
        audience.append(self.domain.as_str());
        audience.append("/api/v2/");
        let mut form: Vec<(String, String)> = Vec::new();
        form.push((String::from_str("client_id"), self.client_id.clone()));
        form.push((String::from_str("client_secret"), self.client_secret.clone()));
        form.push((String::from_str("audience"), audience));
        form.push((String::from_str("grant_type"), String::from_str("client_credentials")));
        form
    }

    /// The access token in the provider's answer to a client-credentials
    /// grant: the `access_token` string of the JSON object; `Auth0` when the
    /// answer is not JSON or holds no such string.
    pub fn management_access_token(body: &str) -> (r: Result<String, Error>)
        ensures
            match access_token_spec(body@) {
                Some(t) => r matches Ok(s) && s@ == t,
                None => r matches Err(e) && e is Auth0,
            },
    {
        match parse_json(body) {
            Some(v) => match get_field(&v, "access_token") {
                Some(t) => match get_text(t) {
                    Some(token) => Ok(token),
                    None => Err(Error::Auth0),
                },
                None => Err(Error::Auth0),
            },
            None => Err(Error::Auth0),
        }
    }

    /// Replaces the signing keys with `entries` when every entry names its
    /// key; otherwise keeps the keys as they were, so that no partial key set
    /// is ever in use.
    pub fn install_keys(&mut self, entries: Vec<JwkEntry>) -> (r: Result<(), Error>)
        ensures
            final(self).spec_domain() == old(self).spec_domain(),
            final(self).spec_client_id() == old(self).spec_client_id(),
            final(self).spec_client_secret() == old(self).spec_client_secret(),
            if all_identified(entries@) {
                r is Ok && final(self).spec_keys() == key_map(entries@)
            } else {
                r matches Err(Error::MissingKeyId)
                    && final(self).spec_keys() == old(self).spec_keys()
            },
    {
        let mut i: usize = 0;
        while i < entries.len()
            invariant
                i <= entries.len(),
                forall|j: int| 0 <= j < i ==> (#[trigger] entries@[j]).kid is Some,
            decreases entries.len() - i,
        {
            if entries[i].kid.is_none() {
                assert(!all_identified(entries@)) by {
                    assert(entries@[i as int].kid is None);
                }
                return Err(Error::MissingKeyId);
            }
            i += 1;
        }
        self.jwk_cache = entries;
        Ok(())
    }

    /// Replaces the signing keys with those of the key-set document `text`.
    /// The document must parse and every entry must name its key; otherwise
    /// nothing is loaded and the keys stay as they were.
    pub fn load_jwk(&mut self, text: &str) -> (r: Result<(), Error>)
        ensures
            final(self).spec_domain() == old(self).spec_domain(),
            final(self).spec_client_id() == old(self).spec_client_id(),
            final(self).spec_client_secret() == old(self).spec_client_secret(),
            match key_set_entries(text@) {
                None => r matches Err(Error::MalformedKeySet)
                    && final(self).spec_keys() == old(self).spec_keys(),
                Some(entries) => if all_identified(entries) {
                    r is Ok && final(self).spec_keys() == key_map(entries)
                } else {
                    r matches Err(Error::MissingKeyId)
                        && final(self).spec_keys() == old(self).spec_keys()
                },
            },
    {
        match parse_key_set(text) {
            Some(entries) => self.install_keys(entries),
            None => Err(Error::MalformedKeySet),
        }
    }

    /// The signing key named `kid`, if loaded. A pure read.
    pub fn lookup(&self, kid: &str) -> (r: Option<&KeyMaterial>)
        ensures
            match r {
                Some(m) => self.spec_keys().contains_key(kid@) && *m == self.spec_keys()[kid@],
                None => !self.spec_keys().contains_key(kid@),
            },
    {
        let wanted = kid.to_owned();
        let entries = &self.jwk_cache;
        let ghost all = entries@;
        let mut i: usize = entries.len();
        assert(all.take(i as int) =~= all);
        while i > 0
            invariant
                i <= all.len(),
                all == entries@,
                all == self.jwk_cache@,
                wanted@ == kid@,
                key_map(all).contains_key(kid@) == key_map(all.take(i as int)).contains_key(kid@),
                key_map(all).contains_key(kid@) ==> key_map(all)[kid@] == key_map(
                    all.take(i as int),
                )[kid@],
            decreases i,
        {
            let j = i - 1;
            assert(all.take(i as int).drop_last() =~= all.take(j as int));
            assert(all.take(i as int).last() == all[j as int]);
            match &entries[j].kid {
                Some(k) => {
                    if *k == wanted {
                        return Some(&entries[j].material);
                    }
                },
                None => {},
            }
            i = j;
        }
        None
    }

    /// Verifies `token` against the signing key named `kid` and returns its
    /// claims. Every failure is the same `Unauthorized`: an unknown key, a
    /// key that is not RSA, and a token whose signature or claims fail.
    pub fn decode_token(&self, kid: String, token: &str) -> (r: Result<AuthClaims, Error>)
        ensures
            r matches Err(e) ==> e is Unauthorized,
            r matches Ok(c) ==> claims_of_token(token@, c),
            !has_rsa_key(self.spec_keys(), kid@) ==> r is Err,
    {
        match self.lookup(kid.as_str()) {
            Some(KeyMaterial::Rsa { modulus, exponent }) => {
                let key = match rsa_decoding_key(modulus.as_str(), exponent.as_str()) {
                    Some(k) => k,
                    None => return Err(Error::Unauthorized),
                };
                let validation = rs256_validation();
                match verified_claims(token, &key, &validation) {
                    Some(v) => match claims_of_json(&v) {
                        Some(c) => Ok(c),
                        None => Err(Error::Unauthorized),
                    },
                    None => Err(Error::Unauthorized),
                }
            },
            _ => Err(Error::Unauthorized),
        }
    }

    /// Verifies a bearer token: its header must name a key identifier, the
    /// key must be a loaded RSA key, and the signature and claims must pass.
    /// Every failure is the same `Unauthorized`.
    pub fn verify(&self, token: &str) -> (r: Result<AuthClaims, Error>)
        ensures
            r matches Err(e) ==> e is Unauthorized,
            r matches Ok(c) ==> claims_of_token(token@, c),
            match header_kid(token@) {
                None => r is Err,
                Some(kid) => !has_rsa_key(self.spec_keys(), kid) ==> r is Err,
            },
    {
        match header_key_id(token) {
            Some(kid) => self.decode_token(kid, token),
            None => Err(Error::Unauthorized),
        }
    }
}

} // verus!
