use crate::auth0::{claims_of_token, has_rsa_key, header_kid, AuthClaims, Client};
use crate::error::Error;
use vstd::prelude::*;

verus! {

/// The local record of an identity: its identifier in the user store and the
/// subject identifier the provider knows it by.
#[derive(Debug)]
pub struct LocalUser {
    pub id: u128,
    pub provider_id: String,
}

/// An authenticated request's identity: the local record, the subject
/// identifier and the permissions granted by the verified token.
#[derive(Debug)]
pub struct AuthUser {
    pub user: LocalUser,
    pub user_id: String,
    pub permissions: Vec<String>,
}

/// `permissions` contains `permission`.
pub open spec fn grants(permissions: Seq<String>, permission: Seq<char>) -> bool {
    exists|i: int| 0 <= i < permissions.len() && (#[trigger] permissions[i])@ == permission
}

/// The token of an `Authorization` header value of the form `Bearer <token>`.
pub fn bearer_token(header: &str) -> (r: Option<&str>)
    ensures
        match r {
            Some(t) => "Bearer "@.is_prefix_of(header@) && t@ == header@.skip(7),
            None => !"Bearer "@.is_prefix_of(header@),
        },
{
    let prefix = "Bearer ";
    proof {
        reveal_strlit("Bearer ");
    }
    let n = header.unicode_len();
    if n < 7 {
        return None;
    }
    let mut i: usize = 0;
    while i < 7
        invariant
            i <= 7,
            n == header@.len(),
            n >= 7,
            prefix@ == "Bearer "@,
            prefix@.len() == 7,
            forall|k: int| 0 <= k < i ==> header@[k] == prefix@[k],
        decreases 7 - i,
    {
        if header.get_char(i) != prefix.get_char(i) {
            assert(header@.subrange(0, 7)[i as int] != prefix@[i as int]);
            return None;
        }
        i += 1;
    }
    assert(header@.subrange(0, 7) =~= prefix@);
    let rest = header.substring_char(7, n);
    assert(rest@ =~= header@.skip(7));
    Some(rest)
}

/// Authenticates a request by its `Authorization` header value: the header
/// must be present and carry a bearer token that `client` verifies. Every
/// failure is the same `Unauthorized`; on success the claims are those of the
/// token's payload, verbatim.
pub fn authenticate(client: &Client, authorization: Option<&str>) -> (r: Result<AuthClaims, Error>)
    ensures
        r matches Err(e) ==> e is Unauthorized,
        r matches Ok(c) ==> (authorization matches Some(h) && "Bearer "@.is_prefix_of(h@)
            && claims_of_token(h@.skip(7), c)),
        match authorization {
            None => r is Err,
            Some(h) => if "Bearer "@.is_prefix_of(h@) {
                match header_kid(h@.skip(7)) {
                    None => r is Err,
                    Some(kid) => !has_rsa_key(client.spec_keys(), kid) ==> r is Err,
                }
            } else {
                r is Err
            },
        },
{
    match authorization {
        Some(h) => match bearer_token(h) {
            Some(token) => client.verify(token),
            None => Err(Error::Unauthorized),
        },
        None => Err(Error::Unauthorized),
    }
}

impl AuthUser {
    /// The identity of a verified token bound to its local record.
    pub fn new(user: LocalUser, claims: AuthClaims) -> (r: Self)
        ensures
            r.user == user,
            r.user_id == claims.sub,
            r.permissions == claims.permissions,
    {
        AuthUser { user, user_id: claims.sub, permissions: claims.permissions }
    }

    /// `Ok(true)` when the granted permissions contain `permission`, and
    /// `Forbidden` otherwise.
    pub fn has_permission(&self, permission: &str) -> (r: Result<bool, Error>)
        ensures
            r is Ok <==> grants(self.permissions@, permission@),
            r matches Ok(b) ==> b,
            r matches Err(e) ==> e is Forbidden,
    {
        let wanted = permission.to_owned();
        let mut i: usize = 0;
        while i < self.permissions.len()
            invariant
                i <= self.permissions.len(),
                wanted@ == permission@,
                forall|j: int| 0 <= j < i ==> (#[trigger] self.permissions@[j])@ != permission@,
            decreases self.permissions.len() - i,
        {
            if self.permissions[i] == wanted {
                return Ok(true);
            }
            i += 1;
        }
        Err(Error::Forbidden)
    }
}

} // verus!
