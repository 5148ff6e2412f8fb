//! The authentication of one request, as a sequence of decisions: the
//! bearer token and its key id are read, the signing key found, the token
//! verified, the caller's internal user id taken from the cache or resolved,
//! and the request forwarded with the identity headers only once every check
//! has passed. The caller performs each action and hands back what came of
//! it.
use vstd::prelude::*;

use crate::error::{unauthorized_error, ApiError, ApiErrorView};
use crate::middleware::jwt::{
    bearer_token, decoding_key, identity_from_claims, identity_headers, identity_headers_outcome,
    identity_of, is_public_path, issuer_of, jwks_url_of, jwt_header_kid, pair_views,
    rsa_components_decode, rsa_decoding_key, token_endpoints, token_kid, token_validation, Claims,
    Identity, IdentityView, TokenAlgorithm, TokenValidation,
};
use crate::security::jwks_cache::Jwk;
use crate::security::roles::Role;
use crate::state::{user_id_source, CachedUserId, UserIdSource};
use crate::text::{opt_str_view, opt_string_view, stripped_prefix};

verus! {

/// The token that an `Authorization` header value carries, or the error
/// that refuses it.
pub open spec fn bearer_of(authorization: Option<Seq<char>>) -> Result<Seq<char>, ApiErrorView> {
    match authorization {
        None => Err(unauthorized_error("Missing Authorization header"@)),
        Some(a) => match stripped_prefix(a, "Bearer "@) {
            Some(t) => Ok(t),
            None => Err(unauthorized_error("Invalid Authorization header"@)),
        },
    }
}

/// The key id that a token's header names, or the error that refuses it.
pub open spec fn kid_of(token: Seq<char>) -> Result<Seq<char>, ApiErrorView> {
    match jwt_header_kid(token) {
        None => Err(unauthorized_error("Invalid JWT header"@)),
        Some(None) => Err(unauthorized_error("Missing kid in JWT"@)),
        Some(Some(k)) => Ok(k),
    }
}

/// The checks a token must pass: RS256, expiry, the issuer; not the
/// audience.
pub open spec fn checks_token(v: TokenValidation, issuer: Seq<char>) -> bool {
    &&& v.algorithm == TokenAlgorithm::Rs256
    &&& v.validate_exp
    &&& v.issuer@ == issuer
    &&& !v.validate_aud
}

/// Where an authentication stands.
pub enum AuthPhase {
    /// Waiting for the signing key of the token.
    FindingKey { token: String, issuer: String },
    /// Waiting for the token to be verified with that key.
    Verifying,
    /// Waiting for the cache's entry for the caller.
    CheckingCache { identity: Identity },
    /// Waiting for the users service to resolve the caller's user id.
    Resolving { identity: Identity },
    /// Waiting for the resolved user id to be cached.
    Remembering { identity: Identity, user_id: u128 },
    /// Decided.
    Done,
}

/// What came of the last action.
pub enum AuthEvent {
    /// The signing key named by the token, or why it could not be had.
    KeyFound(Result<Jwk, ApiError>),
    /// The claims of the token when its signature and checks passed.
    Verified(Option<Claims>),
    /// The cache's entry for the caller.
    Cached(Option<CachedUserId>),
    /// The user id the users service resolved, or why it could not.
    Resolved(Result<u128, ApiError>),
    /// The resolved user id is cached.
    Remembered,
}

/// What to do next.
pub enum AuthAction {
    /// Forward the request unchanged: it needs no authentication.
    Forward,
    /// Find the signing key `kid` in the key set at `jwks_url`.
    FindKey { jwks_url: String, kid: String },
    /// Verify the token's signature with `key` and run the checks.
    Verify { token: String, key: jsonwebtoken::DecodingKey, validation: TokenValidation },
    /// Look up the caller's cached user id.
    LookUpCache { keycloak_id: String },
    /// Ask the users service for the caller's user id.
    Resolve { identity: Identity },
    /// Cache the resolved user id for the caller, with its lifetime.
    Remember { keycloak_id: String, user_id: u128 },
    /// Forward the request with these roles, after stripping every incoming
    /// identity header (`is_identity_header`) and setting these headers.
    ForwardAs { roles: Vec<Role>, headers: Vec<(String, String)> },
    /// Refuse the request with this error; it is not forwarded.
    Reject(ApiError),
}

/// Whether the action refuses the request with this error.
pub open spec fn rejects(r: AuthAction, e: ApiErrorView) -> bool {
    r matches AuthAction::Reject(x) && x@ == e
}

/// Whether the action ends the authentication of `id` with `user_id`:
/// forwarding with its roles and identity headers when they are valid
/// header values, else refusing.
pub open spec fn forwards_as(r: AuthAction, user_id: u128, id: IdentityView) -> bool {
    match identity_headers_outcome(user_id, id) {
        Ok(h) => r matches AuthAction::ForwardAs { roles, headers } && roles@ == id.roles && pair_views(
            headers@,
        ) == h,
        Err(e) => rejects(r, e),
    }
}

/// The authentication of one request.
pub struct AuthFlow {
    pub phase: AuthPhase,
}

/// The last decision: forward as the identity with its user id, or refuse
/// when a header value is invalid.
fn finish(user_id: u128, identity: Identity) -> (r: AuthAction)
    ensures
        forwards_as(r, user_id, identity@),
{
    match identity_headers(user_id, &identity) {
        Ok(headers) => AuthAction::ForwardAs { roles: identity.roles, headers },
        Err(e) => AuthAction::Reject(e),
    }
}

impl AuthFlow {
    /// The start of an authentication: `/health` is forwarded as it is;
    /// otherwise the bearer token and its key id are read (refusing the
    /// request when either is missing or invalid) and the signing key is
    /// looked for at the key-set address (`KEYCLOAK_JWKS_URL`, else the
    /// issuer's, from `KEYCLOAK_ISSUER`).
    pub fn start(
        path: &str,
        authorization: Option<&str>,
        issuer: Option<String>,
        jwks_url: Option<String>,
    ) -> (r: (AuthFlow, AuthAction))
        ensures
            path@ == "/health"@ ==> r.1 is Forward && r.0.phase is Done,
            path@ != "/health"@ ==> match bearer_of(opt_str_view(authorization)) {
                Err(e) => rejects(r.1, e) && r.0.phase is Done,
                Ok(t) => match kid_of(t) {
                    Err(e) => rejects(r.1, e) && r.0.phase is Done,
                    Ok(k) => {
                        &&& r.1 matches AuthAction::FindKey { jwks_url: u, kid } && kid@ == k
                            && u@ == jwks_url_of(opt_string_view(issuer), opt_string_view(jwks_url))
                        &&& r.0.phase matches AuthPhase::FindingKey { token, issuer: iss }
                            && token@ == t && iss@ == issuer_of(opt_string_view(issuer))
                    },
                },
            },
    {
        if is_public_path(path) {
            return (AuthFlow { phase: AuthPhase::Done }, AuthAction::Forward);
        }
        let token = match bearer_token(authorization) {
            Ok(t) => t,
            Err(e) => return (AuthFlow { phase: AuthPhase::Done }, AuthAction::Reject(e)),
        };
        let kid = match token_kid(token) {
            Ok(k) => k,
            Err(e) => return (AuthFlow { phase: AuthPhase::Done }, AuthAction::Reject(e)),
        };
        let (iss, url) = token_endpoints(issuer, jwks_url);
        (
            AuthFlow { phase: AuthPhase::FindingKey { token: String::from_str(token), issuer: iss } },
            AuthAction::FindKey { jwks_url: url, kid },
        )
    }

    /// Whether the authentication waits for an event of this kind.
    pub open spec fn expects(&self, event: &AuthEvent) -> bool {
        match (self.phase, event) {
            (AuthPhase::FindingKey { .. }, AuthEvent::KeyFound(_)) => true,
            (AuthPhase::Verifying, AuthEvent::Verified(_)) => true,
            (AuthPhase::CheckingCache { .. }, AuthEvent::Cached(_)) => true,
            (AuthPhase::Resolving { .. }, AuthEvent::Resolved(_)) => true,
            (AuthPhase::Remembering { .. }, AuthEvent::Remembered) => true,
            _ => false,
        }
    }

    /// Whether the authentication waits for an event of this kind.
    pub fn accepts(&self, event: &AuthEvent) -> (r: bool)
        ensures
            r == self.expects(event),
    {
        match (&self.phase, event) {
            (AuthPhase::FindingKey { .. }, AuthEvent::KeyFound(_)) => true,
            (AuthPhase::Verifying, AuthEvent::Verified(_)) => true,
            (AuthPhase::CheckingCache { .. }, AuthEvent::Cached(_)) => true,
            (AuthPhase::Resolving { .. }, AuthEvent::Resolved(_)) => true,
            (AuthPhase::Remembering { .. }, AuthEvent::Remembered) => true,
            _ => false,
        }
    }

    /// Takes what came of the last action and says what to do next. Any
    /// failure refuses the request; it is forwarded only at the end, once
    /// the token is verified and the user id known.
    pub fn step(&mut self, event: AuthEvent) -> (r: AuthAction)
        requires
            old(self).expects(&event),
        ensures
            match (old(self).phase, event) {
                (AuthPhase::FindingKey { .. }, AuthEvent::KeyFound(Err(e))) => rejects(r, e@)
                    && final(self).phase is Done,
                (AuthPhase::FindingKey { token, issuer }, AuthEvent::KeyFound(Ok(jwk))) => if rsa_components_decode(
                    jwk.n@,
                    jwk.e@,
                ) {
                    &&& r matches AuthAction::Verify { token: t, key, validation } && t@ == token@
                        && key == rsa_decoding_key(jwk.n@, jwk.e@) && checks_token(
                        validation,
                        issuer@,
                    )
                    &&& final(self).phase is Verifying
                } else {
                    rejects(r, unauthorized_error("Invalid JWKS key"@)) && final(self).phase is Done
                },
                (AuthPhase::Verifying, AuthEvent::Verified(None)) => rejects(
                    r,
                    unauthorized_error("Invalid JWT"@),
                ) && final(self).phase is Done,
                (AuthPhase::Verifying, AuthEvent::Verified(Some(c))) => {
                    &&& r matches AuthAction::LookUpCache { keycloak_id } && keycloak_id@ == c.sub@
                    &&& final(self).phase matches AuthPhase::CheckingCache { identity }
                        && identity@ == identity_of(c)
                },
                (AuthPhase::CheckingCache { identity }, AuthEvent::Cached(Some(entry))) => forwards_as(
                    r,
                    entry.user_id,
                    identity@,
                ) && final(self).phase is Done,
                (AuthPhase::CheckingCache { identity }, AuthEvent::Cached(None)) => {
                    &&& r matches AuthAction::Resolve { identity: i } && i@ == identity@
                    &&& final(self).phase matches AuthPhase::Resolving { identity: i }
                        && i@ == identity@
                },
                (AuthPhase::Resolving { .. }, AuthEvent::Resolved(Err(e))) => rejects(r, e@)
                    && final(self).phase is Done,
                (AuthPhase::Resolving { identity }, AuthEvent::Resolved(Ok(user_id))) => {
                    &&& r matches AuthAction::Remember { keycloak_id, user_id: u }
                        && keycloak_id@ == identity.keycloak_id@ && u == user_id
                    &&& final(self).phase matches AuthPhase::Remembering { identity: i, user_id: u }
                        && i@ == identity@ && u == user_id
                },
                (AuthPhase::Remembering { identity, user_id }, AuthEvent::Remembered) => forwards_as(
                    r,
                    user_id,
                    identity@,
                ) && final(self).phase is Done,
                _ => true,
            },
    {
        let mut phase = AuthPhase::Done;
        std::mem::swap(&mut phase, &mut self.phase);
        match (phase, event) {
            (AuthPhase::FindingKey { token, issuer }, AuthEvent::KeyFound(found)) => match found {
                Err(e) => AuthAction::Reject(e),
                Ok(jwk) => match decoding_key(&jwk) {
                    Ok(key) => {
                        self.phase = AuthPhase::Verifying;
                        AuthAction::Verify { token, key, validation: token_validation(issuer) }
                    },
                    Err(e) => AuthAction::Reject(e),
                },
            },
            (AuthPhase::Verifying, AuthEvent::Verified(claims)) => match claims {
                None => AuthAction::Reject(ApiError::unauthorized("Invalid JWT")),
                Some(c) => {
                    let identity = identity_from_claims(&c);
                    let keycloak_id = identity.keycloak_id.clone();
                    self.phase = AuthPhase::CheckingCache { identity };
                    AuthAction::LookUpCache { keycloak_id }
                },
            },
            (AuthPhase::CheckingCache { identity }, AuthEvent::Cached(entry)) => match user_id_source(
                entry,
            ) {
                UserIdSource::Cached(user_id) => finish(user_id, identity),
                UserIdSource::Resolve => {
                    let copy = identity.duplicate();
                    self.phase = AuthPhase::Resolving { identity };
                    AuthAction::Resolve { identity: copy }
                },
            },
            (AuthPhase::Resolving { identity }, AuthEvent::Resolved(resolved)) => match resolved {
                Err(e) => AuthAction::Reject(e),
                Ok(user_id) => {
                    let keycloak_id = identity.keycloak_id.clone();
                    self.phase = AuthPhase::Remembering { identity, user_id };
                    AuthAction::Remember { keycloak_id, user_id }
                },
            },
            (AuthPhase::Remembering { identity, user_id }, AuthEvent::Remembered) => finish(
                user_id,
                identity,
            ),
            (_, _) => AuthAction::Reject(ApiError::unauthorized("Invalid JWT")),
        }
    }
}

} // verus!
