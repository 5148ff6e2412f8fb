//! Authentication: reading the bearer token, the roles and identity it
//! carries, and the identity headers handed to the services behind the
//! gateway.
use vstd::prelude::*;
use vstd::string::*;

use crate::error::{unauthorized_error, ApiError, ApiErrorView};
use crate::security::jwks_cache::Jwk;
use crate::security::roles::{has_role, role_from_name, roles_csv, roles_csv_spec, Role};
use crate::text::{
    ascii_lower, opt_string_view, str_eq, strip_prefix, stripped_prefix, to_ascii_lowercase, views,
};
use crate::wire::{header_value_ok, is_header_value, uuid_string, uuid_text, uuid_text_is_header_value};

verus! {

/// The realm roles of a token.
pub struct RealmAccess {
    pub roles: Vec<String>,
}

/// The roles a token grants for one client application.
pub struct ResourceAccess {
    pub roles: Vec<String>,
}

/// The claims of a verified access token that the gateway reads.
pub struct Claims {
    pub sub: String,
    /// Expiry (seconds since the epoch), checked when the token is verified.
    pub exp: usize,
    /// Issuer, checked when the token is verified.
    pub iss: String,
    /// Audience, not checked.
    pub aud: serde_json::Value,
    pub realm_access: Option<RealmAccess>,
    /// Client roles by client id, one entry per client.
    pub resource_access: Option<Vec<(String, ResourceAccess)>>,
    pub email: Option<String>,
    pub name: Option<String>,
    pub preferred_username: Option<String>,
}

/// The client whose roles the gateway reads.
pub open spec fn frontend_client() -> Seq<char> {
    "frontend"@
}

/// The role names granted to `client` by the first entry for it.
pub open spec fn client_role_names(
    entries: Seq<(String, ResourceAccess)>,
    client: Seq<char>,
) -> Option<Seq<Seq<char>>>
    decreases entries.len(),
{
    if entries.len() == 0 {
        None
    } else if entries[0].0@ == client {
        Some(views(entries[0].1.roles@))
    } else {
        client_role_names(entries.drop_first(), client)
    }
}

/// The realm role names of the claims.
pub open spec fn realm_role_names(c: Claims) -> Seq<Seq<char>> {
    match c.realm_access {
        Some(ra) => views(ra.roles@),
        None => Seq::empty(),
    }
}

/// The role names that the claims grant to the frontend client.
pub open spec fn frontend_role_names(c: Claims) -> Seq<Seq<char>> {
    match c.resource_access {
        Some(entries) => match client_role_names(entries@, frontend_client()) {
            Some(names) => names,
            None => Seq::empty(),
        },
        None => Seq::empty(),
    }
}

/// All role names that the claims carry: realm roles, then frontend roles.
pub open spec fn token_role_names(c: Claims) -> Seq<Seq<char>> {
    realm_role_names(c) + frontend_role_names(c)
}

/// `acc` with the role that `name` denotes added, unless it is already there
/// or `name` denotes none.
pub open spec fn add_role_name(acc: Seq<Role>, name: Seq<char>) -> Seq<Role> {
    match role_from_name(name) {
        Some(r) => if acc.contains(r) {
            acc
        } else {
            acc.push(r)
        },
        None => acc,
    }
}

/// `acc` with the roles that `names` denote added, in order, each once.
pub open spec fn collect_roles_from(acc: Seq<Role>, names: Seq<Seq<char>>) -> Seq<Role>
    decreases names.len(),
{
    if names.len() == 0 {
        acc
    } else {
        add_role_name(collect_roles_from(acc, names.drop_last()), names.last())
    }
}

/// The roles that `names` denote, each once, in the order of their first
/// name.
pub open spec fn collect_roles(names: Seq<Seq<char>>) -> Seq<Role> {
    collect_roles_from(Seq::empty(), names)
}

/// The roles that the claims grant.
pub open spec fn token_roles(c: Claims) -> Seq<Role> {
    collect_roles(token_role_names(c))
}

fn add_roles(out: &mut Vec<Role>, names: &Vec<String>)
    ensures
        final(out)@ == collect_roles_from(old(out)@, views(names@)),
{
    let ghost start = out@;
    let mut i: usize = 0;
    assert(views(names@).take(0) =~= Seq::<Seq<char>>::empty());
    while i < names.len()
        invariant
            i <= names@.len(),
            out@ == collect_roles_from(start, views(names@).take(i as int)),
        decreases names.len() - i,
    {
        proof {
            assert(views(names@).take(i + 1).drop_last() =~= views(names@).take(i as int));
            assert(views(names@).take(i + 1).last() == names@[i as int]@);
        }
        match Role::from_str(names[i].as_str()) {
            Some(r) => {
                if !has_role(out, r) {
                    out.push(r);
                }
            },
            None => {},
        }
        i = i + 1;
    }
    assert(views(names@).take(names.len() as int) =~= views(names@));
}

proof fn lemma_collect_append(acc: Seq<Role>, a: Seq<Seq<char>>, b: Seq<Seq<char>>)
    ensures
        collect_roles_from(acc, a + b) == collect_roles_from(collect_roles_from(acc, a), b),
    decreases b.len(),
{
    if b.len() == 0 {
        assert(a + b =~= a);
    } else {
        lemma_collect_append(acc, a, b.drop_last());
        assert((a + b).drop_last() =~= a + b.drop_last());
        assert((a + b).last() == b.last());
    }
}

/// The roles that the claims grant, each once: realm roles and the frontend
/// client's roles whose names denote a platform role.
pub fn extract_roles(claims: &Claims) -> (r: Vec<Role>)
    ensures
        r@ == token_roles(*claims),
{
    let mut out: Vec<Role> = Vec::new();
    match &claims.realm_access {
        Some(realm) => add_roles(&mut out, &realm.roles),
        None => {},
    }
    assert(out@ == collect_roles_from(Seq::empty(), realm_role_names(*claims)));
    match &claims.resource_access {
        Some(entries) => {
            let mut i: usize = 0;
            assert(entries@.skip(0) =~= entries@);
            while i < entries.len()
                invariant
                    i <= entries@.len(),
                    client_role_names(entries@, frontend_client()) == client_role_names(
                        entries@.skip(i as int),
                        frontend_client(),
                    ),
                    out@ == collect_roles_from(Seq::empty(), realm_role_names(*claims)),
                    claims.resource_access == Some(*entries),
                decreases entries.len() - i,
            {
                assert(entries@.skip(i as int)[0] == entries@[i as int]);
                if str_eq(entries[i].0.as_str(), "frontend") {
                    add_roles(&mut out, &entries[i].1.roles);
                    proof {
                        let ghost e = entries@.skip(i as int);
                        assert(e[0].0@ == frontend_client());
                        assert(client_role_names(e, frontend_client()) == Some(views(e[0].1.roles@)));
                        assert(claims.resource_access == Some(*entries));
                        assert(frontend_role_names(*claims) == views(entries@[i as int].1.roles@));
                        lemma_collect_append(
                            Seq::empty(),
                            realm_role_names(*claims),
                            frontend_role_names(*claims),
                        );
                    }
                    return out;
                }
                assert(entries@.skip(i as int).drop_first() =~= entries@.skip(i + 1));
                i = i + 1;
            }
        },
        None => {},
    }
    proof {
        assert(frontend_role_names(*claims) =~= Seq::<Seq<char>>::empty());
        lemma_collect_append(Seq::empty(), realm_role_names(*claims), frontend_role_names(*claims));
        assert(token_role_names(*claims) =~= realm_role_names(*claims));
    }
    out
}

/// Collected roles appear once each, and a role is collected exactly when
/// some name denotes it.
pub proof fn collected_roles_exact(names: Seq<Seq<char>>)
    ensures
        collect_roles(names).no_duplicates(),
        forall|r: Role|
            collect_roles(names).contains(r) <==> exists|i: int|
                0 <= i < names.len() && role_from_name(#[trigger] names[i]) == Some(r),
{
    lemma_collect_exact(Seq::empty(), names);
}

proof fn lemma_push_contains(s: Seq<Role>, x: Role, r: Role)
    ensures
        s.push(x).contains(r) <==> (s.contains(r) || r == x),
{
    if s.contains(r) {
        let k = choose|k: int| 0 <= k < s.len() && s[k] == r;
        assert(s.push(x)[k] == r);
    }
    if r == x {
        assert(s.push(x)[s.len() as int] == x);
    }
    if s.push(x).contains(r) {
        let k = choose|k: int| 0 <= k < s.push(x).len() && s.push(x)[k] == r;
        if k < s.len() {
            assert(s[k] == r);
        }
    }
}

proof fn lemma_names_denote(names: Seq<Seq<char>>, r: Role)
    requires
        names.len() > 0,
    ensures
        (exists|i: int| 0 <= i < names.len() && role_from_name(#[trigger] names[i]) == Some(r))
            <==> ((exists|i: int|
            0 <= i < names.drop_last().len() && role_from_name(#[trigger] names.drop_last()[i])
                == Some(r)) || role_from_name(names.last()) == Some(r)),
{
    let prefix = names.drop_last();
    if exists|i: int| 0 <= i < names.len() && role_from_name(#[trigger] names[i]) == Some(r) {
        let i = choose|i: int| 0 <= i < names.len() && role_from_name(#[trigger] names[i]) == Some(r);
        if i < names.len() - 1 {
            assert(prefix[i] == names[i]);
        }
    }
    if exists|i: int| 0 <= i < prefix.len() && role_from_name(#[trigger] prefix[i]) == Some(r) {
        let i = choose|i: int| 0 <= i < prefix.len() && role_from_name(#[trigger] prefix[i]) == Some(r);
        assert(names[i] == prefix[i]);
    }
    if role_from_name(names.last()) == Some(r) {
        assert(names[names.len() - 1] == names.last());
    }
}

proof fn lemma_collect_exact(acc: Seq<Role>, names: Seq<Seq<char>>)
    requires
        acc.no_duplicates(),
    ensures
        collect_roles_from(acc, names).no_duplicates(),
        forall|r: Role|
            #![trigger collect_roles_from(acc, names).contains(r)]
            collect_roles_from(acc, names).contains(r) <==> (acc.contains(r) || exists|i: int|
                0 <= i < names.len() && role_from_name(#[trigger] names[i]) == Some(r)),
    decreases names.len(),
{
    if names.len() > 0 {
        let prefix = names.drop_last();
        lemma_collect_exact(acc, prefix);
        let prev = collect_roles_from(acc, prefix);
        let last = names.last();
        assert forall|r: Role|
            #![trigger collect_roles_from(acc, names).contains(r)]
            collect_roles_from(acc, names).contains(r) <==> (acc.contains(r) || exists|i: int|
                0 <= i < names.len() && role_from_name(#[trigger] names[i]) == Some(r)) by {
            lemma_names_denote(names, r);
            assert(collect_roles_from(acc, prefix).contains(r) <==> (acc.contains(r) || exists|i: int|
                0 <= i < prefix.len() && role_from_name(#[trigger] prefix[i]) == Some(r)));
            match role_from_name(last) {
                Some(x) => {
                    lemma_push_contains(prev, x, r);
                    if prev.contains(x) && r == x {
                        assert(prev.contains(r));
                    }
                },
                None => {},
            }
        }
        match role_from_name(last) {
            Some(x) => {
                if !prev.contains(x) {
                    assert forall|i: int, j: int|
                        0 <= i < prev.push(x).len() && 0 <= j < prev.push(x).len() && i != j
                            implies prev.push(x)[i] != prev.push(x)[j] by {
                        if i < prev.len() && j == prev.len() {
                            assert(prev[i] != x);
                        } else if j < prev.len() && i == prev.len() {
                            assert(prev[j] != x);
                        }
                    }
                }
            },
            None => {},
        }
    }
}

/// The display name: `name`, else `preferred_username`, else `unknown`.
pub open spec fn display_name(c: Claims) -> Seq<char> {
    match c.name {
        Some(n) => n@,
        None => match c.preferred_username {
            Some(p) => p@,
            None => "unknown"@,
        },
    }
}

/// The e-mail address: `email`, else `unknown@altair.local`.
pub open spec fn email_or_default(c: Claims) -> Seq<char> {
    match c.email {
        Some(e) => e@,
        None => "unknown@altair.local"@,
    }
}

/// The pseudonym sent to the users service: `preferred_username`, else the
/// display name.
pub open spec fn pseudo_of(c: Claims) -> Seq<char> {
    match c.preferred_username {
        Some(p) => p@,
        None => display_name(c),
    }
}

/// Who the token says the caller is.
pub struct Identity {
    pub keycloak_id: String,
    pub roles: Vec<Role>,
    pub name: String,
    pub email: String,
    pub pseudo: String,
}

/// An identity as values.
pub struct IdentityView {
    pub keycloak_id: Seq<char>,
    pub roles: Seq<Role>,
    pub name: Seq<char>,
    pub email: Seq<char>,
    pub pseudo: Seq<char>,
}

impl View for Identity {
    type V = IdentityView;

    open spec fn view(&self) -> IdentityView {
        IdentityView {
            keycloak_id: self.keycloak_id@,
            roles: self.roles@,
            name: self.name@,
            email: self.email@,
            pseudo: self.pseudo@,
        }
    }
}

impl Identity {
    /// A copy of the identity.
    pub fn duplicate(&self) -> (r: Identity)
        ensures
            r@ == self@,
    {
        let mut roles: Vec<Role> = Vec::new();
        let mut i: usize = 0;
        while i < self.roles.len()
            invariant
                i <= self.roles@.len(),
                roles@ == self.roles@.take(i as int),
            decreases self.roles.len() - i,
        {
            roles.push(self.roles[i]);
            i = i + 1;
            assert(roles@ =~= self.roles@.take(i as int));
        }
        assert(roles@ =~= self.roles@);
        Identity {
            keycloak_id: self.keycloak_id.clone(),
            roles,
            name: self.name.clone(),
            email: self.email.clone(),
            pseudo: self.pseudo.clone(),
        }
    }
}

/// The identity that the claims describe.
pub open spec fn identity_of(c: Claims) -> IdentityView {
    IdentityView {
        keycloak_id: c.sub@,
        roles: token_roles(c),
        name: display_name(c),
        email: email_or_default(c),
        pseudo: pseudo_of(c),
    }
}

/// The identity that the claims describe.
pub fn identity_from_claims(claims: &Claims) -> (r: Identity)
    ensures
        r.keycloak_id@ == claims.sub@,
        r.roles@ == token_roles(*claims),
        r.name@ == display_name(*claims),
        r.email@ == email_or_default(*claims),
        r.pseudo@ == pseudo_of(*claims),
        r@ == identity_of(*claims),
{
    let roles = extract_roles(claims);
    let name = match &claims.name {
        Some(n) => n.clone(),
        None => match &claims.preferred_username {
            Some(p) => p.clone(),
            None => String::from_str("unknown"),
        },
    };
    let email = match &claims.email {
        Some(e) => e.clone(),
        None => String::from_str("unknown@altair.local"),
    };
    let pseudo = match &claims.preferred_username {
        Some(p) => p.clone(),
        None => name.clone(),
    };
    Identity { keycloak_id: claims.sub.clone(), roles, name, email, pseudo }
}

/// Whether the path is served without authentication (only `/health`).
pub fn is_public_path(path: &str) -> (r: bool)
    ensures
        r == (path@ == "/health"@),
{
    str_eq(path, "/health")
}

/// The token of an `Authorization: Bearer <token>` header value; 401 when the
/// header is absent (or not text) or not a bearer credential.
pub fn bearer_token(authorization: Option<&str>) -> (r: Result<&str, ApiError>)
    ensures
        match authorization {
            None => r matches Err(e) && e@ == unauthorized_error("Missing Authorization header"@),
            Some(a) => match stripped_prefix(a@, "Bearer "@) {
                Some(t) => r matches Ok(tok) && tok@ == t,
                None => r matches Err(e) && e@ == unauthorized_error(
                    "Invalid Authorization header"@,
                ),
            },
        },
{
    match authorization {
        None => Err(ApiError::unauthorized("Missing Authorization header")),
        Some(a) => match strip_prefix(a, "Bearer ") {
            Some(t) => Ok(t),
            None => Err(ApiError::unauthorized("Invalid Authorization header")),
        },
    }
}

/// An error of the `jsonwebtoken` crate.
#[verifier::external_type_specification]
#[verifier::external_body]
pub struct ExJwtError(jsonwebtoken::errors::Error);

/// A verification key of the `jsonwebtoken` crate.
#[verifier::external_type_specification]
#[verifier::external_body]
pub struct ExDecodingKey(jsonwebtoken::DecodingKey);

/// What `jsonwebtoken::decode_header` reads from a token: `None` when the
/// header cannot be decoded, else the header's `kid`, if it has one.
pub uninterp spec fn jwt_header_kid(token: Seq<char>) -> Option<Option<Seq<char>>>;

/// `jsonwebtoken::decode_header`, keeping the header's `kid`. Claimed: it
/// succeeds exactly when `jwt_header_kid` of the token is `Some`, with that
/// `kid`.
#[verifier::external_body]
fn decode_header_kid(token: &str) -> (r: Result<Option<String>, jsonwebtoken::errors::Error>)
    ensures
        match r {
            Ok(Some(k)) => jwt_header_kid(token@) == Some(Some(k@)),
            Ok(None) => jwt_header_kid(token@) == Some(None::<Seq<char>>),
            Err(_) => jwt_header_kid(token@) is None,
        },
{
    jsonwebtoken::decode_header(token).map(|h| h.kid)
}

/// The key id named in the token's header; 401 when the header cannot be
/// decoded or names no key.
pub fn token_kid(token: &str) -> (r: Result<String, ApiError>)
    ensures
        match jwt_header_kid(token@) {
            None => r matches Err(e) && e@ == unauthorized_error("Invalid JWT header"@),
            Some(None) => r matches Err(e) && e@ == unauthorized_error("Missing kid in JWT"@),
            Some(Some(k)) => r matches Ok(kid) && kid@ == k,
        },
{
    match decode_header_kid(token) {
        Err(_) => Err(ApiError::unauthorized("Invalid JWT header")),
        Ok(None) => Err(ApiError::unauthorized("Missing kid in JWT")),
        Ok(Some(k)) => Ok(k),
    }
}

/// Whether `jsonwebtoken::DecodingKey::from_rsa_components` accepts the
/// modulus and exponent (both must be base64url text).
pub uninterp spec fn rsa_components_decode(n: Seq<char>, e: Seq<char>) -> bool;

/// The verification key that `jsonwebtoken::DecodingKey::from_rsa_components`
/// builds from a modulus and an exponent.
pub uninterp spec fn rsa_decoding_key(n: Seq<char>, e: Seq<char>) -> jsonwebtoken::DecodingKey;

/// `jsonwebtoken::DecodingKey::from_rsa_components`. Claimed: it succeeds
/// exactly when `rsa_components_decode` holds of the modulus and exponent,
/// and the key it returns is `rsa_decoding_key` of them.
#[verifier::external_body]
fn rsa_key_from_components(n: &str, e: &str) -> (r: Result<
    jsonwebtoken::DecodingKey,
    jsonwebtoken::errors::Error,
>)
    ensures
        r is Ok == rsa_components_decode(n@, e@),
        r matches Ok(k) ==> k == rsa_decoding_key(n@, e@),
{
    jsonwebtoken::DecodingKey::from_rsa_components(n, e)
}

/// The verification key of a signing key; 401 when its components do not
/// decode.
pub fn decoding_key(jwk: &Jwk) -> (r: Result<jsonwebtoken::DecodingKey, ApiError>)
    ensures
        r is Ok == rsa_components_decode(jwk.n@, jwk.e@),
        r matches Ok(k) ==> k == rsa_decoding_key(jwk.n@, jwk.e@),
        r matches Err(e) ==> e@ == unauthorized_error("Invalid JWKS key"@),
{
    match rsa_key_from_components(jwk.n.as_str(), jwk.e.as_str()) {
        Ok(k) => Ok(k),
        Err(_) => Err(ApiError::unauthorized("Invalid JWKS key")),
    }
}

/// The expected token issuer: the configured one, else the local realm.
pub open spec fn issuer_of(issuer: Option<Seq<char>>) -> Seq<char> {
    match issuer {
        Some(i) => i,
        None => "http://localhost:8080/realms/altair"@,
    }
}

/// The key-set address: the configured one, else the issuer's certificate
/// endpoint.
pub open spec fn jwks_url_of(issuer: Option<Seq<char>>, jwks_url: Option<Seq<char>>) -> Seq<char> {
    match jwks_url {
        Some(u) => u,
        None => issuer_of(issuer) + "/protocol/openid-connect/certs"@,
    }
}

/// The expected issuer and the key-set address, from the settings
/// `KEYCLOAK_ISSUER` and `KEYCLOAK_JWKS_URL`.
pub fn token_endpoints(issuer: Option<String>, jwks_url: Option<String>) -> (r: (String, String))
    ensures
        r.0@ == issuer_of(opt_string_view(issuer)),
        r.1@ == jwks_url_of(opt_string_view(issuer), opt_string_view(jwks_url)),
{
    let iss = match &issuer {
        Some(i) => i.clone(),
        None => String::from_str("http://localhost:8080/realms/altair"),
    };
    let url = match jwks_url {
        Some(u) => u,
        None => {
            let mut u = iss.clone();
            u.append("/protocol/openid-connect/certs");
            u
        },
    };
    (iss, url)
}

/// The signature algorithms a token may be signed with.
#[derive(Debug, Clone, Copy, PartialEq, Eq, Structural)]
pub enum TokenAlgorithm {
    /// RSA with SHA-256.
    Rs256,
}

/// How a token is checked once its signing key is known.
pub struct TokenValidation {
    pub algorithm: TokenAlgorithm,
    /// Whether the expiry (`exp`) is checked.
    pub validate_exp: bool,
    /// The issuer (`iss`) the token must name.
    pub issuer: String,
    /// Whether the audience (`aud`) is checked.
    pub validate_aud: bool,
}

/// The token checks: signed with RS256, not expired, issued by `issuer`;
/// the audience is not checked.
pub fn token_validation(issuer: String) -> (r: TokenValidation)
    ensures
        r.algorithm == TokenAlgorithm::Rs256,
        r.validate_exp,
        r.issuer@ == issuer@,
        !r.validate_aud,
{
    TokenValidation { algorithm: TokenAlgorithm::Rs256, validate_exp: true, issuer, validate_aud: false }
}

/// The prefix that marks an identity header.
pub open spec fn identity_header_prefix() -> Seq<char> {
    "x-altair-"@
}

/// Whether a header name is an identity header: it starts with
/// `x-altair-`, in any letter case. Every such header is stripped from an
/// incoming request before the gateway sets its own.
pub open spec fn is_identity_header_name(name: Seq<char>) -> bool {
    stripped_prefix(name.map_values(|c: char| ascii_lower(c)), identity_header_prefix()) is Some
}

/// Whether a header of an incoming request is an identity header, to be
/// stripped.
pub fn is_identity_header(name: &str) -> (r: bool)
    ensures
        r == is_identity_header_name(name@),
{
    let lower = to_ascii_lowercase(name);
    strip_prefix(lower.as_str(), "x-altair-").is_some()
}

/// The identity headers set on a request, in order: internal user id,
/// provider id, name, e-mail and roles.
pub open spec fn identity_headers_spec(user_id: u128, id: IdentityView) -> Seq<(Seq<char>, Seq<char>)> {
    seq![
        ("x-altair-user-id"@, uuid_text(user_id)),
        ("x-altair-keycloak-id"@, id.keycloak_id),
        ("x-altair-name"@, id.name),
        ("x-altair-email"@, id.email),
        ("x-altair-roles"@, roles_csv_spec(id.roles)),
    ]
}

/// The identity headers for a user id, or the error naming the first value
/// that is not a valid header value (provider id, then name, then e-mail;
/// the user id and the role list are always valid).
pub open spec fn identity_headers_outcome(user_id: u128, id: IdentityView) -> Result<
    Seq<(Seq<char>, Seq<char>)>,
    ApiErrorView,
> {
    if !is_header_value(id.keycloak_id) {
        Err(unauthorized_error("Invalid keycloak id"@))
    } else if !is_header_value(id.name) {
        Err(unauthorized_error("Invalid name"@))
    } else if !is_header_value(id.email) {
        Err(unauthorized_error("Invalid email"@))
    } else {
        Ok(identity_headers_spec(user_id, id))
    }
}

/// The views of a list of header pairs.
pub open spec fn pair_views(v: Seq<(String, String)>) -> Seq<(Seq<char>, Seq<char>)> {
    v.map_values(|p: (String, String)| (p.0@, p.1@))
}

/// The identity headers for the resolved internal user id; 401 naming the
/// first value that is not a valid header value (provider id, then name,
/// then e-mail; the user id and the role list are always valid).
pub fn identity_headers(user_id: u128, id: &Identity) -> (r: Result<Vec<(String, String)>, ApiError>)
    ensures
        match r {
            Ok(v) => identity_headers_outcome(user_id, id@) == Ok::<_, ApiErrorView>(pair_views(v@)),
            Err(e) => identity_headers_outcome(user_id, id@) == Err::<Seq<(Seq<char>, Seq<char>)>, _>(e@),
        },
{
    let uid = uuid_string(user_id);
    let csv = roles_csv(&id.roles);
    proof {
        uuid_text_is_header_value(user_id);
        roles_csv_is_header_value(id.roles@);
    }
    if !header_value_ok(uid.as_str()) {
        return Err(ApiError::unauthorized("Invalid user id"));
    }
    if !header_value_ok(id.keycloak_id.as_str()) {
        return Err(ApiError::unauthorized("Invalid keycloak id"));
    }
    if !header_value_ok(id.name.as_str()) {
        return Err(ApiError::unauthorized("Invalid name"));
    }
    if !header_value_ok(id.email.as_str()) {
        return Err(ApiError::unauthorized("Invalid email"));
    }
    if !header_value_ok(csv.as_str()) {
        return Err(ApiError::unauthorized("Invalid roles"));
    }
    let mut v: Vec<(String, String)> = Vec::new();
    v.push((String::from_str("x-altair-user-id"), uid));
    v.push((String::from_str("x-altair-keycloak-id"), id.keycloak_id.clone()));
    v.push((String::from_str("x-altair-name"), id.name.clone()));
    v.push((String::from_str("x-altair-email"), id.email.clone()));
    v.push((String::from_str("x-altair-roles"), csv));
    assert(pair_views(v@) =~= identity_headers_spec(user_id, id@));
    Ok(v)
}

/// Every identity header the gateway sets is one it strips from the
/// incoming request first, so the values the services see under these
/// names are the gateway's own and none the client sent.
pub proof fn identity_headers_replace_stripped(user_id: u128, id: IdentityView)
    ensures
        forall|i: int|
            0 <= i < identity_headers_spec(user_id, id).len() ==> is_identity_header_name(
                #[trigger] identity_headers_spec(user_id, id)[i].0,
            ),
{
    let h = identity_headers_spec(user_id, id);
    reveal_strlit("x-altair-");
    assert forall|i: int| 0 <= i < h.len() implies is_identity_header_name(#[trigger] h[i].0) by {
        if i == 0 {
            reveal_strlit("x-altair-user-id");
        } else if i == 1 {
            reveal_strlit("x-altair-keycloak-id");
        } else if i == 2 {
            reveal_strlit("x-altair-name");
        } else if i == 3 {
            reveal_strlit("x-altair-email");
        } else {
            reveal_strlit("x-altair-roles");
        }
        assert(h[i].0.subrange(0, 9) =~= identity_header_prefix());
        lemma_lower_identity_name(h[i].0);
    }
}

/// A name that is already lower case and starts with `x-altair-` is an
/// identity header name.
proof fn lemma_lower_identity_name(name: Seq<char>)
    requires
        forall|k: int| 0 <= k < name.len() ==> !(65 <= (#[trigger] name[k] as u32) <= 90),
        stripped_prefix(name, identity_header_prefix()) is Some,
    ensures
        is_identity_header_name(name),
{
    let l = name.map_values(|c: char| ascii_lower(c));
    assert(l =~= name);
}

/// A comma-separated list of role names is a valid header value.
pub proof fn roles_csv_is_header_value(roles: Seq<Role>)
    ensures
        is_header_value(roles_csv_spec(roles)),
    decreases roles.len(),
{
    reveal_strlit(",");
    if roles.len() == 1 {
        crate::security::roles::role_name_is_lower_ascii(roles[0]);
    } else if roles.len() > 1 {
        roles_csv_is_header_value(roles.drop_last());
        crate::security::roles::role_name_is_lower_ascii(roles.last());
        let a = roles_csv_spec(roles.drop_last());
        let b = crate::security::roles::role_name(roles.last());
        let s = a + ","@ + b;
        assert forall|i: int| 0 <= i < s.len() implies crate::wire::header_value_char(
            #[trigger] s[i],
        ) by {
            if i < a.len() {
                assert(s[i] == a[i]);
            } else if i == a.len() {
            } else {
                assert(s[i] == b[i - a.len() - 1]);
            }
        }
    }
}

} // verus!
