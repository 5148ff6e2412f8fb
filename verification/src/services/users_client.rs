//! Resolving the provider's user id to the platform's internal user id
//! through the users service.
use vstd::prelude::*;
use vstd::string::*;

use crate::error::{invalid_response_error, timeout_error, unavailable_error, ApiError};
use crate::middleware::jwt::{pair_views, Identity};
use crate::middleware::jwt::identity_headers_spec;
use crate::security::roles::{role_name, roles_csv, roles_csv_spec, Role};
use crate::services::proxy::{lookup, ServiceRegistry};
use crate::services::retry::{
    backoff, lookup_attempt_step, retried, AttemptOutcome, LookupStep, RetryPolicy,
};
use crate::wire::{parse_uuid, uuid_parse};

verus! {

/// The users service's base address; 502 when no users service is
/// registered.
pub fn users_service_url(services: &ServiceRegistry) -> (r: Result<&String, ApiError>)
    ensures
        match lookup(services@, "users"@) {
            Some(a) => r matches Ok(u) && u@ == a,
            None => r matches Err(e) && e@ == unavailable_error("users"@),
        },
{
    match services.get("users") {
        Some(u) => Ok(u),
        None => Err(ApiError::upstream_unavailable("users")),
    }
}

/// The users service's address that answers who the caller is.
pub fn users_me_url(users_ms_url: &str) -> (r: String)
    ensures
        r@ == users_ms_url@ + "/me"@,
{
    let mut u = String::from_str(users_ms_url);
    u.append("/me");
    u
}

/// The headers that tell the users service who the caller is, in order:
/// provider id, e-mail, name, pseudonym and roles.
pub open spec fn lookup_headers_spec(id: &Identity) -> Seq<(Seq<char>, Seq<char>)> {
    seq![
        ("x-altair-keycloak-id"@, id.keycloak_id@),
        ("x-altair-email"@, id.email@),
        ("x-altair-name"@, id.name@),
        ("x-altair-pseudo"@, id.pseudo@),
        ("x-altair-roles"@, roles_csv_spec(id.roles@)),
    ]
}

/// The headers that tell the users service who the caller is.
pub fn user_lookup_headers(id: &Identity) -> (r: Vec<(String, String)>)
    ensures
        pair_views(r@) == lookup_headers_spec(id),
{
    let mut v: Vec<(String, String)> = Vec::new();
    v.push((String::from_str("x-altair-keycloak-id"), id.keycloak_id.clone()));
    v.push((String::from_str("x-altair-email"), id.email.clone()));
    v.push((String::from_str("x-altair-name"), id.name.clone()));
    v.push((String::from_str("x-altair-pseudo"), id.pseudo.clone()));
    v.push((String::from_str("x-altair-roles"), roles_csv(&id.roles)));
    assert(pair_views(v@) =~= lookup_headers_spec(id));
    v
}

/// The internal user id from the users service's answer (`data.user_id`,
/// when the body is JSON and that field is a string): it must be a UUID;
/// otherwise the answer is invalid.
pub fn user_id_from_reply(user_id: Option<&str>) -> (r: Result<u128, ApiError>)
    ensures
        match user_id {
            Some(s) => match uuid_parse(s@) {
                Some(v) => r == Ok::<u128, ApiError>(v),
                None => r matches Err(e) && e@ == invalid_response_error("users"@),
            },
            None => r matches Err(e) && e@ == invalid_response_error("users"@),
        },
{
    match user_id {
        Some(s) => match parse_uuid(s) {
            Some(v) => Ok(v),
            None => Err(ApiError::upstream_invalid_response("users")),
        },
        None => Err(ApiError::upstream_invalid_response("users")),
    }
}

/// An identity lookup in progress: the attempt whose outcome is awaited, or
/// the body of a successful answer.
pub enum LookupPhase {
    Attempting { attempt: u32 },
    ReadingBody,
    Done,
}

/// What happened since the last step of a lookup.
pub enum LookupEvent {
    /// The outcome of the current attempt.
    Outcome(AttemptOutcome),
    /// `data.user_id` of the successful answer (`None` when the body is not
    /// JSON or the field is not a string).
    Body(Option<String>),
}

/// What the lookup does next.
pub enum LookupAction {
    /// Wait `delay_ms`, then send attempt number `attempt`.
    RetryAfter { delay_ms: u64, attempt: u32 },
    /// Read the answer's body and report its `data.user_id`.
    ReadBody,
    /// The internal user id.
    Resolved { user_id: u128 },
    /// The lookup failed.
    Failed { error: ApiError },
}

/// An identity lookup with the users service.
pub struct UserLookup {
    pub policy: RetryPolicy,
    pub phase: LookupPhase,
}

impl UserLookup {
    /// A lookup waiting for its first attempt.
    pub fn start(policy: RetryPolicy) -> (r: Self)
        ensures
            r.policy == policy,
            r.phase matches LookupPhase::Attempting { attempt } && attempt == 1,
    {
        UserLookup { policy, phase: LookupPhase::Attempting { attempt: 1 } }
    }

    /// Whether the lookup waits for an event of this kind.
    pub open spec fn expects(&self, event: &LookupEvent) -> bool {
        match (self.phase, event) {
            (LookupPhase::Attempting { .. }, LookupEvent::Outcome(_)) => true,
            (LookupPhase::ReadingBody, LookupEvent::Body(_)) => true,
            _ => false,
        }
    }

    /// Whether the lookup waits for an event of this kind.
    pub fn accepts(&self, event: &LookupEvent) -> (r: bool)
        ensures
            r == self.expects(event),
    {
        match (&self.phase, event) {
            (LookupPhase::Attempting { .. }, LookupEvent::Outcome(_)) => true,
            (LookupPhase::ReadingBody, LookupEvent::Body(_)) => true,
            _ => false,
        }
    }

    /// Takes the next event and says what to do: attempts are retried,
    /// read or failed as `lookup_attempt_step` decides, and a successful
    /// answer yields the internal user id when its `data.user_id` is a UUID.
    pub fn step(&mut self, event: LookupEvent) -> (r: LookupAction)
        requires
            old(self).expects(&event),
        ensures
            final(self).policy == old(self).policy,
            match (old(self).phase, event) {
                (LookupPhase::Attempting { attempt }, LookupEvent::Outcome(o)) => {
                    if o matches AttemptOutcome::Answered { status } && 200 <= status < 300 {
                        r is ReadBody && final(self).phase is ReadingBody
                    } else if retried(old(self).policy, attempt, o) {
                        &&& r matches LookupAction::RetryAfter { delay_ms, attempt: n } && delay_ms
                            == backoff(old(self).policy.base_delay_ms, attempt) && n == attempt + 1
                        &&& final(self).phase matches LookupPhase::Attempting { attempt: n } && n
                            == attempt + 1
                    } else {
                        &&& final(self).phase is Done
                        &&& r matches LookupAction::Failed { error } && error@ == (match o {
                            AttemptOutcome::Answered { .. } => invalid_response_error("users"@),
                            AttemptOutcome::Failed { timeout, .. } => if timeout {
                                timeout_error("users"@)
                            } else {
                                unavailable_error("users"@)
                            },
                        })
                    }
                },
                (LookupPhase::ReadingBody, LookupEvent::Body(user_id)) => {
                    &&& final(self).phase is Done
                    &&& match user_id {
                        Some(s) => match uuid_parse(s@) {
                            Some(v) => r matches LookupAction::Resolved { user_id: u } && u == v,
                            None => r matches LookupAction::Failed { error } && error@
                                == invalid_response_error("users"@),
                        },
                        None => r matches LookupAction::Failed { error } && error@
                            == invalid_response_error("users"@),
                    }
                },
                _ => false,
            },
    {
        let mut phase = LookupPhase::Done;
        std::mem::swap(&mut phase, &mut self.phase);
        match (phase, event) {
            (LookupPhase::Attempting { attempt }, LookupEvent::Outcome(o)) => {
                match lookup_attempt_step(self.policy, attempt, o) {
                    LookupStep::ReadBody => {
                        self.phase = LookupPhase::ReadingBody;
                        LookupAction::ReadBody
                    },
                    LookupStep::Retry { delay_ms } => {
                        self.phase = LookupPhase::Attempting { attempt: attempt + 1 };
                        LookupAction::RetryAfter { delay_ms, attempt: attempt + 1 }
                    },
                    LookupStep::Fail { error } => LookupAction::Failed { error },
                }
            },
            (LookupPhase::ReadingBody, LookupEvent::Body(user_id)) => {
                let id = match &user_id {
                    Some(s) => Some(s.as_str()),
                    None => None,
                };
                match user_id_from_reply(id) {
                    Ok(u) => LookupAction::Resolved { user_id: u },
                    Err(error) => LookupAction::Failed { error },
                }
            },
            _ => LookupAction::Failed { error: ApiError::upstream_unavailable("users") },
        }
    }
}

/// The users service is told who the caller is exactly as the services
/// behind the gateway are: the lookup's provider id, e-mail, name and roles
/// headers equal the identity headers of those names, whatever the user id;
/// its pseudonym header carries the identity's pseudonym.
pub proof fn lookup_roles_match_identity_header(user_id: u128, id: &Identity)
    ensures
        lookup_headers_spec(id).len() == 5,
        lookup_headers_spec(id)[0] == identity_headers_spec(user_id, id@)[1],
        lookup_headers_spec(id)[1] == identity_headers_spec(user_id, id@)[3],
        lookup_headers_spec(id)[2] == identity_headers_spec(user_id, id@)[2],
        lookup_headers_spec(id)[3] == ("x-altair-pseudo"@, id.pseudo@),
        lookup_headers_spec(id)[4] == identity_headers_spec(user_id, id@)[4],
        lookup_headers_spec(id)[4].0 == "x-altair-roles"@,
{
}

/// A caller with a role names it to the users service: the roles header
/// starts with the name of the first role, and is empty only when the caller
/// has no role.
pub proof fn lookup_roles_name_first_role(id: &Identity)
    ensures
        id.roles@.len() > 0 ==> role_name(id.roles@[0]).is_prefix_of(lookup_headers_spec(id)[4].1),
        lookup_headers_spec(id)[4].1.len() == 0 <==> id.roles@.len() == 0,
{
    lemma_csv_starts_with_first(id.roles@);
}

proof fn lemma_csv_starts_with_first(roles: Seq<Role>)
    ensures
        roles.len() > 0 ==> role_name(roles[0]).is_prefix_of(roles_csv_spec(roles)),
        roles_csv_spec(roles).len() == 0 <==> roles.len() == 0,
    decreases roles.len(),
{
    reveal_strlit("admin");
    reveal_strlit("creator");
    reveal_strlit("learner");
    if roles.len() > 1 {
        lemma_csv_starts_with_first(roles.drop_last());
        let a = roles_csv_spec(roles.drop_last());
        let s = a + ","@ + role_name(roles.last());
        let p = role_name(roles[0]);
        assert(roles.drop_last()[0] == roles[0]);
        assert forall|i: int| 0 <= i < p.len() implies s[i] == p[i] by {
            assert(s[i] == a[i]);
        }
    }
}

} // verus!
