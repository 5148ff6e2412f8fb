//! Role-based access control at the level of services.
use vstd::prelude::*;
use vstd::string::*;

use crate::error::{forbidden_error, ApiError};
use crate::middleware::jwt::is_public_path;
use crate::security::roles::{has_role, Role};
use crate::text::{split, split_char, str_eq, trim_start_char, trim_start_matches, views};

verus! {

/// The segments of a request path: leading slashes dropped, then split on
/// `/`.
pub open spec fn path_segments(path: Seq<char>) -> Seq<Seq<char>> {
    split_char(trim_start_char(path, '/'), '/')
}

/// The service a path addresses: its first segment.
pub open spec fn service_of(path: Seq<char>) -> Seq<char> {
    path_segments(path)[0]
}

/// Whether `p` has `n` segments of which the first two are `a` and `b`.
pub open spec fn shape(p: Seq<Seq<char>>, n: nat, a: Seq<char>, b: Seq<char>) -> bool {
    p.len() == n && n >= 2 && p[0] == a && p[1] == b
}

/// The routes of a learner's own lab session.
pub open spec fn session_route_allowed(method: Seq<char>, path: Seq<char>) -> bool {
    let p = path_segments(path);
    ||| (method == "POST"@ && shape(p, 4, "sessions"@, "labs"@) && p[3] == "start"@)
    ||| (method == "GET"@ && shape(p, 3, "sessions"@, "sessions"@))
    ||| (method == "GET"@ && shape(p, 4, "sessions"@, "sessions"@) && p[3] == "progress"@)
    ||| (method == "POST"@ && shape(p, 4, "sessions"@, "sessions"@) && p[3] == "validate-step"@)
    ||| (method == "POST"@ && shape(p, 4, "sessions"@, "sessions"@) && p[3] == "request-hint"@)
    ||| (method == "POST"@ && shape(p, 4, "sessions"@, "sessions"@) && p[3] == "complete"@)
    ||| (method == "DELETE"@ && shape(p, 3, "sessions"@, "sessions"@))
}

/// A writing method: `POST`, `PUT` or `DELETE`.
pub open spec fn is_write_method(method: Seq<char>) -> bool {
    method == "POST"@ || method == "PUT"@ || method == "DELETE"@
}

/// The services that learners may read and creators may also write.
pub open spec fn is_content_service(service: Seq<char>) -> bool {
    ||| service == "labs"@
    ||| service == "users"@
    ||| service == "sessions"@
    ||| service == "starpaths"@
    ||| service == "groups"@
}

/// Whether the request is allowed: `/health` is public and admins may do
/// anything; otherwise learners (and creators) may read the content
/// services, creators may also write them and use the lab builder, and
/// everything else is denied. The decision looks at the service a path
/// addresses, never at the route inside it.
pub open spec fn rbac_allows(method: Seq<char>, path: Seq<char>, roles: Seq<Role>) -> bool {
    if path == "/health"@ {
        true
    } else if roles.contains(Role::Admin) {
        true
    } else {
        let is_learner = roles.contains(Role::Learner) || roles.contains(Role::Creator);
        let is_creator = roles.contains(Role::Creator);
        let service = service_of(path);
        if method == "GET"@ {
            (is_content_service(service) && is_learner) || (service == "lab-builder"@
                && is_creator)
        } else if is_write_method(method) {
            (is_content_service(service) || service == "lab-builder"@) && is_creator
        } else {
            false
        }
    }
}

fn segment_is(p: &Vec<String>, i: usize, s: &str) -> (r: bool)
    requires
        i < p@.len(),
    ensures
        r == (p@[i as int]@ == s@),
{
    str_eq(p[i].as_str(), s)
}

fn shape_is(p: &Vec<String>, n: usize, a: &str, b: &str) -> (r: bool)
    ensures
        r == shape(views(p@), n as nat, a@, b@),
{
    p.len() == n && n >= 2 && segment_is(p, 0, a) && segment_is(p, 1, b)
}

/// Whether the request is one of the routes a learner's own lab session
/// goes through: starting a lab, reading a session and its progress,
/// validating a step, asking for a hint, completing and ending it. Access
/// itself is decided per service by `rbac_allows`, which does not look at
/// routes.
pub fn learner_can_access_session_route(method: &str, path: &str) -> (r: bool)
    ensures
        r == session_route_allowed(method@, path@),
{
    let p = split(trim_start_matches(path, '/'), '/');
    let ghost ps = views(p@);
    assert(ps == path_segments(path@));
    let get = str_eq(method, "GET");
    let post = str_eq(method, "POST");
    let delete = str_eq(method, "DELETE");
    let four_sessions = shape_is(&p, 4, "sessions", "sessions");
    let three_sessions = shape_is(&p, 3, "sessions", "sessions");
    if post && shape_is(&p, 4, "sessions", "labs") && segment_is(&p, 3, "start") {
        return true;
    }
    if get && three_sessions {
        return true;
    }
    if get && four_sessions && segment_is(&p, 3, "progress") {
        return true;
    }
    if post && four_sessions && segment_is(&p, 3, "validate-step") {
        return true;
    }
    if post && four_sessions && segment_is(&p, 3, "request-hint") {
        return true;
    }
    if post && four_sessions && segment_is(&p, 3, "complete") {
        return true;
    }
    if delete && three_sessions {
        return true;
    }
    proof {
        if shape(ps, 4, "sessions"@, "labs"@) {
            reveal_strlit("sessions");
            reveal_strlit("labs");
            assert("sessions"@[1] != "labs"@[1]);
        }
    }
    false
}

/// Whether the request is allowed for a caller with these roles.
pub fn rbac_allowed(method: &str, path: &str, roles: &Vec<Role>) -> (r: bool)
    ensures
        r == rbac_allows(method@, path@, roles@),
{
    if is_public_path(path) {
        return true;
    }
    if has_role(roles, Role::Admin) {
        return true;
    }
    let is_learner = has_role(roles, Role::Learner) || has_role(roles, Role::Creator);
    let is_creator = has_role(roles, Role::Creator);
    let p = split(trim_start_matches(path, '/'), '/');
    let service = p[0].as_str();
    assert(service@ == service_of(path@));
    let get = str_eq(method, "GET");
    let write = str_eq(method, "POST") || str_eq(method, "PUT") || str_eq(method, "DELETE");
    let content = str_eq(service, "labs") || str_eq(service, "users") || str_eq(
        service,
        "sessions",
    ) || str_eq(service, "starpaths") || str_eq(service, "groups");
    let builder = str_eq(service, "lab-builder");
    if get {
        (content && is_learner) || (builder && is_creator)
    } else if write {
        (content || builder) && is_creator
    } else {
        false
    }
}

/// Access control of a request: allowed, or 403 "You do not have permission
/// to access this resource".
pub fn rbac_check(method: &str, path: &str, roles: &Vec<Role>) -> (r: Result<(), ApiError>)
    ensures
        r is Ok == rbac_allows(method@, path@, roles@),
        r matches Err(e) ==> e@ == forbidden_error(
            "You do not have permission to access this resource"@,
        ),
{
    if rbac_allowed(method, path, roles) {
        Ok(())
    } else {
        Err(ApiError::forbidden("You do not have permission to access this resource"))
    }
}

/// An admin may make any request.
pub proof fn admin_allowed_everywhere(method: Seq<char>, path: Seq<char>, roles: Seq<Role>)
    requires
        roles.contains(Role::Admin),
    ensures
        rbac_allows(method, path, roles),
{
}

/// `/health` is open to everyone, with or without roles.
pub proof fn health_is_public(method: Seq<char>, roles: Seq<Role>)
    ensures
        rbac_allows(method, "/health"@, roles),
{
}

/// A caller without roles is denied everything but `/health`.
pub proof fn no_roles_denied(method: Seq<char>, path: Seq<char>)
    requires
        path != "/health"@,
    ensures
        !rbac_allows(method, path, Seq::<Role>::empty()),
{
}

/// Granting more roles never takes access away.
pub proof fn more_roles_never_deny(
    method: Seq<char>,
    path: Seq<char>,
    roles: Seq<Role>,
    more: Seq<Role>,
)
    requires
        rbac_allows(method, path, roles),
        forall|r: Role| roles.contains(r) ==> more.contains(r),
    ensures
        rbac_allows(method, path, more),
{
}

/// A caller who is a learner and nothing more cannot write to any service.
pub proof fn learner_cannot_write_content(method: Seq<char>, path: Seq<char>, roles: Seq<Role>)
    requires
        is_write_method(method),
        path != "/health"@,
        forall|r: Role| roles.contains(r) ==> r == Role::Learner,
    ensures
        !rbac_allows(method, path, roles),
{
    lemma_methods_distinct();
    assert(!roles.contains(Role::Creator));
    assert(!roles.contains(Role::Admin));
}

/// A learner may read every content service.
pub proof fn learner_reads_content(path: Seq<char>, roles: Seq<Role>)
    requires
        is_content_service(service_of(path)),
        roles.contains(Role::Learner),
    ensures
        rbac_allows("GET"@, path, roles),
{
}

/// A creator may read and write every content service.
pub proof fn creator_reads_and_writes_content(method: Seq<char>, path: Seq<char>, roles: Seq<Role>)
    requires
        method == "GET"@ || is_write_method(method),
        is_content_service(service_of(path)),
        roles.contains(Role::Creator),
    ensures
        rbac_allows(method, path, roles),
{
}

/// A creator may read and write the lab builder.
pub proof fn creator_uses_lab_builder(method: Seq<char>, path: Seq<char>, roles: Seq<Role>)
    requires
        method == "GET"@ || method == "POST"@ || method == "PUT"@ || method == "DELETE"@,
        service_of(path) == "lab-builder"@,
        roles.contains(Role::Creator),
    ensures
        rbac_allows(method, path, roles),
{
}

/// A caller without the creator or admin role may not use the lab builder.
pub proof fn lab_builder_needs_creator(method: Seq<char>, path: Seq<char>, roles: Seq<Role>)
    requires
        path != "/health"@,
        service_of(path) == "lab-builder"@,
        !roles.contains(Role::Creator),
        !roles.contains(Role::Admin),
    ensures
        !rbac_allows(method, path, roles),
{
    reveal_strlit("lab-builder");
    reveal_strlit("labs");
    reveal_strlit("users");
    reveal_strlit("sessions");
    reveal_strlit("starpaths");
    reveal_strlit("groups");
    assert("lab-builder"@.len() == 11);
    assert(!is_content_service(service_of(path)));
}

/// Apart from `/health`, a service that is neither a content service nor
/// the lab builder is open to admins only.
pub proof fn other_services_admin_only(method: Seq<char>, path: Seq<char>, roles: Seq<Role>)
    requires
        path != "/health"@,
        !is_content_service(service_of(path)),
        service_of(path) != "lab-builder"@,
        !roles.contains(Role::Admin),
    ensures
        !rbac_allows(method, path, roles),
{
}

/// Apart from `/health`, a method other than `GET`, `POST`, `PUT` and
/// `DELETE` is open to admins only.
pub proof fn other_methods_admin_only(method: Seq<char>, path: Seq<char>, roles: Seq<Role>)
    requires
        path != "/health"@,
        method != "GET"@ && method != "POST"@ && method != "PUT"@ && method != "DELETE"@,
        !roles.contains(Role::Admin),
    ensures
        !rbac_allows(method, path, roles),
{
}

proof fn lemma_methods_distinct()
    ensures
        "GET"@ != "POST"@,
        "GET"@ != "PUT"@,
        "GET"@ != "DELETE"@,
        "PUT"@ != "POST"@,
        "PUT"@ != "DELETE"@,
{
    reveal_strlit("PUT");
    reveal_strlit("GET");
    reveal_strlit("POST");
    reveal_strlit("DELETE");
    assert("GET"@[0] != "PUT"@[0]);
    assert("PUT"@.len() != "POST"@.len());
}

} // verus!
