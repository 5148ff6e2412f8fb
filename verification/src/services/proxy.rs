//! The reverse proxy: where a request goes, which headers travel, and the
//! access check on private labs and star paths.
use vstd::prelude::*;
use vstd::string::*;

use crate::services::retry::{proxy_attempt_step, proxy_step, AttemptOutcome, ProxyStep, RetryPolicy};
use crate::text::{
    ascii_lower, opt_str_view, opt_string_view, split, split_char, str_eq, trim_end_char,
    trim_end_matches,
    views,
};
use crate::middleware::jwt::{identity_header_prefix, is_identity_header_name};
use crate::wire::{is_uuid, uuid_parse};

verus! {

/// The upstream services by name: name to base address.
pub struct ServiceRegistry {
    entries: Vec<(String, String)>,
}

/// The map that a list of (name, address) entries describes; a later entry
/// for a name replaces an earlier one.
pub open spec fn entries_map(es: Seq<(String, String)>) -> Map<Seq<char>, Seq<char>>
    decreases es.len(),
{
    if es.len() == 0 {
        Map::empty()
    } else {
        entries_map(es.drop_last()).insert(es.last().0@, es.last().1@)
    }
}

/// What a map holds under a key.
pub open spec fn lookup(m: Map<Seq<char>, Seq<char>>, k: Seq<char>) -> Option<Seq<char>> {
    if m.dom().contains(k) {
        Some(m[k])
    } else {
        None
    }
}

impl View for ServiceRegistry {
    type V = Map<Seq<char>, Seq<char>>;

    closed spec fn view(&self) -> Map<Seq<char>, Seq<char>> {
        entries_map(self.entries@)
    }
}

/// The address configured for a service, else its local default.
pub open spec fn address_or(configured: Option<Seq<char>>, default: Seq<char>) -> Seq<char> {
    match configured {
        Some(a) => a,
        None => default,
    }
}

fn address_or_default(configured: Option<String>, default: &str) -> (r: String)
    ensures
        r@ == address_or(opt_string_view(configured), default@),
{
    match configured {
        Some(a) => a,
        None => String::from_str(default),
    }
}

impl ServiceRegistry {
    /// A registry without services.
    pub fn new() -> (r: Self)
        ensures
            r@ == Map::<Seq<char>, Seq<char>>::empty(),
    {
        ServiceRegistry { entries: Vec::new() }
    }

    /// Registers `address` for `name`, replacing any earlier address.
    pub fn insert(&mut self, name: String, address: String)
        ensures
            final(self)@ == old(self)@.insert(name@, address@),
    {
        let ghost before = self.entries@;
        self.entries.push((name, address));
        assert(self.entries@.drop_last() =~= before);
    }

    /// The address registered for `name`, if any.
    pub fn get(&self, name: &str) -> (r: Option<&String>)
        ensures
            match r {
                Some(a) => lookup(self@, name@) == Some(a@),
                None => lookup(self@, name@) is None,
            },
    {
        let mut i: usize = self.entries.len();
        assert(self.entries@.take(i as int) =~= self.entries@);
        while i > 0
            invariant
                i <= self.entries@.len(),
                lookup(entries_map(self.entries@), name@) == lookup(
                    entries_map(self.entries@.take(i as int)),
                    name@,
                ),
            decreases i,
        {
            let ghost t = self.entries@.take(i as int);
            assert(t.drop_last() =~= self.entries@.take(i - 1));
            assert(t.last() == self.entries@[i - 1]);
            if str_eq(self.entries[i - 1].0.as_str(), name) {
                return Some(&self.entries[i - 1].1);
            }
            i = i - 1;
        }
        None
    }

    /// The gateway's services — `users`, `labs`, `sessions`, `starpaths` and
    /// `groups` — at their configured addresses (`USERS_MS_URL`,
    /// `LABS_MS_URL`, `SESSIONS_MS_URL`, `STARPATH_MS_URL`, `GROUPS_MS_URL`),
    /// else at their local defaults on ports 3001, 3002, 3003, 3005 and 3006.
    pub fn from_settings(
        users: Option<String>,
        labs: Option<String>,
        sessions: Option<String>,
        starpaths: Option<String>,
        groups: Option<String>,
    ) -> (r: Self)
        ensures
            r@ == map![
                "users"@ => address_or(opt_string_view(users), "http://localhost:3001"@),
                "labs"@ => address_or(opt_string_view(labs), "http://localhost:3002"@),
                "sessions"@ => address_or(opt_string_view(sessions), "http://localhost:3003"@),
                "starpaths"@ => address_or(opt_string_view(starpaths), "http://localhost:3005"@),
                "groups"@ => address_or(opt_string_view(groups), "http://localhost:3006"@),
            ],
    {
        let mut r = ServiceRegistry::new();
        r.insert(
            String::from_str("users"),
            address_or_default(users, "http://localhost:3001"),
        );
        r.insert(String::from_str("labs"), address_or_default(labs, "http://localhost:3002"));
        r.insert(
            String::from_str("sessions"),
            address_or_default(sessions, "http://localhost:3003"),
        );
        r.insert(
            String::from_str("starpaths"),
            address_or_default(starpaths, "http://localhost:3005"),
        );
        r.insert(
            String::from_str("groups"),
            address_or_default(groups, "http://localhost:3006"),
        );
        r
    }
}

/// A registered address is read back as it was written.
pub proof fn registry_reads_back_writes(
    m: Map<Seq<char>, Seq<char>>,
    name: Seq<char>,
    address: Seq<char>,
    other: Seq<char>,
)
    ensures
        lookup(m.insert(name, address), name) == Some(address),
        other != name ==> lookup(m.insert(name, address), other) == lookup(m, other),
{
}

/// The upstream address of a proxied request: the service's base address
/// without trailing slashes, a slash, the rest of the path, and the query
/// string when there is one.
pub open spec fn upstream_url_spec(base: Seq<char>, rest: Seq<char>, query: Option<Seq<char>>) -> Seq<
    char,
> {
    let path = trim_end_char(base, '/') + "/"@ + rest;
    match query {
        Some(q) => path + "?"@ + q,
        None => path,
    }
}

/// The upstream address of a proxied request.
pub fn upstream_url(base: &str, rest: &str, query: Option<&str>) -> (r: String)
    ensures
        r@ == upstream_url_spec(
            base@,
            rest@,
            opt_str_view(query),
        ),
{
    let mut url = String::from_str(trim_end_matches(base, '/'));
    url.append("/");
    url.append(rest);
    match query {
        Some(q) => {
            url.append("?");
            url.append(q);
        },
        None => {},
    }
    url
}

/// The request headers that are not forwarded upstream.
pub open spec fn dropped_request_header(name: Seq<char>) -> bool {
    name == "host"@ || name == "content-length"@ || name == "connection"@ || name == "origin"@
        || name == "referer"@
}

/// Whether a request header (by its lower-case name) is forwarded upstream:
/// all are but `host`, `content-length`, `connection`, `origin` and
/// `referer`.
pub fn is_forwarded_request_header(name: &str) -> (r: bool)
    ensures
        r == !dropped_request_header(name@),
{
    !(str_eq(name, "host") || str_eq(name, "content-length") || str_eq(name, "connection")
        || str_eq(name, "origin") || str_eq(name, "referer"))
}

/// The response headers passed back to the client.
pub open spec fn allowed_response_header(name: Seq<char>) -> bool {
    ||| name == "content-type"@
    ||| name == "set-cookie"@
    ||| name == "location"@
    ||| name == "cache-control"@
    ||| name == "etag"@
    ||| name == "last-modified"@
    ||| name == "expires"@
    ||| name == "vary"@
}

/// Whether an upstream response header (by its lower-case name) is passed
/// back: only `content-type`, `set-cookie`, `location`, the cache headers
/// `cache-control`, `etag`, `last-modified`, `expires`, and `vary`.
pub fn is_allowed_response_header(name: &str) -> (r: bool)
    ensures
        r == allowed_response_header(name@),
{
    str_eq(name, "content-type") || str_eq(name, "set-cookie") || str_eq(name, "location")
        || str_eq(name, "cache-control") || str_eq(name, "etag") || str_eq(name, "last-modified")
        || str_eq(name, "expires") || str_eq(name, "vary")
}

/// Whether a proxied request is subject to the resource access check: reads
/// of labs and star paths.
pub open spec fn access_checked(method: Seq<char>, service: Seq<char>) -> bool {
    method == "GET"@ && (service == "labs"@ || service == "starpaths"@)
}

/// The resource a checked request reads: the path's only segment, or its
/// second of two, when that segment is a UUID.
pub open spec fn resource_id_spec(method: Seq<char>, service: Seq<char>, rest: Seq<char>) -> Option<
    Seq<char>,
> {
    let parts = split_char(rest, '/');
    if !access_checked(method, service) {
        None
    } else if parts.len() == 1 && uuid_parse(parts[0]) is Some {
        Some(parts[0])
    } else if parts.len() == 2 && uuid_parse(parts[1]) is Some {
        Some(parts[1])
    } else {
        None
    }
}

/// The id of the resource whose access must be checked before its answer is
/// handed on, if the request is such a read.
pub fn access_resource_id(method: &str, service: &str, rest: &str) -> (r: Option<String>)
    ensures
        match r {
            Some(id) => resource_id_spec(method@, service@, rest@) == Some(id@),
            None => resource_id_spec(method@, service@, rest@) is None,
        },
{
    if !(str_eq(method, "GET") && (str_eq(service, "labs") || str_eq(service, "starpaths"))) {
        return None;
    }
    let parts = split(rest, '/');
    assert(views(parts@) == split_char(rest@, '/'));
    if parts.len() == 1 && is_uuid(parts[0].as_str()) {
        Some(parts[0].clone())
    } else if parts.len() == 2 && is_uuid(parts[1].as_str()) {
        Some(parts[1].clone())
    } else {
        None
    }
}

/// What the access check reads from the resource's body (`data.visibility`
/// and `data.creator_id`, when they are strings).
pub struct ResourceInfo {
    pub visibility: Option<String>,
    pub creator_id: Option<String>,
}

/// The next step of the access check.
pub enum AccessStep {
    /// Hand the resource on.
    Deliver,
    /// Ask the groups service at this address whether the user may read it.
    AskGroups { url: String },
}

/// Whether the resource is private (visibility `PRIVATE`; a missing
/// visibility counts as `PUBLIC`).
pub open spec fn is_private(info: ResourceInfo) -> bool {
    match info.visibility {
        Some(v) => v@ == "PRIVATE"@,
        None => false,
    }
}

/// Whether the caller created the resource.
pub open spec fn is_creator(info: ResourceInfo, user_id: Seq<char>) -> bool {
    match info.creator_id {
        Some(c) => c@ == user_id,
        None => false,
    }
}

/// The groups service's address that says whether the user may read the
/// resource.
pub open spec fn group_access_url(
    groups: Seq<char>,
    service: Seq<char>,
    user_id: Seq<char>,
    resource_id: Seq<char>,
) -> Seq<char> {
    if service == "labs"@ {
        groups + "/internal/access/lab?user_id="@ + user_id + "&lab_id="@ + resource_id
    } else {
        groups + "/internal/access/starpath?user_id="@ + user_id + "&starpath_id="@ + resource_id
    }
}

/// The access check of a resource that was read: 401 without an internal
/// user id; the creator reads it; anyone reads a resource that is not
/// private; for a private one the groups service is asked (502 when no
/// groups service is registered).
pub fn access_step(
    services: &ServiceRegistry,
    service: &str,
    resource_id: &str,
    info: &ResourceInfo,
    user_id: Option<&str>,
) -> (r: Result<AccessStep, u16>)
    ensures
        match user_id {
            None => r == Err::<AccessStep, u16>(401),
            Some(u) => if is_creator(*info, u@) || !is_private(*info) {
                r matches Ok(AccessStep::Deliver)
            } else {
                match lookup(services@, "groups"@) {
                    None => r == Err::<AccessStep, u16>(502),
                    Some(g) => r matches Ok(AccessStep::AskGroups { url }) && url@
                        == group_access_url(g, service@, u@, resource_id@),
                }
            },
        },
{
    let user = match user_id {
        Some(u) => u,
        None => return Err(401),
    };
    match &info.creator_id {
        Some(c) => {
            if str_eq(c.as_str(), user) {
                return Ok(AccessStep::Deliver);
            }
        },
        None => {},
    }
    let private = match &info.visibility {
        Some(v) => str_eq(v.as_str(), "PRIVATE"),
        None => false,
    };
    if !private {
        return Ok(AccessStep::Deliver);
    }
    let groups = match services.get("groups") {
        Some(g) => g,
        None => return Err(502),
    };
    let mut url = groups.clone();
    if str_eq(service, "labs") {
        url.append("/internal/access/lab?user_id=");
        url.append(user);
        url.append("&lab_id=");
    } else {
        url.append("/internal/access/starpath?user_id=");
        url.append(user);
        url.append("&starpath_id=");
    }
    url.append(resource_id);
    Ok(AccessStep::AskGroups { url })
}

/// The groups service's verdict (`data` of its answer, when a boolean): the
/// resource is handed on only when it is `true`; otherwise 403.
pub fn group_access_verdict(allowed: Option<bool>) -> (r: Result<(), u16>)
    ensures
        r == (if allowed == Some(true) {
            Ok::<(), u16>(())
        } else {
            Err::<(), u16>(403)
        }),
{
    match allowed {
        Some(true) => Ok(()),
        _ => Err(403),
    }
}

/// Where a proxied request stands.
pub enum ProxyPhase {
    /// Waiting for the outcome of attempt number `attempt` (from 1).
    Attempting { attempt: u32 },
    /// Waiting for what the body of the answer says about the resource.
    ReadingResource { status: u16, resource_id: String },
    /// Waiting for the groups service's verdict on a private resource.
    CheckingGroups { status: u16 },
    /// The client has its answer.
    Done,
}

/// What happened since the last step.
pub enum ProxyEvent {
    /// The outcome of the current attempt.
    Outcome(AttemptOutcome),
    /// What the answer's body says about the resource (`None` when the body
    /// could not be read or is not JSON).
    ResourceBody(Option<ResourceInfo>),
    /// The groups service's answer: `None` when it could not be asked or its
    /// body is not JSON, else its `data` when that is a boolean.
    GroupReply(Option<Option<bool>>),
}

/// What the proxy does next.
pub enum ProxyAction {
    /// Wait `delay_ms`, then send attempt number `attempt`.
    RetryAfter { delay_ms: u64, attempt: u32 },
    /// Hand the upstream answer on as it came (allowed headers only).
    ForwardAnswer,
    /// Read the answer's body and report what it says about the resource.
    ReadResourceBody,
    /// Ask the groups service at this address.
    AskGroups { url: String },
    /// Hand on the resource's body that was read, with this status.
    DeliverResource { status: u16 },
    /// Answer with this error status.
    Reject { status: u16 },
}

/// A proxied request: its settings and where it stands.
pub struct ProxyFlow {
    pub policy: RetryPolicy,
    pub service: String,
    /// The resource whose access is checked, for reads of labs and star paths.
    pub resource_id: Option<String>,
    /// The internal user id the request carries, if any.
    pub user_id: Option<String>,
    pub phase: ProxyPhase,
}

impl ProxyFlow {
    /// Starts proxying `method /service/rest?query`: 404 for an unknown
    /// service; else the upstream address and a flow waiting for the first
    /// attempt.
    pub fn start(
        services: &ServiceRegistry,
        method: &str,
        service: &str,
        rest: &str,
        query: Option<&str>,
        user_id: Option<String>,
        policy: RetryPolicy,
    ) -> (r: Result<(ProxyFlow, String), u16>)
        ensures
            match lookup(services@, service@) {
                None => r == Err::<(ProxyFlow, String), u16>(404),
                Some(base) => r matches Ok((flow, url)) && {
                    &&& url@ == upstream_url_spec(
                        base,
                        rest@,
                        opt_str_view(query),
                    )
                    &&& flow.phase matches ProxyPhase::Attempting { attempt } && attempt == 1
                    &&& flow.policy == policy
                    &&& flow.service@ == service@
                    &&& opt_string_view(flow.resource_id) == resource_id_spec(method@, service@, rest@)
                    &&& opt_string_view(flow.user_id) == opt_string_view(user_id)
                },
            },
    {
        let base = match services.get(service) {
            Some(b) => b,
            None => return Err(404),
        };
        let url = upstream_url(base.as_str(), rest, query);
        let flow = ProxyFlow {
            policy,
            service: String::from_str(service),
            resource_id: access_resource_id(method, service, rest),
            user_id,
            phase: ProxyPhase::Attempting { attempt: 1 },
        };
        Ok((flow, url))
    }

    /// Whether the flow waits for an event of this kind.
    pub open spec fn expects(&self, event: &ProxyEvent) -> bool {
        match (self.phase, event) {
            (ProxyPhase::Attempting { .. }, ProxyEvent::Outcome(_)) => true,
            (ProxyPhase::ReadingResource { .. }, ProxyEvent::ResourceBody(_)) => true,
            (ProxyPhase::CheckingGroups { .. }, ProxyEvent::GroupReply(_)) => true,
            _ => false,
        }
    }

    /// Whether the flow waits for an event of this kind.
    pub fn accepts(&self, event: &ProxyEvent) -> (r: bool)
        ensures
            r == self.expects(event),
    {
        match (&self.phase, event) {
            (ProxyPhase::Attempting { .. }, ProxyEvent::Outcome(_)) => true,
            (ProxyPhase::ReadingResource { .. }, ProxyEvent::ResourceBody(_)) => true,
            (ProxyPhase::CheckingGroups { .. }, ProxyEvent::GroupReply(_)) => true,
            _ => false,
        }
    }

    /// Takes the next event and says what to do. An attempt's outcome is
    /// retried, failed or accepted as the retry policy says; an accepted
    /// answer is handed on, or, for a read of a lab or star path, its body is
    /// read first; the resource is then handed on, refused, or checked with
    /// the groups service, whose verdict decides.
    pub fn step(&mut self, services: &ServiceRegistry, event: ProxyEvent) -> (r: ProxyAction)
        requires
            old(self).expects(&event),
        ensures
            final(self).policy == old(self).policy,
            final(self).service@ == old(self).service@,
            opt_string_view(final(self).resource_id) == opt_string_view(old(self).resource_id),
            opt_string_view(final(self).user_id) == opt_string_view(old(self).user_id),
            match (old(self).phase, event) {
                (ProxyPhase::Attempting { attempt }, ProxyEvent::Outcome(o)) => match proxy_step(
                    old(self).policy,
                    attempt,
                    o,
                ) {
                    ProxyStep::Retry { delay_ms } => {
                        &&& r matches ProxyAction::RetryAfter { delay_ms: d, attempt: n } && d
                            == delay_ms && n == attempt + 1
                        &&& final(self).phase matches ProxyPhase::Attempting { attempt: n } && n
                            == attempt + 1
                    },
                    ProxyStep::Fail { status } => {
                        &&& r matches ProxyAction::Reject { status: s } && s == status
                        &&& final(self).phase is Done
                    },
                    ProxyStep::Deliver => match (o, old(self).resource_id) {
                        (AttemptOutcome::Answered { status }, Some(id)) => {
                            &&& r is ReadResourceBody
                            &&& final(self).phase matches ProxyPhase::ReadingResource {
                                status: s,
                                resource_id: rid,
                            } && s == status && rid@ == id@
                        },
                        _ => r is ForwardAnswer && final(self).phase is Done,
                    },
                },
                (
                    ProxyPhase::ReadingResource { status, resource_id },
                    ProxyEvent::ResourceBody(body),
                ) => match body {
                    None => r matches ProxyAction::Reject { status: s } && s == 502
                        && final(self).phase is Done,
                    Some(info) => match old(self).user_id {
                        None => r matches ProxyAction::Reject { status: s } && s == 401
                            && final(self).phase is Done,
                        Some(u) => if is_creator(info, u@) || !is_private(info) {
                            r matches ProxyAction::DeliverResource { status: s } && s == status
                                && final(self).phase is Done
                        } else {
                            match lookup(services@, "groups"@) {
                                None => r matches ProxyAction::Reject { status: s } && s == 502
                                    && final(self).phase is Done,
                                Some(g) => {
                                    &&& r matches ProxyAction::AskGroups { url } && url@
                                        == group_access_url(g, old(self).service@, u@, resource_id@)
                                    &&& final(self).phase matches ProxyPhase::CheckingGroups {
                                        status: s,
                                    } && s == status
                                },
                            }
                        },
                    },
                },
                (ProxyPhase::CheckingGroups { status }, ProxyEvent::GroupReply(reply)) => {
                    &&& final(self).phase is Done
                    &&& match reply {
                        None => r matches ProxyAction::Reject { status: s } && s == 502,
                        Some(allowed) => if allowed == Some(true) {
                            r matches ProxyAction::DeliverResource { status: s } && s == status
                        } else {
                            r matches ProxyAction::Reject { status: s } && s == 403
                        },
                    }
                },
                _ => false,
            },
            // A resource read through the access check reaches the client only
            // when it is not private, the caller created it, or the groups
            // service allowed it.
            r is DeliverResource ==> match (old(self).phase, event) {
                (ProxyPhase::ReadingResource { .. }, ProxyEvent::ResourceBody(Some(info))) => match old(
                    self,
                ).user_id {
                    Some(u) => is_creator(info, u@) || !is_private(info),
                    None => false,
                },
                (ProxyPhase::CheckingGroups { .. }, ProxyEvent::GroupReply(reply)) => reply == Some(
                    Some(true),
                ),
                _ => false,
            },
    {
        let mut phase = ProxyPhase::Done;
        std::mem::swap(&mut phase, &mut self.phase);
        match (phase, event) {
            (ProxyPhase::Attempting { attempt }, ProxyEvent::Outcome(o)) => {
                match proxy_attempt_step(self.policy, attempt, o) {
                    ProxyStep::Retry { delay_ms } => {
                        self.phase = ProxyPhase::Attempting { attempt: attempt + 1 };
                        ProxyAction::RetryAfter { delay_ms, attempt: attempt + 1 }
                    },
                    ProxyStep::Fail { status } => ProxyAction::Reject { status },
                    ProxyStep::Deliver => match (o, &self.resource_id) {
                        (AttemptOutcome::Answered { status }, Some(id)) => {
                            self.phase = ProxyPhase::ReadingResource {
                                status,
                                resource_id: id.clone(),
                            };
                            ProxyAction::ReadResourceBody
                        },
                        _ => ProxyAction::ForwardAnswer,
                    },
                }
            },
            (ProxyPhase::ReadingResource { status, resource_id }, ProxyEvent::ResourceBody(body)) => {
                match body {
                    None => ProxyAction::Reject { status: 502 },
                    Some(info) => {
                        let user = match &self.user_id {
                            Some(u) => Some(u.as_str()),
                            None => None,
                        };
                        match access_step(
                            services,
                            self.service.as_str(),
                            resource_id.as_str(),
                            &info,
                            user,
                        ) {
                            Err(s) => ProxyAction::Reject { status: s },
                            Ok(AccessStep::Deliver) => ProxyAction::DeliverResource { status },
                            Ok(AccessStep::AskGroups { url }) => {
                                self.phase = ProxyPhase::CheckingGroups { status };
                                ProxyAction::AskGroups { url }
                            },
                        }
                    },
                }
            },
            (ProxyPhase::CheckingGroups { status }, ProxyEvent::GroupReply(reply)) => {
                match reply {
                    None => ProxyAction::Reject { status: 502 },
                    Some(allowed) => match group_access_verdict(allowed) {
                        Ok(()) => ProxyAction::DeliverResource { status },
                        Err(s) => ProxyAction::Reject { status: s },
                    },
                }
            },
            _ => ProxyAction::Reject { status: 502 },
        }
    }
}

/// Every request header other than `host`, `content-length`,
/// `connection`, `origin` and `referer` is forwarded upstream.
pub proof fn all_other_request_headers_forwarded(name: Seq<char>)
    requires
        name != "host"@,
        name != "content-length"@,
        name != "connection"@,
        name != "origin"@,
        name != "referer"@,
    ensures
        !dropped_request_header(name),
{
}

/// `host`, `content-length`, `connection`, `origin` and `referer` are not
/// forwarded upstream.
pub proof fn hop_headers_not_forwarded()
    ensures
        dropped_request_header("host"@),
        dropped_request_header("content-length"@),
        dropped_request_header("connection"@),
        dropped_request_header("origin"@),
        dropped_request_header("referer"@),
{
}

/// Every identity header the gateway sets on a request (`x-altair-*`)
/// reaches the service behind it.
pub proof fn identity_headers_forwarded(name: Seq<char>)
    requires
        is_identity_header_name(name),
    ensures
        !dropped_request_header(name),
{
    reveal_strlit("x-altair-");
    reveal_strlit("host");
    reveal_strlit("content-length");
    reveal_strlit("connection");
    reveal_strlit("origin");
    reveal_strlit("referer");
    let l = name.map_values(|c: char| ascii_lower(c));
    assert(l.subrange(0, 9) == identity_header_prefix());
    assert(l.subrange(0, 9)[0] == l[0]);
    assert(identity_header_prefix()[0] == 'x');
    assert(ascii_lower(name[0]) == 'x');
}

/// A checked read (`GET` on labs or star paths) whose path, below the
/// service, is one UUID or two segments ending in a UUID checks access to
/// that UUID, whatever the first of the two segments is.
pub proof fn checked_read_targets_trailing_uuid(
    method: Seq<char>,
    service: Seq<char>,
    rest: Seq<char>,
)
    requires
        method == "GET"@,
        service == "labs"@ || service == "starpaths"@,
        split_char(rest, '/').len() == 1 || split_char(rest, '/').len() == 2,
        uuid_parse(split_char(rest, '/').last()) is Some,
    ensures
        resource_id_spec(method, service, rest) == Some(split_char(rest, '/').last()),
{
}

/// A checked read whose path, below the service, is not one UUID or two
/// segments ending in a UUID is answered without an access check.
pub proof fn checked_read_without_trailing_uuid(method: Seq<char>, service: Seq<char>, rest: Seq<char>)
    requires
        (split_char(rest, '/').len() != 1 && split_char(rest, '/').len() != 2) || uuid_parse(
            split_char(rest, '/').last(),
        ) is None,
    ensures
        resource_id_spec(method, service, rest) is None,
{
}

/// Any other request is answered without an access check.
pub proof fn unchecked_requests_have_no_resource(
    method: Seq<char>,
    service: Seq<char>,
    rest: Seq<char>,
)
    requires
        method != "GET"@ || (service != "labs"@ && service != "starpaths"@),
    ensures
        resource_id_spec(method, service, rest) is None,
{
}

} // verus!
