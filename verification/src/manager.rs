//! The shared core state: the ordered route registry, the credential
//! registry, the server configuration, and the dispatcher that ties them
//! together. The transport layer wraps one `EndpointManager` in its own
//! mutual-exclusion lock and calls it once per request.

use vstd::prelude::*;

use crate::credential::{admits, current_time, evaluated, ApiKey};
use crate::response::{
    is_not_found_response, is_rate_limited_response, CustomResponse,
};
use crate::routes::{
    is_first_match, lemma_first_match_unique, route_matches, AccessPolicy, Endpoint,
};

verus! {

/// The default number of requests a credential may make per window.
pub const DEFAULT_RATE_LIMIT: u32 = 1000;

/// Server-wide configuration consumed at startup. `encrypt` and `page_404`
/// are reserved for the transport layer; the core reads only `api_enabled`
/// (the global kill-switch for rate limiting) and `rate_limit`.
pub struct ServerConfig {
    pub encrypt: bool,
    pub api_enabled: bool,
    pub rate_limit: u32,
    pub page_404: String,
}

/// No two credentials in the registry share an identifier.
pub open spec fn keys_unique(keys: Seq<ApiKey>) -> bool {
    forall|i: int, j: int|
        0 <= i < j < keys.len() ==> (#[trigger] keys[i]).key@ != (#[trigger] keys[j]).key@
}

/// Whether some credential in the registry carries the given identifier.
pub open spec fn contains_key(keys: Seq<ApiKey>, key: Seq<char>) -> bool {
    exists|i: int| 0 <= i < keys.len() && (#[trigger] keys[i]).key@ == key
}

/// The registry of routes and credentials, with the server configuration.
pub struct EndpointManager<H> {
    pub endpoints: Vec<Endpoint<H>>,
    pub api_keys: Vec<ApiKey>,
    pub config: ServerConfig,
}

/// What the dispatcher decides for one request: hand back a built-in
/// response, or invoke the handler of the endpoint at the given index.
pub enum DispatchOutcome {
    NotFound(CustomResponse),
    RateLimited(CustomResponse),
    Invoke(usize),
}

/// Whether the endpoint at index `i` is gated: its policy asks for rate
/// limiting and the server-wide feature is switched on. With the feature
/// off, the policy tag is inert.
pub open spec fn gated<H>(m: EndpointManager<H>, i: int) -> bool {
    &&& m.endpoints@[i].access is RateLimited
    &&& m.config.api_enabled
}

impl<H> EndpointManager<H> {
    /// An empty registry with the default configuration: rate limiting
    /// switched off, the default per-window limit, no routes, no credentials.
    pub fn new() -> (m: Self)
        ensures
            m.endpoints@.len() == 0,
            m.api_keys@.len() == 0,
            !m.config.encrypt,
            !m.config.api_enabled,
            m.config.rate_limit == DEFAULT_RATE_LIMIT,
            m.config.page_404@ == "404.html"@,
            keys_unique(m.api_keys@),
    {
        EndpointManager {
            endpoints: Vec::new(),
            api_keys: Vec::new(),
            config: ServerConfig {
                encrypt: false,
                api_enabled: false,
                rate_limit: DEFAULT_RATE_LIMIT,
                page_404: "404.html".to_owned(),
            },
        }
    }

    /// Append a route to the registry. Duplicate (path, method) pairs are
    /// permitted; lookup resolves them to the earliest registration.
    pub fn register_endpoint(&mut self, endpoint: Endpoint<H>)
        ensures
            final(self).endpoints@ == old(self).endpoints@.push(endpoint),
            final(self).api_keys@ == old(self).api_keys@,
            final(self).config == old(self).config,
    {
        self.endpoints.push(endpoint);
    }

    /// The index of the first registered route that matches `(path, method)`
    /// exactly, or `None` when no route matches.
    pub fn find_endpoint(&self, path: &str, method: &str) -> (r: Option<usize>)
        ensures
            match r {
                Some(i) => is_first_match(self.endpoints@, path@, method@, i as int),
                None => forall|j: int|
                    0 <= j < self.endpoints@.len() ==> !route_matches(
                        #[trigger] self.endpoints@[j],
                        path@,
                        method@,
                    ),
            },
    {
        let n: usize = self.endpoints.len();
        let mut idx: usize = 0;
        while idx < n
            invariant
                n == self.endpoints@.len(),
                idx <= n,
                forall|j: int|
                    0 <= j < idx ==> !route_matches(#[trigger] self.endpoints@[j], path@, method@),
            decreases n - idx,
        {
            let matches_path = crate::ext::str_eq(self.endpoints[idx].path.as_str(), path);
            let matches_method = crate::ext::str_eq(self.endpoints[idx].method.as_str(), method);
            if matches_path && matches_method {
                return Some(idx);
            }
            idx = idx + 1;
        }
        None
    }

    /// The first registered route matching `(path, method)`, or `None`.
    /// Earlier registrations shadow later duplicates.
    pub fn get_endpoint(&self, path: &str, method: &str) -> (r: Option<&Endpoint<H>>)
        ensures
            match r {
                Some(e) => exists|i: int|
                    #[trigger] is_first_match(self.endpoints@, path@, method@, i) && *e
                        == self.endpoints@[i],
                None => forall|j: int|
                    0 <= j < self.endpoints@.len() ==> !route_matches(
                        #[trigger] self.endpoints@[j],
                        path@,
                        method@,
                    ),
            },
    {
        match self.find_endpoint(path, method) {
            Some(i) => Some(&self.endpoints[i]),
            None => None,
        }
    }

    /// The index of the credential carrying `key`, or `None` when the
    /// registry holds no such credential.
    pub fn find_key(&self, key: &str) -> (r: Option<usize>)
        ensures
            match r {
                Some(i) => i < self.api_keys@.len() && self.api_keys@[i as int].key@ == key@,
                None => !contains_key(self.api_keys@, key@),
            },
    {
        let n: usize = self.api_keys.len();
        let mut idx: usize = 0;
        while idx < n
            invariant
                n == self.api_keys@.len(),
                idx <= n,
                forall|j: int| 0 <= j < idx ==> (#[trigger] self.api_keys@[j]).key@ != key@,
            decreases n - idx,
        {
            if crate::ext::str_eq(self.api_keys[idx].key.as_str(), key) {
                return Some(idx);
            }
            idx = idx + 1;
        }
        None
    }

    /// Add a credential to the registry, unless one with the same identifier
    /// is already present. Returns whether the credential was added, so the
    /// identifiers in the registry stay unique.
    pub fn insert_key(&mut self, k: ApiKey) -> (added: bool)
        ensures
            added == !contains_key(old(self).api_keys@, k.key@),
            added ==> final(self).api_keys@ == old(self).api_keys@.push(k),
            !added ==> final(self).api_keys@ == old(self).api_keys@,
            final(self).endpoints@ == old(self).endpoints@,
            final(self).config == old(self).config,
            keys_unique(old(self).api_keys@) ==> keys_unique(final(self).api_keys@),
    {
        match self.find_key(k.key.as_str()) {
            Some(_) => false,
            None => {
                self.api_keys.push(k);
                true
            },
        }
    }

    /// Issue a fresh credential: generate a new identifier with default
    /// state and add it to the registry. Returns the identifier, or `None`
    /// in the (practically impossible) case that the freshly drawn random
    /// identifier is already taken; the registry is then left unchanged.
    /// On an empty registry no identifier can collide, so issuing succeeds.
    pub fn issue(&mut self) -> (r: Option<String>)
        ensures
            r is None ==> old(self).api_keys@.len() > 0,
            r matches Some(key) ==> {
                &&& !contains_key(old(self).api_keys@, key@)
                &&& final(self).api_keys@.len() == old(self).api_keys@.len() + 1
                &&& final(self).api_keys@ == old(self).api_keys@.push(
                    final(self).api_keys@.last(),
                )
                &&& final(self).api_keys@.last().key@ == key@
                &&& final(self).api_keys@.last().user is None
                &&& !final(self).api_keys@.last().limited
                &&& final(self).api_keys@.last().request_count == 0
            },
            r is None ==> final(self).api_keys@ == old(self).api_keys@,
            final(self).endpoints@ == old(self).endpoints@,
            final(self).config == old(self).config,
            keys_unique(old(self).api_keys@) ==> keys_unique(final(self).api_keys@),
    {
        let k = ApiKey::new();
        let key = k.key.clone();
        if self.insert_key(k) {
            Some(key)
        } else {
            None
        }
    }

    /// Evaluate one request for the credential carrying `key` at time `now`,
    /// with this server's configured limit: `None` when no such credential
    /// is registered, otherwise the limiter's admit/deny decision, with the
    /// matching credential's state advanced by one evaluation.
    pub fn can_request_key_at(&mut self, key: &str, now: u64) -> (r: Option<bool>)
        requires
            keys_unique(old(self).api_keys@),
        ensures
            r is None <==> !contains_key(old(self).api_keys@, key@),
            r is None ==> final(self).api_keys@ == old(self).api_keys@,
            forall|i: int|
                0 <= i < old(self).api_keys@.len() && (#[trigger] old(self).api_keys@[i]).key@
                    == key@ ==> {
                    &&& r == Some(
                        admits(old(self).api_keys@[i], old(self).config.rate_limit, now),
                    )
                    &&& final(self).api_keys@ == old(self).api_keys@.update(
                        i,
                        evaluated(old(self).api_keys@[i], old(self).config.rate_limit, now),
                    )
                },
            final(self).endpoints@ == old(self).endpoints@,
            final(self).config == old(self).config,
            keys_unique(final(self).api_keys@),
    {
        let rate_limit: u32 = self.config.rate_limit;
        match self.find_key(key) {
            None => None,
            Some(i) => {
                let admitted = self.api_keys[i].can_request_at(rate_limit, now);
                Some(admitted)
            },
        }
    }
}

/// Everything one dispatch call decides and changes, given the state `pre`
/// it started from, the state `post` it left behind, and the time `now` the
/// rate limiter evaluated at:
/// - routes and configuration are never touched;
/// - the outcome is `NotFound`, with the built-in 404 response and no state
///   change, exactly when no registered route matches `(path, method)`;
/// - `Invoke(i)` always names the first matching route in registration
///   order;
/// - a first match that is not gated (unrestricted policy, or the feature
///   switched off globally) is invoked with no credential touched — so with
///   the feature disabled the outcome is never `RateLimited`;
/// - a gated first match consults the credential: a missing or unknown
///   credential is denied fail-closed with no state change, and a known one
///   is evaluated at `now`, advancing exactly its entry and invoking the
///   handler exactly when the limiter admits the request;
/// - every `RateLimited` outcome carries the built-in 429 response.
pub open spec fn dispatch_post<H>(
    pre: EndpointManager<H>,
    post: EndpointManager<H>,
    path: Seq<char>,
    method: Seq<char>,
    credential: Option<&str>,
    now: u64,
    r: DispatchOutcome,
) -> bool {
    &&& post.endpoints@ == pre.endpoints@
    &&& post.config == pre.config
    &&& (keys_unique(pre.api_keys@) ==> keys_unique(post.api_keys@))
    &&& (r is NotFound <==> (forall|j: int|
        0 <= j < pre.endpoints@.len() ==> !route_matches(#[trigger] pre.endpoints@[j], path, method)
    ))
    &&& (r matches DispatchOutcome::NotFound(resp) ==> is_not_found_response(resp)
        && post.api_keys@ == pre.api_keys@)
    &&& (r matches DispatchOutcome::Invoke(i) ==> is_first_match(
        pre.endpoints@,
        path,
        method,
        i as int,
    ))
    &&& (r matches DispatchOutcome::RateLimited(resp) ==> is_rate_limited_response(resp))
    &&& (!pre.config.api_enabled ==> !(r is RateLimited))
    &&& (forall|i: int|
        #[trigger] is_first_match(pre.endpoints@, path, method, i) && !gated(pre, i)
            ==> r == DispatchOutcome::Invoke(i as usize) && post.api_keys@ == pre.api_keys@)
    &&& (forall|i: int|
        #[trigger] is_first_match(pre.endpoints@, path, method, i) && gated(pre, i)
            ==> match credential {
            None => r is RateLimited && post.api_keys@ == pre.api_keys@,
            Some(c) => {
                &&& (!contains_key(pre.api_keys@, c@) ==> r is RateLimited && post.api_keys@
                    == pre.api_keys@)
                &&& (forall|ki: int|
                    0 <= ki < pre.api_keys@.len() && (#[trigger] pre.api_keys@[ki]).key@ == c@
                        ==> {
                        &&& (admits(pre.api_keys@[ki], pre.config.rate_limit, now) ==> r
                            == DispatchOutcome::Invoke(i as usize))
                        &&& (!admits(pre.api_keys@[ki], pre.config.rate_limit, now)
                            ==> r is RateLimited)
                        &&& post.api_keys@ == pre.api_keys@.update(
                            ki,
                            evaluated(pre.api_keys@[ki], pre.config.rate_limit, now),
                        )
                    })
            },
        })
}

/// Law: dispatch is order-stable. In a registry built by registering route
/// `a` and then route `b`, where `a` matches the request and no earlier
/// route does, any dispatch outcome that invokes a handler invokes `a`'s
/// entry — never `b`'s, whatever `b` holds; and when `a`'s entry is not
/// gated (unrestricted policy, or the rate-limiting feature switched off),
/// the dispatch invokes `a`'s handler outright.
pub proof fn lemma_dispatch_order_stable<H>(
    pre: EndpointManager<H>,
    post: EndpointManager<H>,
    routes: Seq<Endpoint<H>>,
    a: Endpoint<H>,
    b: Endpoint<H>,
    path: Seq<char>,
    method: Seq<char>,
    credential: Option<&str>,
    now: u64,
    r: DispatchOutcome,
)
    requires
        pre.endpoints@ == routes.push(a).push(b),
        route_matches(a, path, method),
        forall|j: int| 0 <= j < routes.len() ==> !route_matches(#[trigger] routes[j], path, method),
        dispatch_post(pre, post, path, method, credential, now, r),
    ensures
        r matches DispatchOutcome::Invoke(i) ==> i as int == routes.len(),
        !gated(pre, routes.len() as int) ==> r == DispatchOutcome::Invoke(
            routes.len() as usize,
        ) && post.api_keys@ == pre.api_keys@,
{
    let table = routes.push(a).push(b);
    assert(table[routes.len() as int] == a);
    assert forall|j: int| 0 <= j < routes.len() implies !route_matches(
        table[j],
        path,
        method,
    ) by {
        assert(table[j] == routes[j]);
    }
    assert(is_first_match(table, path, method, routes.len() as int));
    match r {
        DispatchOutcome::Invoke(i) => {
            lemma_first_match_unique(table, path, method, i as int, routes.len() as int);
        },
        _ => {},
    }
}

impl<H> EndpointManager<H> {
    /// Resolve one request at time `now`: look the route up, enforce the
    /// rate limiter on a gated route (failing closed on a missing or unknown
    /// credential), and decide what the transport layer does next. The
    /// contract is [`dispatch_post`] exactly.
    pub fn dispatch_at(&mut self, path: &str, method: &str, credential: Option<&str>, now: u64)
        -> (r: DispatchOutcome)
        requires
            keys_unique(old(self).api_keys@),
        ensures
            dispatch_post(*old(self), *final(self), path@, method@, credential, now, r),
    {
        let found = self.find_endpoint(path, method);
        match found {
            None => DispatchOutcome::NotFound(CustomResponse::not_found()),
            Some(i) => {
                proof {
                    assert forall|k: int| #[trigger]
                        is_first_match(self.endpoints@, path@, method@, k) implies k
                        == i as int by {
                        lemma_first_match_unique(self.endpoints@, path@, method@, k, i as int);
                    }
                }
                let is_gated = self.endpoints[i].access == AccessPolicy::RateLimited
                    && self.config.api_enabled;
                if is_gated {
                    match credential {
                        None => DispatchOutcome::RateLimited(CustomResponse::rate_limited()),
                        Some(c) => match self.can_request_key_at(c, now) {
                            None => DispatchOutcome::RateLimited(CustomResponse::rate_limited()),
                            Some(true) => DispatchOutcome::Invoke(i),
                            Some(false) => DispatchOutcome::RateLimited(
                                CustomResponse::rate_limited(),
                            ),
                        },
                    }
                } else {
                    DispatchOutcome::Invoke(i)
                }
            },
        }
    }

    /// Resolve one request at the current wall-clock time:
    /// [`EndpointManager::dispatch_at`] at some time read from the clock.
    /// Everything time-independent is restated directly: route resolution,
    /// the built-in responses, and the inertness of policy tags while the
    /// rate-limiting feature is disabled.
    pub fn dispatch(&mut self, path: &str, method: &str, credential: Option<&str>) -> (r:
        DispatchOutcome)
        requires
            keys_unique(old(self).api_keys@),
        ensures
            exists|now: u64|
                #[trigger] dispatch_post(*old(self), *final(self), path@, method@, credential, now, r),
            final(self).endpoints@ == old(self).endpoints@,
            final(self).config == old(self).config,
            keys_unique(final(self).api_keys@),
            r is NotFound <==> (forall|j: int|
                0 <= j < old(self).endpoints@.len() ==> !route_matches(
                    #[trigger] old(self).endpoints@[j],
                    path@,
                    method@,
                )),
            r matches DispatchOutcome::NotFound(resp) ==> is_not_found_response(resp)
                && final(self).api_keys@ == old(self).api_keys@,
            r matches DispatchOutcome::Invoke(i) ==> is_first_match(
                old(self).endpoints@,
                path@,
                method@,
                i as int,
            ),
            r matches DispatchOutcome::RateLimited(resp) ==> is_rate_limited_response(resp),
            !old(self).config.api_enabled ==> !(r is RateLimited),
    {
        let now: u64 = current_time();
        self.dispatch_at(path, method, credential, now)
    }
}

} // verus!
