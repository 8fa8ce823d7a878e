//! Registered endpoints and the first-match lookup order over them.

use vstd::prelude::*;

verus! {

/// The access-control tag of a registered endpoint: either open to everyone
/// or gated by the per-credential rate limiter.
#[derive(Clone, Copy, PartialEq, Eq, Structural, Debug)]
pub enum AccessPolicy {
    Unrestricted,
    RateLimited,
}

/// A registered route: an exact path and method, an access-control tag, and
/// an opaque handler capability that the transport layer invokes.
pub struct Endpoint<H> {
    pub path: String,
    pub method: String,
    pub access: AccessPolicy,
    pub handler: H,
}

/// Whether an endpoint matches a request: exact string equality on both the
/// path and the method.
pub open spec fn route_matches<H>(e: Endpoint<H>, path: Seq<char>, method: Seq<char>) -> bool {
    e.path@ == path && e.method@ == method
}

/// Whether index `i` holds the first endpoint in registration order that
/// matches `(path, method)`: it matches, and nothing before it does.
pub open spec fn is_first_match<H>(
    routes: Seq<Endpoint<H>>,
    path: Seq<char>,
    method: Seq<char>,
    i: int,
) -> bool {
    &&& 0 <= i < routes.len()
    &&& route_matches(routes[i], path, method)
    &&& forall|j: int| 0 <= j < i ==> !route_matches(#[trigger] routes[j], path, method)
}

/// At most one index holds the first match for a request.
pub proof fn lemma_first_match_unique<H>(
    routes: Seq<Endpoint<H>>,
    path: Seq<char>,
    method: Seq<char>,
    i: int,
    j: int,
)
    requires
        is_first_match(routes, path, method, i),
        is_first_match(routes, path, method, j),
    ensures
        i == j,
{
}

/// Law: lookup is order-stable. After registering `a` and then `b`, where `a`
/// matches the request, the first match is never `b`'s entry: it lies in the
/// table as it stood after `a` was registered, and is the same entry there.
pub proof fn lemma_register_order_stable<H>(
    routes: Seq<Endpoint<H>>,
    a: Endpoint<H>,
    b: Endpoint<H>,
    path: Seq<char>,
    method: Seq<char>,
    i: int,
)
    requires
        route_matches(a, path, method),
        is_first_match(routes.push(a).push(b), path, method, i),
    ensures
        i <= routes.len(),
        routes.push(a).push(b)[i] == routes.push(a)[i],
        is_first_match(routes.push(a), path, method, i),
{
    let one = routes.push(a);
    let both = one.push(b);
    assert(both[routes.len() as int] == a);
    if i > routes.len() {
        assert(!route_matches(both[routes.len() as int], path, method));
        assert(false);
    }
    assert(both[i] == one[i]);
    assert(forall|j: int| 0 <= j < i ==> one[j] == both[j]);
}

} // verus!
