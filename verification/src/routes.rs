//! Route patterns, held in the routers of `matchit`.
//!
//! What a router matches is `matchit`'s own business. This module gives the
//! answers names, so that the rest of the crate can say which question it
//! asked of which routes.
//!
//! A router is only ever asked to take an admissible pattern: ASCII text
//! with at most 25 parameters. On other patterns `matchit` can panic.

use vstd::prelude::*;
use vstd::string::StringSliceAdditionalSpecFns;

verus! {

/// `matchit::Router`, a radix tree of route patterns. The crate carries
/// routers and asks them questions; it never looks into one.
#[verifier::external_type_specification]
#[verifier::external_body]
#[verifier::reject_recursive_types(T)]
pub struct ExRouter<T>(matchit::Router<T>);

/// The route patterns that `router` holds, in the order in which they were
/// inserted.
pub uninterp spec fn router_routes(router: matchit::Router<()>) -> Seq<Seq<char>>;

/// Whether a router that holds `routes` finds a route for `path`: what
/// `matchit::Router::at` answers.
pub uninterp spec fn route_matches(routes: Seq<Seq<char>>, path: Seq<char>) -> bool;

/// Whether a router that holds `routes` takes `pattern` as one more route:
/// what `matchit::Router::insert` answers.
pub uninterp spec fn route_accepted(routes: Seq<Seq<char>>, pattern: Seq<char>) -> bool;

/// The most parameters that `matchit` names in one route.
pub const MAX_ROUTE_PARAMETERS: usize = 25;

/// The number of `:` among `bytes`. Every parameter of a route pattern
/// starts with one.
pub open spec fn colons(bytes: Seq<u8>) -> nat
    decreases bytes.len(),
{
    if bytes.len() == 0 {
        0
    } else {
        colons(bytes.drop_last()) + if bytes.last() == 58 {
            1nat
        } else {
            0nat
        }
    }
}

/// Whether `pattern` holds no more parameters than a router can name.
pub open spec fn within_parameter_limit(pattern: &str) -> bool {
    colons(pattern.spec_bytes()) <= MAX_ROUTE_PARAMETERS
}

/// Whether a router that holds `routes` takes each of `patterns` in turn.
pub open spec fn routes_accepted(routes: Seq<Seq<char>>, patterns: Seq<Seq<char>>) -> bool
    decreases patterns.len(),
{
    patterns.len() > 0 ==> route_accepted(routes, patterns[0]) && routes_accepted(
        routes.push(patterns[0]),
        patterns.skip(1),
    )
}

/// What `patterns` hold, as mathematical values.
pub open spec fn pattern_views(patterns: Seq<&str>) -> Seq<Seq<char>> {
    patterns.map_values(|p: &str| p@)
}

/// Whether `pattern` is one that a router can be asked to take: ASCII text
/// that holds no more parameters than a router can name.
///
/// A router takes text outside ASCII too, but it cuts its routes between
/// bytes, and where such a cut falls inside a character it cannot write out
/// the route that a later pattern conflicts with. So the crate holds ASCII
/// routes only, and a pattern outside ASCII is refused before any router
/// sees it.
pub open spec fn admissible(pattern: &str) -> bool {
    pattern.is_ascii() && within_parameter_limit(pattern)
}

/// Whether each of `patterns` is admissible.
pub open spec fn all_admissible(patterns: Seq<&str>) -> bool {
    forall|i: int| 0 <= i < patterns.len() ==> admissible(#[trigger] patterns[i])
}

/// Calls `matchit::Router::new`, which gives a router without routes. Such
/// a router finds no route, whatever the path.
#[verifier::external_body]
pub(crate) fn new_router() -> (router: matchit::Router<()>)
    ensures
        router_routes(router) == Seq::<Seq<char>>::empty(),
        forall|path: Seq<char>| !#[trigger] route_matches(router_routes(router), path),
{
    matchit::Router::new()
}

/// Calls `Clone::clone` of `matchit::Router`, which copies the whole tree:
/// the copy holds the routes of the router that was copied.
#[verifier::external_body]
pub(crate) fn clone_router(router: &matchit::Router<()>) -> (copy: matchit::Router<()>)
    ensures
        router_routes(copy) == router_routes(*router),
{
    router.clone()
}

/// Calls `matchit::Router::insert`. Where it takes the pattern, the router
/// comes back with the pattern as its last route. Where it refuses the
/// pattern, the router is dropped, since a refused insertion may have left
/// nodes behind in it: every router that the crate holds was made by
/// `Router::new` and by insertions that were taken.
///
/// `insert` panics on two kinds of input, and `admissible` leaves both out.
/// It names the parameters of a route `a` to `z` and panics when it would
/// need one name more. And to report a conflict it writes out the route
/// that is in the way, from the bytes of its nodes, and panics where they
/// are no UTF-8: the nodes are cut between bytes, so that a cut can fall
/// inside a character. With admissible patterns only, every route of every
/// router is ASCII, and so is every run of its bytes.
#[verifier::external_body]
pub(crate) fn insert_route(router: matchit::Router<()>, pattern: &str) -> (grown: Option<
    matchit::Router<()>,
>)
    requires
        admissible(pattern),
    ensures
        grown is Some <==> route_accepted(router_routes(router), pattern@),
        grown matches Some(r) ==> router_routes(r) == router_routes(router).push(pattern@),
{
    let mut router = router;
    match router.insert(pattern, ()) {
        Ok(()) => Some(router),
        Err(_) => None,
    }
}

/// Calls `matchit::Router::at` and says whether it found a route.
#[verifier::external_body]
pub(crate) fn find_route(router: &matchit::Router<()>, path: &str) -> (found: bool)
    ensures
        found == route_matches(router_routes(*router), path@),
{
    router.at(path).is_ok()
}

/// Whether `pattern` is within the parameter limit.
pub fn check_parameter_limit(pattern: &str) -> (within: bool)
    ensures
        within == within_parameter_limit(pattern),
{
    let bytes = pattern.as_bytes();
    let mut count: usize = 0;
    let mut i: usize = 0;
    while i < bytes.len()
        invariant
            i <= bytes.len(),
            bytes@ == pattern.spec_bytes(),
            count == colons(bytes@.take(i as int)),
            count <= MAX_ROUTE_PARAMETERS,
        decreases bytes.len() - i,
    {
        proof {
            assert(bytes@.take(i + 1).drop_last() =~= bytes@.take(i as int));
        }
        if bytes[i] == 58 {
            if count == MAX_ROUTE_PARAMETERS {
                proof {
                    lemma_colons_grow(bytes@, i + 1);
                }
                return false;
            }
            count += 1;
        }
        i += 1;
    }
    proof {
        assert(bytes@.take(i as int) =~= bytes@);
    }
    true
}

/// Whether `pattern` is admissible.
pub fn check_admissible(pattern: &str) -> (fit: bool)
    ensures
        fit == admissible(pattern),
{
    pattern.is_ascii() && check_parameter_limit(pattern)
}

/// Whether each of `patterns` is admissible.
pub fn check_all_admissible(patterns: &[&str]) -> (fit: bool)
    ensures
        fit == all_admissible(patterns@),
{
    let mut i: usize = 0;
    while i < patterns.len()
        invariant
            i <= patterns.len(),
            forall|k: int| 0 <= k < i ==> admissible(#[trigger] patterns@[k]),
        decreases patterns.len() - i,
    {
        if !check_admissible(patterns[i]) {
            return false;
        }
        i += 1;
    }
    true
}

/// Inserts `patterns` into `router`, one after the other. The router comes
/// back where it took them all.
pub(crate) fn insert_routes(router: matchit::Router<()>, patterns: &[&str]) -> (grown: Option<
    matchit::Router<()>,
>)
    requires
        all_admissible(patterns@),
    ensures
        grown is Some <==> routes_accepted(router_routes(router), pattern_views(patterns@)),
        grown matches Some(r) ==> router_routes(r) == router_routes(router) + pattern_views(
            patterns@,
        ),
{
    let ghost views = pattern_views(patterns@);
    let ghost start = router_routes(router);
    let mut current = router;
    let mut i: usize = 0;
    proof {
        assert(views.skip(0) =~= views);
        assert(start + views.take(0) =~= start);
    }
    while i < patterns.len()
        invariant
            i <= patterns.len(),
            views == pattern_views(patterns@),
            all_admissible(patterns@),
            start == router_routes(router),
            router_routes(current) == start + views.take(i as int),
            routes_accepted(start, views) <==> routes_accepted(router_routes(current), views.skip(i as int)),
        decreases patterns.len() - i,
    {
        proof {
            assert(views.skip(i as int)[0] == patterns[i as int]@);
            assert(views.skip(i as int).skip(1) =~= views.skip(i + 1));
            assert(views.take(i + 1) =~= views.take(i as int).push(patterns[i as int]@));
            assert((start + views.take(i as int)).push(patterns[i as int]@) =~= start + views.take(
                i + 1,
            ));
            assert(routes_accepted(router_routes(current), views.skip(i as int)) <==> route_accepted(
                router_routes(current),
                patterns[i as int]@,
            ) && routes_accepted(router_routes(current).push(patterns[i as int]@), views.skip(i + 1)));
        }
        match insert_route(current, patterns[i]) {
            Some(grown) => {
                current = grown;
            },
            None => {
                return None;
            },
        }
        i += 1;
    }
    proof {
        assert(views.take(i as int) =~= views);
        assert(views.skip(i as int).len() == 0);
    }
    Some(current)
}

/// Whether `a` and `b` are the same text.
pub fn same_text(a: &str, b: &str) -> (same: bool)
    ensures
        same == (a@ == b@),
{
    let x = a.as_bytes();
    let y = b.as_bytes();
    proof {
        vstd::utf8::encode_utf8_decode_utf8(a@);
        vstd::utf8::encode_utf8_decode_utf8(b@);
    }
    if x.len() != y.len() {
        return false;
    }
    let mut i: usize = 0;
    while i < x.len()
        invariant
            i <= x.len(),
            x.len() == y.len(),
            x@.take(i as int) == y@.take(i as int),
            x@ == a.spec_bytes(),
            y@ == b.spec_bytes(),
            a.spec_bytes() == b.spec_bytes() ==> a@ == b@,
        decreases x.len() - i,
    {
        if x[i] != y[i] {
            return false;
        }
        proof {
            assert(x@.take(i + 1) =~= x@.take(i as int).push(x@[i as int]));
            assert(y@.take(i + 1) =~= y@.take(i as int).push(y@[i as int]));
        }
        i += 1;
    }
    proof {
        assert(x@.take(i as int) =~= x@);
        assert(y@.take(i as int) =~= y@);
    }
    true
}

/// A prefix holds no more `:` than the whole.
proof fn lemma_colons_grow(bytes: Seq<u8>, n: int)
    requires
        0 <= n <= bytes.len(),
    ensures
        colons(bytes.take(n)) <= colons(bytes),
    decreases bytes.len() - n,
{
    if n < bytes.len() {
        lemma_colons_grow(bytes, n + 1);
        assert(bytes.take(n + 1).drop_last() =~= bytes.take(n));
    } else {
        assert(bytes.take(n) =~= bytes);
    }
}

} // verus!
