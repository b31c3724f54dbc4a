//! Decoration of a router with middleware and with a path prefix.

use crate::generator::router::RouterExpr;
use crate::generator::router::RouterView;
use vstd::prelude::*;

verus! {

/// `router` wrapped in `middlewares` so that the first of them is the
/// outermost layer and sees a request first, the last the innermost.
pub open spec fn layered(router: RouterView, middlewares: Seq<Seq<char>>) -> RouterView
    decreases middlewares.len(),
{
    if middlewares.len() == 0 {
        router
    } else {
        RouterView::Layer {
            inner: Box::new(layered(router, middlewares.drop_first())),
            middleware: middlewares[0],
        }
    }
}

/// `router` nested under `prefix`, where there is one.
pub open spec fn prefixed(router: RouterView, prefix: Option<Seq<char>>) -> RouterView {
    match prefix {
        Some(p) => RouterView::Nest { prefix: p, inner: Box::new(router) },
        None => router,
    }
}

/// The middleware of the layers of `router`, from the outermost inwards.
pub open spec fn layers_outside_in(router: RouterView) -> Seq<Seq<char>>
    decreases router,
{
    match router {
        RouterView::Layer { inner, middleware } => seq![middleware] + layers_outside_in(*inner),
        _ => Seq::empty(),
    }
}

/// Wraps the router in the middleware, in reverse order of declaration,
/// so that the first declared sees a request first.
pub fn apply_middlewares(base_router: RouterExpr, middlewares: &Vec<String>) -> (router:
    RouterExpr)
    ensures
        router.deep_view() == layered(base_router.deep_view(), middlewares.deep_view()),
{
    let ghost base = base_router.deep_view();
    let ghost ms = middlewares.deep_view();
    let mut router = base_router;
    let mut i: usize = middlewares.len();
    assert(ms.skip(i as int) =~= Seq::<Seq<char>>::empty());
    while i > 0
        invariant
            i <= middlewares.len(),
            ms == middlewares.deep_view(),
            router.deep_view() == layered(base, ms.skip(i as int)),
        decreases i,
    {
        i -= 1;
        assert(ms.skip(i as int)[0] == ms[i as int]);
        assert(ms.skip(i as int).drop_first() =~= ms.skip(i + 1));
        router = RouterExpr::Layer { inner: Box::new(router), middleware: middlewares[i].clone() };
    }
    assert(ms.skip(0) =~= ms);
    router
}

/// Nests the router under the prefix, where there is one.
pub fn apply_route_prefix(router: RouterExpr, prefix: Option<&String>) -> (nested: RouterExpr)
    ensures
        nested.deep_view() == prefixed(
            router.deep_view(),
            match prefix {
                Some(p) => Some(p@),
                None => None,
            },
        ),
{
    match prefix {
        Some(p) => RouterExpr::Nest { prefix: p.clone(), inner: Box::new(router) },
        None => router,
    }
}

} // verus!
