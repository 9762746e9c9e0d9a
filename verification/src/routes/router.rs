//! The table of the routes of a router.

use vstd::prelude::*;

verus! {

/// An HTTP method that a route answers.
#[derive(Debug, Clone, Copy, PartialEq, Eq, Structural)]
pub enum Method {
    Connect,
    Delete,
    Get,
    Head,
    Options,
    Patch,
    Post,
    Put,
    Trace,
}

/// The name of a method, in upper case.
pub open spec fn method_name(method: Method) -> Seq<char> {
    match method {
        Method::Connect => "CONNECT"@,
        Method::Delete => "DELETE"@,
        Method::Get => "GET"@,
        Method::Head => "HEAD"@,
        Method::Options => "OPTIONS"@,
        Method::Patch => "PATCH"@,
        Method::Post => "POST"@,
        Method::Put => "PUT"@,
        Method::Trace => "TRACE"@,
    }
}

impl Method {
    /// The name of the method, in upper case.
    pub fn as_str(&self) -> (name: &'static str)
        ensures
            name@ == method_name(*self),
    {
        match self {
            Method::Connect => "CONNECT",
            Method::Delete => "DELETE",
            Method::Get => "GET",
            Method::Head => "HEAD",
            Method::Options => "OPTIONS",
            Method::Patch => "PATCH",
            Method::Post => "POST",
            Method::Put => "PUT",
            Method::Trace => "TRACE",
        }
    }
}

/// One route: a method and a path.
#[derive(Debug, Clone, PartialEq, Eq)]
pub struct RouteInfo {
    pub method: Method,
    pub path: String,
}

/// Model of a [`RouteInfo`].
pub struct RouteInfoView {
    pub method: Method,
    pub path: Seq<char>,
}

impl View for RouteInfo {
    type V = RouteInfoView;

    open spec fn view(&self) -> RouteInfoView {
        RouteInfoView { method: self.method, path: self.path@ }
    }
}

/// The models of a list of routes.
pub open spec fn route_views(routes: Seq<RouteInfo>) -> Seq<RouteInfoView> {
    Seq::new(routes.len(), |i: int| routes[i]@)
}

/// The routes with `prefix` before each path.
pub open spec fn nested(prefix: Seq<char>, routes: Seq<RouteInfoView>) -> Seq<RouteInfoView> {
    Seq::new(
        routes.len(),
        |i: int| RouteInfoView { method: routes[i].method, path: prefix + routes[i].path },
    )
}

/// The routes of a router, in the order in which they were added.
#[derive(Debug, Clone, PartialEq, Eq)]
pub struct Router {
    pub routes: Vec<RouteInfo>,
}

impl Router {
    /// A router without routes.
    pub fn new() -> (router: Router)
        ensures
            router.routes@.len() == 0,
    {
        Router { routes: Vec::new() }
    }

    /// The router with one more route.
    pub fn route(self, method: Method, path: &str) -> (router: Router)
        ensures
            route_views(router.routes@) == route_views(self.routes@).push(
                RouteInfoView { method, path: path@ },
            ),
    {
        let mut routes = self.routes;
        let ghost before = route_views(routes@);
        routes.push(RouteInfo { method, path: path.to_owned() });
        assert(route_views(routes@) == before.push(RouteInfoView { method, path: path@ }));
        Router { routes }
    }

    /// The router with the routes of `other` under `path`: each of them is
    /// added with `path` before its own path.
    pub fn nest(self, path: &str, other: Router) -> (router: Router)
        ensures
            route_views(router.routes@) == route_views(self.routes@) + nested(
                path@,
                route_views(other.routes@),
            ),
    {
        let mut routes = self.routes;
        let ghost before = route_views(routes@);
        let ghost added = route_views(other.routes@);
        let ghost given = other.routes@;
        for route in it: other.routes
            invariant
                it.seq() == given,
                added == route_views(given),
                route_views(routes@) == before + nested(path@, added).take(it.index() as int),
        {
            let ghost so_far = route_views(routes@);
            let mut full = path.to_owned();
            full.append(route.path.as_str());
            routes.push(RouteInfo { method: route.method, path: full });
            assert(route_views(routes@) == so_far.push(nested(path@, added)[it.index() as int]));
            assert(nested(path@, added).take(it.index() + 1) == nested(path@, added).take(
                it.index() as int,
            ).push(nested(path@, added)[it.index() as int]));
        }
        assert(nested(path@, added).take(given.len() as int) == nested(path@, added));
        Router { routes }
    }

    /// The router with the routes of `other` behind its own.
    pub fn merge(self, other: Router) -> (router: Router)
        ensures
            router.routes@ == self.routes@ + other.routes@,
    {
        let mut routes = self.routes;
        let mut more = other.routes;
        routes.append(&mut more);
        Router { routes }
    }
}

} // verus!
