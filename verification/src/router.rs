//! The page router.
//!
//! A flat state machine over the four routes: every route is reachable
//! from every other by navigating to its path, and any path that matches
//! no page falls back to `NotFound`, which renders the error view and no
//! page view.

use vstd::prelude::*;

use crate::text::str_eq;

verus! {

/// The routes of the application. `NotFound` is the implicit fallback
/// entered whenever no path matches.
#[derive(Clone, Copy, PartialEq, Eq, Structural, Debug)]
pub enum Route {
    Home,
    Login,
    Users,
    NotFound,
}

/// The route a path maps to: the three fixed page paths, else the
/// fallback.
pub open spec fn spec_route_of(path: Seq<char>) -> Route {
    if path == "/"@ {
        Route::Home
    } else if path == "/login"@ {
        Route::Login
    } else if path == "/users"@ {
        Route::Users
    } else {
        Route::NotFound
    }
}

/// Maps a path to its route, `NotFound` when nothing matches.
pub fn match_route(path: &str) -> (r: Route)
    ensures
        r == spec_route_of(path@),
{
    if str_eq(path, "/") {
        Route::Home
    } else if str_eq(path, "/login") {
        Route::Login
    } else if str_eq(path, "/users") {
        Route::Users
    } else {
        Route::NotFound
    }
}

/// The current route, fixed by the last navigation. The route table
/// itself is immutable; only the position in it changes.
#[derive(Clone, Copy, PartialEq, Eq, Structural, Debug)]
pub struct Router {
    pub route: Route,
}

impl Router {
    /// The initial state, determined by the initial URL's path.
    pub fn start(path: &str) -> (r: Router)
        ensures
            r.route == spec_route_of(path@),
    {
        Router { route: match_route(path) }
    }

    /// Re-navigation: the only transition, available from every state.
    pub fn navigate(&mut self, path: &str)
        ensures
            final(self).route == spec_route_of(path@),
    {
        self.route = match_route(path);
    }

    /// Whether a page view is rendered. On `NotFound` the fallback error
    /// view is shown instead and no page view exists.
    pub fn renders_page(&self) -> (b: bool)
        ensures
            b == !(self.route is NotFound),
    {
        match self.route {
            Route::NotFound => false,
            _ => true,
        }
    }
}

} // verus!
