use encyclopedia::router::{match_route, Route, Router};

#[test]
fn the_three_pages_have_their_paths() {
    assert_eq!(match_route("/"), Route::Home);
    assert_eq!(match_route("/login"), Route::Login);
    assert_eq!(match_route("/users"), Route::Users);
}

#[test]
fn unknown_paths_fall_back_to_not_found() {
    assert_eq!(match_route("/nope"), Route::NotFound);
    assert_eq!(match_route(""), Route::NotFound);
    assert_eq!(match_route("/users/"), Route::NotFound);
    assert_eq!(match_route("/LOGIN"), Route::NotFound);
}

#[test]
fn not_found_renders_no_page_view() {
    let router = Router::start("/nope");
    assert_eq!(router.route, Route::NotFound);
    assert!(!router.renders_page());
}

#[test]
fn every_route_is_reachable_from_every_other() {
    let mut router = Router::start("/");
    assert!(router.renders_page());
    router.navigate("/users");
    assert_eq!(router.route, Route::Users);
    router.navigate("/login");
    assert_eq!(router.route, Route::Login);
    router.navigate("/oops");
    assert_eq!(router.route, Route::NotFound);
    router.navigate("/");
    assert_eq!(router.route, Route::Home);
}
