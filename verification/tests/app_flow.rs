use encyclopedia::app::App;
use encyclopedia::pages::{FetchTarget, HomePage, LoginPage, UserPage};
use encyclopedia::resource::FetchState;
use encyclopedia::router::Route;
use encyclopedia::server::adding_two;

#[test]
fn opening_the_users_page_schedules_both_fetches() {
    let (page, reqs) = UserPage::open("q=5");
    assert_eq!(page.search, 5);
    assert_eq!(reqs.len(), 2);
    assert!(matches!(reqs[0].target, FetchTarget::SearchResults));
    assert_eq!((reqs[0].x, reqs[0].y), (5, 5));
    assert!(matches!(reqs[1].target, FetchTarget::ActionResults));
    assert_eq!((reqs[1].x, reqs[1].y), (1, 2));
}

#[test]
fn navigating_users_q5_then_q7_displays_add_two_7_7() {
    // the q=5 response arrives after the q=7 response
    let (mut app, _) = App::start("/users", "q=5");
    let reqs = app.navigate("/users", "q=7");
    assert_eq!(reqs.len(), 1);
    assert_eq!((reqs[0].x, reqs[0].y), (7, 7));
    app.on_fetch(FetchTarget::SearchResults, 7, adding_two(7, 7));
    app.on_fetch(FetchTarget::SearchResults, 5, adding_two(5, 5));
    assert_eq!(app.users.search_results.state, FetchState::Ready(14));

    // the responses arrive in request order
    let (mut app, _) = App::start("/users", "q=5");
    app.navigate("/users", "q=7");
    app.on_fetch(FetchTarget::SearchResults, 5, adding_two(5, 5));
    app.on_fetch(FetchTarget::SearchResults, 7, adding_two(7, 7));
    assert_eq!(app.users.search_results.state, FetchState::Ready(14));
}

#[test]
fn an_unchanged_search_value_schedules_nothing() {
    let (mut app, _) = App::start("/users", "q=5");
    let reqs = app.navigate("/users", "q=05");
    assert!(reqs.is_empty());
}

#[test]
fn navigating_to_an_undefined_path_renders_the_fallback() {
    let (mut app, reqs) = App::start("/", "");
    assert!(reqs.is_empty());
    assert!(app.renders_page());
    let reqs = app.navigate("/nope", "");
    assert_eq!(app.router.route, Route::NotFound);
    assert!(!app.renders_page());
    assert!(reqs.is_empty());
}

#[test]
fn dispatch_bumps_the_version_and_refetches_exactly_once() {
    let (mut app, _) = App::start("/users", "");
    assert_eq!(app.users.add_two.version, 0);
    let reqs = app.dispatch_add_two();
    assert_eq!(app.users.add_two.version, 1);
    assert_eq!(reqs.len(), 1);
    assert!(matches!(reqs[0].target, FetchTarget::ActionResults));
    assert_eq!(reqs[0].key, 1);
    assert_eq!((reqs[0].x, reqs[0].y), (1, 2));
    assert!(app.users.res.is_loading());
    app.on_fetch(FetchTarget::ActionResults, 1, adding_two(1, 2));
    assert_eq!(app.users.res.state, FetchState::Ready(3));

    // a second dispatch refetches once more
    let reqs = app.dispatch_add_two();
    assert_eq!(app.users.add_two.version, 2);
    assert_eq!(reqs.len(), 1);
    assert_eq!(reqs[0].key, 2);
}

#[test]
fn a_stale_action_outcome_is_dropped() {
    let (mut app, _) = App::start("/users", "");
    app.dispatch_add_two();
    // the fetch for the old version resolves after the dispatch
    app.on_fetch(FetchTarget::ActionResults, 0, adding_two(1, 2));
    assert!(app.users.res.is_loading());
}

#[test]
fn the_login_page_shares_the_search_contract() {
    let (page, reqs) = LoginPage::open("q=4&p=hunter");
    assert_eq!(page.search, 4);
    assert_eq!(reqs.len(), 1);
    assert_eq!((reqs[0].x, reqs[0].y), (4, 4));
    let (mut app, _) = App::start("/login", "q=4");
    app.on_fetch(FetchTarget::SearchResults, 4, adding_two(4, 4));
    assert_eq!(app.login.search_results.state, FetchState::Ready(8));
}

#[test]
fn the_home_counter_is_local_and_doubles_in_the_view() {
    let mut home = HomePage::open();
    assert_eq!(home.count, 0);
    home.click();
    home.click();
    home.click();
    assert_eq!(home.count, 3);
    assert_eq!(home.doubled(), 6);
}

#[test]
fn leaving_and_returning_shows_a_fresh_page() {
    let (mut app, _) = App::start("/", "");
    app.home.click();
    assert_eq!(app.home.count, 1);
    app.navigate("/users", "q=1");
    let reqs = app.navigate("/", "");
    assert!(reqs.is_empty());
    assert_eq!(app.home.count, 0);
}
