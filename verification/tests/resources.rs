use encyclopedia::resource::{FetchState, Resource};
use encyclopedia::server::{adding_two, ServerError};

#[test]
fn adding_two_adds() {
    assert_eq!(adding_two(2, 2), Ok(4));
    assert_eq!(adding_two(1, 2), Ok(3));
    assert_eq!(adding_two(-5, 3), Ok(-2));
    assert_eq!(adding_two(0, 0), Ok(0));
}

#[test]
fn adding_two_overflow_wraps_without_crashing() {
    assert_eq!(adding_two(i32::MAX, 1), Ok(i32::MIN));
    assert_eq!(adding_two(i32::MIN, -1), Ok(i32::MAX));
}

#[test]
fn a_new_key_invalidates_and_refetches() {
    let mut res = Resource::init(5);
    res.resolve(5, Ok(10));
    assert_eq!(res.state, FetchState::Ready(10));
    let refetch = res.set_key(7);
    assert!(refetch);
    assert_eq!(res.state, FetchState::Loading);
    assert_eq!(res.key, 7);
}

#[test]
fn an_equal_key_keeps_the_cache_entry() {
    let mut res = Resource::init(5);
    res.resolve(5, Ok(10));
    let refetch = res.set_key(5);
    assert!(!refetch);
    assert_eq!(res.state, FetchState::Ready(10));
}

#[test]
fn a_stale_outcome_is_dropped() {
    let mut res = Resource::init(7);
    res.resolve(5, Ok(10));
    assert_eq!(res.state, FetchState::Loading);
}

#[test]
fn last_key_wins_in_either_arrival_order() {
    // stale outcome arrives after the current one
    let mut res = Resource::init(5);
    res.set_key(7);
    res.resolve(7, adding_two(7, 7));
    res.resolve(5, adding_two(5, 5));
    assert_eq!(res.state, FetchState::Ready(14));

    // current outcome arrives after the stale one
    let mut res = Resource::init(5);
    res.set_key(7);
    res.resolve(5, adding_two(5, 5));
    res.resolve(7, adding_two(7, 7));
    assert_eq!(res.state, FetchState::Ready(14));
}

#[test]
fn a_failed_fetch_displays_the_error() {
    let mut res = Resource::init(1);
    res.resolve(1, Err(ServerError::RemoteCallFailed));
    assert_eq!(res.state, FetchState::Failed);
    assert!(!res.is_loading());
}

#[test]
fn loading_asks_for_the_fallback_view() {
    let res = Resource::init(0);
    assert!(res.is_loading());
}
