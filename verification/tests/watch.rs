use page_watch::watch::WatchState;

#[test]
fn first_observation_is_not_a_change() {
    let mut w = WatchState::new();
    let changed = w.observe("/listing/123".to_string());
    assert!(!changed);
    assert_eq!(w.last_observed(), Some("/listing/123".to_string()));
}

#[test]
fn fresh_state_has_observed_nothing() {
    let w = WatchState::new();
    assert_eq!(w.last_observed(), None);
}

#[test]
fn observing_the_same_token_again_is_not_a_change() {
    let mut w = WatchState::new();
    assert!(!w.observe("/listing/123".to_string()));
    assert!(!w.observe("/listing/123".to_string()));
    assert_eq!(w.last_observed(), Some("/listing/123".to_string()));
}

#[test]
fn observing_a_different_token_is_a_change() {
    let mut w = WatchState::new();
    assert!(!w.observe("/listing/123".to_string()));
    assert!(w.observe("/listing/124".to_string()));
    assert_eq!(w.last_observed(), Some("/listing/124".to_string()));
}

#[test]
fn the_last_of_many_observations_wins() {
    let mut w = WatchState::new();
    let tokens = ["a", "b", "c", "b", "d"];
    for t in tokens {
        w.observe(t.to_string());
    }
    assert_eq!(w.last_observed(), Some("d".to_string()));
}

#[test]
fn change_flags_follow_the_observation_order() {
    let mut w = WatchState::new();
    assert!(!w.observe("a".to_string()));
    assert!(w.observe("b".to_string()));
    assert!(!w.observe("b".to_string()));
    assert!(w.observe("a".to_string()));
}
