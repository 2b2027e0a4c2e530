use page_watch::error::{ExtractionError, FetchError, TickError};
use page_watch::poll::{PollConfig, Poller, TickOutcome};

fn listing_markup(href: &str) -> String {
    format!(
        "<html><body><ul>\
         <li class=\"first\"><a href=\"{href}\">latest</a></li>\
         </ul></body></html>"
    )
}

#[test]
fn the_stock_configuration() {
    let c = PollConfig::default();
    assert_eq!(c.target_url, "https://www.ctmpnumis.fr/en/");
    assert_eq!(c.poll_interval_seconds, 10);
    assert_eq!(c.selector, ".first a[href]");
    assert_eq!(c.attribute, "href");
    assert_eq!(c.startup_message, "now running");
    assert_eq!(c.update_message, "update available");
}

#[test]
fn first_poll_establishes_the_baseline() {
    let mut p = Poller::new(PollConfig::default());
    let r = p.tick(Ok(listing_markup("/listing/123")));
    assert_eq!(r.outcome, TickOutcome::Unchanged);
    assert!(r.announce);
    assert_eq!(p.last_observed(), Some("/listing/123".to_string()));
    let notices = p.notices(&r);
    assert_eq!(notices.len(), 1);
    assert_eq!(notices[0].body, "now running");
    assert!(!notices[0].persistent);
}

#[test]
fn polling_the_same_markup_again_changes_nothing() {
    let mut p = Poller::new(PollConfig::default());
    p.tick(Ok(listing_markup("/listing/123")));
    let r = p.tick(Ok(listing_markup("/listing/123")));
    assert_eq!(r.outcome, TickOutcome::Unchanged);
    assert!(!r.announce);
    assert_eq!(p.last_observed(), Some("/listing/123".to_string()));
    assert_eq!(p.notices(&r).len(), 0);
}

#[test]
fn an_updated_anchor_is_a_change_with_a_persistent_notice() {
    let mut p = Poller::new(PollConfig::default());
    p.tick(Ok(listing_markup("/listing/123")));
    let r = p.tick(Ok(listing_markup("/listing/124")));
    assert_eq!(r.outcome, TickOutcome::Changed);
    assert!(!r.announce);
    assert_eq!(p.last_observed(), Some("/listing/124".to_string()));
    let notices = p.notices(&r);
    assert_eq!(notices.len(), 1);
    assert_eq!(notices[0].body, "update available");
    assert!(notices[0].persistent);
}

#[test]
fn markup_without_a_match_leaves_the_state_untouched() {
    let mut p = Poller::new(PollConfig::default());
    p.tick(Ok(listing_markup("/listing/123")));
    p.tick(Ok(listing_markup("/listing/124")));
    let r = p.tick(Ok("<html><body><p>empty</p></body></html>".to_string()));
    assert_eq!(
        r.outcome,
        TickOutcome::Failed(TickError::Extraction(ExtractionError::NoMatch))
    );
    assert!(!r.announce);
    assert_eq!(p.last_observed(), Some("/listing/124".to_string()));
    assert_eq!(p.notices(&r).len(), 0);
}

#[test]
fn a_fetch_timeout_leaves_the_state_untouched() {
    let mut p = Poller::new(PollConfig::default());
    p.tick(Ok(listing_markup("/listing/123")));
    let r = p.tick(Err(FetchError::Timeout));
    assert_eq!(
        r.outcome,
        TickOutcome::Failed(TickError::Fetch(FetchError::Timeout))
    );
    assert!(!r.announce);
    assert_eq!(p.last_observed(), Some("/listing/123".to_string()));
    assert_eq!(p.notices(&r).len(), 0);
    let next = p.tick(Ok(listing_markup("/listing/124")));
    assert_eq!(next.outcome, TickOutcome::Changed);
}

#[test]
fn a_fetch_failure_on_a_fresh_poller_postpones_the_announcement() {
    let mut p = Poller::new(PollConfig::default());
    let failed = p.tick(Err(FetchError::Network));
    assert_eq!(
        failed.outcome,
        TickOutcome::Failed(TickError::Fetch(FetchError::Network))
    );
    assert!(!failed.announce);
    assert_eq!(p.last_observed(), None);
    let first_success = p.tick(Ok(listing_markup("/listing/123")));
    assert!(first_success.announce);
}

#[test]
fn an_http_error_status_carries_its_code() {
    let mut p = Poller::new(PollConfig::default());
    let r = p.tick(Err(FetchError::HttpStatus(503)));
    assert_eq!(
        r.outcome,
        TickOutcome::Failed(TickError::Fetch(FetchError::HttpStatus(503)))
    );
    assert_eq!(p.last_observed(), None);
}

#[test]
fn the_announcement_precedes_a_change_notice() {
    let p = Poller::new(PollConfig::default());
    let report = page_watch::poll::TickReport {
        outcome: TickOutcome::Changed,
        announce: true,
    };
    let notices = p.notices(&report);
    assert_eq!(notices.len(), 2);
    assert_eq!(notices[0].body, "now running");
    assert!(!notices[0].persistent);
    assert_eq!(notices[1].body, "update available");
    assert!(notices[1].persistent);
}
