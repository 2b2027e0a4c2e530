//! One tick of the watcher: take the outcome of fetching the page, extract
//! the identifying token, run the compare-and-update step, and decide which
//! notifications to emit. The surrounding program performs the fetch, the
//! waiting between ticks and the actual presentation; every decision in
//! between is made here.

use vstd::prelude::*;
use crate::error::{FetchError, TickError};
use crate::extract::{extract, extract_of};
use crate::watch::{observe_step, WatchState};

verus! {

/// The configuration of a poller: the page to watch, the cadence, the
/// selection rule with the attribute it reads, and the display strings
/// handed to the notification sink.
#[derive(Clone, Debug)]
pub struct PollConfig {
    /// The page the surrounding program polls.
    pub target_url: String,
    /// Seconds between ticks; must be positive.
    pub poll_interval_seconds: u64,
    /// CSS-like rule selecting the element that carries the token.
    pub selector: String,
    /// The attribute read from the first element matching `selector`.
    pub attribute: String,
    /// Body of the one-time announcement that the watcher is running.
    pub startup_message: String,
    /// Body of the persistent notification emitted on a detected change.
    pub update_message: String,
}

impl Default for PollConfig {
    /// The stock configuration: poll every 10 seconds and read the `href`
    /// of the first listing's anchor.
    fn default() -> (r: PollConfig)
        ensures
            r.target_url@ == "https://www.ctmpnumis.fr/en/"@,
            r.poll_interval_seconds == 10,
            r.selector@ == ".first a[href]"@,
            r.attribute@ == "href"@,
            r.startup_message@ == "now running"@,
            r.update_message@ == "update available"@,
    {
        PollConfig {
            target_url: "https://www.ctmpnumis.fr/en/".to_owned(),
            poll_interval_seconds: 10,
            selector: ".first a[href]".to_owned(),
            attribute: "href".to_owned(),
            startup_message: "now running".to_owned(),
            update_message: "update available".to_owned(),
        }
    }
}

/// How a tick ended.
#[derive(Clone, Copy, Debug, PartialEq, Eq, Structural)]
pub enum TickOutcome {
    /// The extracted token differs from the established baseline.
    Changed,
    /// The extracted token equals the baseline, or has just established it.
    Unchanged,
    /// Fetch or extraction failed; the watch state was left untouched.
    Failed(TickError),
}

/// What one tick decided: its outcome, and whether the one-time startup
/// announcement is due (true exactly on the first successful tick).
#[derive(Clone, Copy, Debug, PartialEq, Eq, Structural)]
pub struct TickReport {
    pub outcome: TickOutcome,
    pub announce: bool,
}

/// One notification to hand to the sink.
#[derive(Clone, Debug)]
pub struct Notice {
    pub summary: String,
    pub body: String,
    pub persistent: bool,
}

/// The startup announcement for configuration `c`.
pub open spec fn is_startup_notice(n: Notice, c: PollConfig) -> bool {
    &&& n.summary@ == c.target_url@
    &&& n.body@ == c.startup_message@
    &&& !n.persistent
}

/// The change notification for configuration `c`.
pub open spec fn is_update_notice(n: Notice, c: PollConfig) -> bool {
    &&& n.summary@ == c.target_url@
    &&& n.body@ == c.update_message@
    &&& n.persistent
}

/// The driver of the detection engine. It owns the watch state for its
/// whole lifetime; a tick never mutates that state on any failure path.
pub struct Poller {
    /// The configuration the poller was constructed with; never changed.
    pub config: PollConfig,
    state: WatchState,
    announced: bool,
}

impl Poller {
    /// The configuration the poller runs with, as contracts see it.
    pub closed spec fn configuration(&self) -> PollConfig {
        self.config
    }

    /// The token currently stored as the baseline, `None` before the
    /// first successful observation.
    pub closed spec fn observed(&self) -> Option<Seq<char>> {
        self.state@
    }

    /// Whether some tick has already succeeded, i.e. whether the one-time
    /// startup announcement is behind us.
    pub closed spec fn has_announced(&self) -> bool {
        self.announced
    }

    /// A poller that has observed nothing yet.
    pub fn new(config: PollConfig) -> (r: Poller)
        requires
            config.poll_interval_seconds > 0,
        ensures
            r.configuration() == config,
            r.observed() is None,
            !r.has_announced(),
    {
        Poller { config, state: WatchState::new(), announced: false }
    }

    /// The currently stored token, for callers outside the proof.
    pub fn last_observed(&self) -> (r: Option<String>)
        ensures
            match r {
                Some(s) => self.observed() == Some(s@),
                None => self.observed() is None,
            },
    {
        self.state.last_observed()
    }

    /// One tick, given the outcome of this tick's fetch. On a fetch or
    /// extraction failure the watch state is untouched and the error is
    /// reported; on success the extracted token runs through the atomic
    /// compare-and-update step, and the report says whether it changed
    /// and whether the startup announcement is due.
    pub fn tick(&mut self, fetched: Result<String, FetchError>) -> (r: TickReport)
        ensures
            final(self).configuration() == old(self).configuration(),
            match fetched {
                Err(e) => {
                    &&& final(self).observed() == old(self).observed()
                    &&& final(self).has_announced() == old(self).has_announced()
                    &&& r.outcome == TickOutcome::Failed(TickError::Fetch(e))
                    &&& !r.announce
                },
                Ok(markup) => match extract_of(
                    markup@,
                    old(self).configuration().selector@,
                    old(self).configuration().attribute@,
                ) {
                    Err(k) => {
                        &&& final(self).observed() == old(self).observed()
                        &&& final(self).has_announced() == old(self).has_announced()
                        &&& r.outcome == TickOutcome::Failed(TickError::Extraction(k))
                        &&& !r.announce
                    },
                    Ok(id) => {
                        &&& (final(self).observed(), r.outcome == TickOutcome::Changed)
                            == observe_step(old(self).observed(), id)
                        &&& r.outcome != TickOutcome::Changed ==> r.outcome
                            == TickOutcome::Unchanged
                        &&& final(self).has_announced()
                        &&& r.announce == !old(self).has_announced()
                    },
                },
            },
    {
        match fetched {
            Err(e) => TickReport { outcome: TickOutcome::Failed(TickError::Fetch(e)), announce: false },
            Ok(markup) => match extract(
                markup.as_str(),
                self.config.selector.as_str(),
                self.config.attribute.as_str(),
            ) {
                Err(k) => TickReport {
                    outcome: TickOutcome::Failed(TickError::Extraction(k)),
                    announce: false,
                },
                Ok(id) => {
                    let changed = self.state.observe(id);
                    let announce = !self.announced;
                    self.announced = true;
                    TickReport {
                        outcome: if changed {
                            TickOutcome::Changed
                        } else {
                            TickOutcome::Unchanged
                        },
                        announce,
                    }
                },
            },
        }
    }

    /// The notifications a tick's report calls for, in dispatch order: the
    /// one-time startup announcement when it is due, then the persistent
    /// change notification when the token changed; nothing otherwise.
    pub fn notices(&self, report: &TickReport) -> (v: Vec<Notice>)
        ensures
            v@.len() == (if report.announce {
                1int
            } else {
                0int
            }) + (if report.outcome == TickOutcome::Changed {
                1int
            } else {
                0int
            }),
            report.announce ==> is_startup_notice(v@[0], self.configuration()),
            report.outcome == TickOutcome::Changed ==> is_update_notice(
                v@[v@.len() - 1],
                self.configuration(),
            ),
    {
        let mut v: Vec<Notice> = Vec::new();
        if report.announce {
            v.push(
                Notice {
                    summary: self.config.target_url.clone(),
                    body: self.config.startup_message.clone(),
                    persistent: false,
                },
            );
        }
        if report.outcome == TickOutcome::Changed {
            v.push(
                Notice {
                    summary: self.config.target_url.clone(),
                    body: self.config.update_message.clone(),
                    persistent: true,
                },
            );
        }
        v
    }
}

} // verus!
