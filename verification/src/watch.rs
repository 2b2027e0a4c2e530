//! The last-observed token and the atomic compare-and-update step on it.

use vstd::prelude::*;

verus! {

/// One observation step, as a mathematical function: given the previously
/// stored token (`None` while nothing has been observed yet) and a newly
/// extracted token, yield the token stored afterwards and whether a change
/// is reported.
pub open spec fn observe_step(prev: Option<Seq<char>>, new_id: Seq<char>) -> (Option<
    Seq<char>,
>, bool) {
    match prev {
        None => (Some(new_id), false),
        Some(last) => if last == new_id {
            (Some(last), false)
        } else {
            (Some(new_id), true)
        },
    }
}

/// After an observation the stored token is always the observed one: the
/// state never reverts to holding nothing, and never keeps a stale token.
pub proof fn lemma_observe_stores_new(prev: Option<Seq<char>>, new_id: Seq<char>)
    ensures
        observe_step(prev, new_id).0 == Some(new_id),
{
}

/// First-observation suppression: on a fresh state, observing any token
/// establishes it as the baseline without reporting a change.
pub proof fn lemma_first_observation(new_id: Seq<char>)
    ensures
        observe_step(None, new_id) == (Some(new_id), false),
{
}

/// Idempotence: observing the same token twice in a row reports no change
/// the second time, and the state still holds that token.
pub proof fn lemma_observe_idempotent(prev: Option<Seq<char>>, x: Seq<char>)
    ensures
        ({
            let first = observe_step(prev, x);
            observe_step(first.0, x) == (Some(x), false)
        }),
{
}

/// Change detection: observing `a` and then a different token `b` reports a
/// change on the second observation, and the state then holds `b`.
pub proof fn lemma_change_detection(prev: Option<Seq<char>>, a: Seq<char>, b: Seq<char>)
    requires
        a != b,
    ensures
        ({
            let first = observe_step(prev, a);
            observe_step(first.0, b) == (Some(b), true)
        }),
{
}

/// The token stored after replaying a whole sequence of observation steps
/// in order, starting from `init`.
pub open spec fn run_observations(init: Option<Seq<char>>, tokens: Seq<Seq<char>>) -> Option<
    Seq<char>,
>
    decreases tokens.len(),
{
    if tokens.len() == 0 {
        init
    } else {
        run_observations(observe_step(init, tokens[0]).0, tokens.drop_first())
    }
}

/// Serializability of concurrent observers: each call to `observe` is one
/// atomic step, so any set of concurrent calls is equivalent to replaying
/// them in some total order. Whatever that order is, the token stored at
/// the end is exactly the token of the logically last call: no update is
/// silently lost.
pub proof fn lemma_last_observation_wins(init: Option<Seq<char>>, tokens: Seq<Seq<char>>)
    requires
        tokens.len() > 0,
    ensures
        run_observations(init, tokens) == Some(tokens.last()),
    decreases tokens.len(),
{
    let rest = tokens.drop_first();
    if tokens.len() == 1 {
        assert(run_observations(observe_step(init, tokens[0]).0, rest) == observe_step(
            init,
            tokens[0],
        ).0);
    } else {
        lemma_last_observation_wins(observe_step(init, tokens[0]).0, rest);
        assert(rest.last() == tokens.last());
    }
}

/// Once a baseline is established it is never lost: replaying any sequence
/// of observation steps from a state that holds a token leaves a state
/// that still holds one.
pub proof fn lemma_initialized_is_monotonic(init: Option<Seq<char>>, tokens: Seq<Seq<char>>)
    requires
        init is Some,
    ensures
        run_observations(init, tokens) is Some,
    decreases tokens.len(),
{
    if tokens.len() > 0 {
        lemma_initialized_is_monotonic(observe_step(init, tokens[0]).0, tokens.drop_first());
    }
}

/// The record of the last-observed token. A value of this type is owned
/// exclusively by its poller; `observe` takes `&mut self`, so Rust's
/// ownership rules make the whole read-compare-write step a critical
/// section that no other caller can interleave with.
pub struct WatchState {
    last: Option<String>,
}

impl View for WatchState {
    type V = Option<Seq<char>>;

    closed spec fn view(&self) -> Option<Seq<char>> {
        match self.last {
            Some(s) => Some(s@),
            None => None,
        }
    }
}

impl WatchState {
    /// A fresh state that has observed nothing yet.
    pub fn new() -> (r: WatchState)
        ensures
            r@ is None,
    {
        WatchState { last: None }
    }

    /// The atomic compare-and-update step: store `new_id` and report
    /// whether it differs from a previously established baseline. The
    /// very first observation establishes the baseline and is not itself
    /// a change.
    pub fn observe(&mut self, new_id: String) -> (changed: bool)
        ensures
            final(self)@ == Some(new_id@),
            changed == (old(self)@ is Some && old(self)@ != Some(new_id@)),
            (final(self)@, changed) == observe_step(old(self)@, new_id@),
    {
        let changed = match &self.last {
            None => false,
            Some(prev) => !(*prev == new_id),
        };
        if changed || self.last.is_none() {
            self.last = Some(new_id);
        }
        changed
    }

    /// The currently stored token, if any observation has happened yet.
    pub fn last_observed(&self) -> (r: Option<String>)
        ensures
            match r {
                Some(s) => self@ == Some(s@),
                None => self@ is None,
            },
    {
        match &self.last {
            Some(s) => Some(s.clone()),
            None => None,
        }
    }
}

} // verus!
