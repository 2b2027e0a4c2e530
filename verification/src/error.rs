//! The error taxonomy of the watcher: every tick-level failure is one of
//! these tagged values, so callers can branch on the kind rather than on
//! message text.

use vstd::prelude::*;

verus! {

/// A transport-level failure while retrieving the page markup.
#[derive(Clone, Copy, Debug, PartialEq, Eq, Structural)]
pub enum FetchError {
    /// The request could not be completed (connection, DNS, protocol).
    Network,
    /// The request exceeded its configured time budget.
    Timeout,
    /// The server answered with a non-success status code.
    HttpStatus(u16),
}

/// A failure while applying the selection rule to fetched markup.
#[derive(Clone, Copy, Debug, PartialEq, Eq, Structural)]
pub enum ExtractionError {
    /// No element of the markup satisfies the selection rule.
    NoMatch,
    /// The first matching element lacks the declared attribute.
    MissingAttribute,
}

/// Everything that can make a single tick fail. The poller reports it and
/// leaves the watch state untouched.
#[derive(Clone, Copy, Debug, PartialEq, Eq, Structural)]
pub enum TickError {
    Fetch(FetchError),
    Extraction(ExtractionError),
}

} // verus!
