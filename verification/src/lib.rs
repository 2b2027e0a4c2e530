//! A change-detection watcher core. The library extracts one identifying
//! token from page markup with a structural selection rule, compares it
//! against the last-observed value behind an exclusive-access state, and
//! decides which notifications a tick should emit. Fetching the page and
//! presenting notifications are left to the surrounding program.

pub mod error;
pub mod extract;
pub mod poll;
pub mod watch;
