//! The capability that code which logs depends on.

use crate::call::{logged, LogCall, LogKind};
use std::fmt::Display;
use vstd::prelude::*;

verus! {

/// What this crate's logic needs from a logger: to record an event and to
/// record an error, each described by any value that can be displayed.
///
/// An implementation keeps, at least in the abstract, the history of the calls
/// made on it. Each operation adds exactly one call to the end of that history
/// and leaves the earlier ones as they were.
pub trait AbxLogger {
    /// The calls made on this logger so far, oldest first.
    spec fn calls(&self) -> Seq<LogCall>;

    /// Records an event described by `description`.
    fn abx_log_event<T: Display + ?Sized>(&mut self, description: &T)
        ensures
            logged(old(self).calls(), final(self).calls(), LogKind::Event, description),
    ;

    /// Records an error described by `description`.
    fn abx_log_error<T: Display + ?Sized>(&mut self, description: &T)
        ensures
            logged(old(self).calls(), final(self).calls(), LogKind::Error, description),
    ;
}

} // verus!
