//! A logger that only remembers what it was asked to log.

use crate::abx::AbxLogger;
use crate::call::{displays_as, logged, LogCall, LogKind};
use std::fmt::Display;
use vstd::prelude::*;

verus! {

/// What the recorder keeps of one call.
struct Entry {
    kind: LogKind,
    text: String,
}

impl Entry {
    spec fn call(self) -> LogCall {
        LogCall { kind: self.kind, text: self.text@ }
    }
}

/// A stand-in for a logger: each call is appended to a list that can be read
/// back, and nothing else happens.
pub struct FakeLogger {
    entries: Vec<Entry>,
}

impl FakeLogger {
    /// A recorder that has recorded nothing.
    pub fn new() -> (recorder: FakeLogger)
        ensures
            recorder.calls() == Seq::<LogCall>::empty(),
    {
        let recorder = FakeLogger { entries: Vec::new() };
        recorder
    }

    /// A copy of the texts recorded so far, oldest first.
    pub fn get_logs(&self) -> (logs: Vec<String>)
        ensures
            logs.len() == self.calls().len(),
            forall|i: int| 0 <= i < logs.len() ==> #[trigger] logs[i]@ == self.calls()[i].text,
    {
        let mut logs: Vec<String> = Vec::new();
        let mut i: usize = 0;
        while i < self.entries.len()
            invariant
                i <= self.entries.len(),
                logs.len() == i,
                forall|j: int| 0 <= j < i ==> logs[j]@ == self.entries[j].text@,
            decreases self.entries.len() - i,
        {
            logs.push(self.entries[i].text.clone());
            i += 1;
        }
        logs
    }

    /// The operations recorded so far, oldest first.
    pub fn get_kinds(&self) -> (kinds: Vec<LogKind>)
        ensures
            kinds.len() == self.calls().len(),
            forall|i: int| 0 <= i < kinds.len() ==> #[trigger] kinds[i] == self.calls()[i].kind,
    {
        let mut kinds: Vec<LogKind> = Vec::new();
        let mut i: usize = 0;
        while i < self.entries.len()
            invariant
                i <= self.entries.len(),
                kinds.len() == i,
                forall|j: int| 0 <= j < i ==> kinds[j] == self.entries[j].kind,
            decreases self.entries.len() - i,
        {
            kinds.push(self.entries[i].kind);
            i += 1;
        }
        kinds
    }

    /// Appends one call of `kind` with the string form of `description`.
    fn record<T: Display + ?Sized>(&mut self, kind: LogKind, description: &T)
        ensures
            logged(old(self).calls(), final(self).calls(), kind, description),
    {
        let text = description.to_string();
        proof {
            assert(displays_as(description, text@));
        }
        self.entries.push(Entry { kind, text });
        assert(self.calls() =~= old(self).calls().push(LogCall { kind, text: text@ }));
    }
}

impl AbxLogger for FakeLogger {
    closed spec fn calls(&self) -> Seq<LogCall> {
        self.entries@.map_values(|entry: Entry| entry.call())
    }

    fn abx_log_event<T: Display + ?Sized>(&mut self, description: &T) {
        self.record(LogKind::Event, description);
    }

    fn abx_log_error<T: Display + ?Sized>(&mut self, description: &T) {
        self.record(LogKind::Error, description);
    }
}

} // verus!
