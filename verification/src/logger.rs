//! The concrete logger, and the capability implemented on it.

use crate::abx::AbxLogger;
use crate::call::{displays_as, logged, LogCall, LogKind};
use std::fmt::Display;
use vstd::prelude::*;

verus! {

/// The line that the logger puts out for an event with this text.
pub open spec fn event_line(text: Seq<char>) -> Seq<char> {
    "Event: "@ + text
}

/// The line that the logger puts out for an error with this text.
pub open spec fn error_line(text: Seq<char>) -> Seq<char> {
    "Error: "@ + text
}

/// The line that the logger puts out for `call`.
pub open spec fn line_of(call: LogCall) -> Seq<char> {
    match call.kind {
        LogKind::Event => event_line(call.text),
        LogKind::Error => error_line(call.text),
    }
}

/// The call that `line` was put out for: an event if the line starts as an
/// event's line does, else an error; the text is what follows the prefix.
pub open spec fn call_of_line(line: Seq<char>) -> LogCall {
    let prefix = "Event: "@;
    if line.len() >= prefix.len() && line.take(prefix.len() as int) == prefix {
        LogCall { kind: LogKind::Event, text: line.skip(prefix.len() as int) }
    } else {
        LogCall { kind: LogKind::Error, text: line.skip("Error: "@.len() as int) }
    }
}

/// Reading a call back from its own line gives the call.
pub proof fn lemma_call_of_its_line(call: LogCall)
    ensures
        call_of_line(line_of(call)) == call,
{
    reveal_strlit("Event: ");
    reveal_strlit("Error: ");
    let event = "Event: "@;
    let error = "Error: "@;
    match call.kind {
        LogKind::Event => {
            let line = event + call.text;
            assert(line.take(event.len() as int) =~= event);
            assert(line.skip(event.len() as int) =~= call.text);
        },
        LogKind::Error => {
            let line = error + call.text;
            assert(event[1] == 'v');
            assert(line.skip(error.len() as int) =~= call.text);
        },
    }
}

/// The logger proper. It is made from credentials and turns each call into
/// one line of output. It keeps the lines, in the order of the calls, for the
/// program to write out.
pub struct Logger {
    lines: Vec<String>,
}

impl View for Logger {
    type V = Seq<Seq<char>>;

    /// The lines put out so far, oldest first.
    closed spec fn view(&self) -> Seq<Seq<char>> {
        self.lines.deep_view()
    }
}

impl Logger {
    /// Every line is the line of some call.
    #[verifier::type_invariant]
    pub closed spec fn well_formed(self) -> bool {
        forall|i: int|
            0 <= i < self.lines.len() ==> line_of(call_of_line(#[trigger] self.lines[i]@))
                == self.lines[i]@
    }

    /// A logger that has put out nothing yet.
    pub fn new(_credentials: String) -> (logger: Logger)
        ensures
            logger@ == Seq::<Seq<char>>::empty(),
    {
        let logger = Logger { lines: Vec::new() };
        logger
    }

    /// Puts out the line of an event described by `description`: `Event: `
    /// and then the description's string form.
    pub fn log_event<T: Display + ?Sized>(&mut self, description: &T)
        ensures
            exists|text: Seq<char>|
                #![trigger displays_as(description, text)]
                displays_as(description, text) && final(self)@ == old(self)@.push(
                    event_line(text),
                ),
            logged(old(self).calls(), final(self).calls(), LogKind::Event, description),
    {
        let text = description.to_string();
        let mut line = "Event: ".to_owned();
        line.append(text.as_str());
        let ghost call = LogCall { kind: LogKind::Event, text: text@ };
        proof {
            assert(displays_as(description, text@));
            lemma_call_of_its_line(call);
        }
        self.put(line);
        assert(self.calls() =~= old(self).calls().push(call));
    }

    /// Puts out the line of an error described by `description`: `Error: `
    /// and then the description's string form.
    pub fn log_error<T: Display + ?Sized>(&mut self, description: &T)
        ensures
            exists|text: Seq<char>|
                #![trigger displays_as(description, text)]
                displays_as(description, text) && final(self)@ == old(self)@.push(
                    error_line(text),
                ),
            logged(old(self).calls(), final(self).calls(), LogKind::Error, description),
    {
        let text = description.to_string();
        let mut line = "Error: ".to_owned();
        line.append(text.as_str());
        let ghost call = LogCall { kind: LogKind::Error, text: text@ };
        proof {
            assert(displays_as(description, text@));
            lemma_call_of_its_line(call);
        }
        self.put(line);
        assert(self.calls() =~= old(self).calls().push(call));
    }

    /// Adds `line` after the lines put out so far.
    fn put(&mut self, line: String)
        requires
            line_of(call_of_line(line@)) == line@,
        ensures
            final(self)@ == old(self)@.push(line@),
    {
        proof {
            use_type_invariant(&*self);
        }
        let mut lines: Vec<String> = Vec::new();
        std::mem::swap(&mut lines, &mut self.lines);
        lines.push(line);
        self.lines = lines;
    }

    /// The lines put out so far, oldest first. They are the lines of the calls
    /// made, one for one.
    pub fn lines(&self) -> (lines: &Vec<String>)
        ensures
            lines.len() == self@.len(),
            forall|i: int| 0 <= i < lines.len() ==> #[trigger] lines[i]@ == self@[i],
            forall|i: int|
                0 <= i < lines.len() ==> #[trigger] self@[i] == line_of(self.calls()[i]),
    {
        proof {
            use_type_invariant(self);
        }
        &self.lines
    }
}

/// A logger's lines are the lines of its calls, one for one.
pub proof fn lemma_lines_follow_calls(logger: Logger)
    requires
        logger.well_formed(),
    ensures
        logger@.len() == logger.calls().len(),
        forall|i: int|
            0 <= i < logger@.len() ==> #[trigger] logger@[i] == line_of(logger.calls()[i]),
{
}

impl AbxLogger for Logger {
    /// The calls are read back from the lines.
    open spec fn calls(&self) -> Seq<LogCall> {
        self@.map_values(|line: Seq<char>| call_of_line(line))
    }

    fn abx_log_event<T: Display + ?Sized>(&mut self, description: &T) {
        self.log_event(description);
    }

    fn abx_log_error<T: Display + ?Sized>(&mut self, description: &T) {
        self.log_error(description);
    }
}

} // verus!
