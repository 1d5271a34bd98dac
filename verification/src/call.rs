//! The model that the contracts speak of: a logger's history is a sequence of
//! calls, each the operation that was called and the text that was logged.

use std::fmt::Display;
use vstd::prelude::*;
use vstd::string::to_string_from_display_ensures;

verus! {

/// Which of the two logging operations a call was.
#[derive(Clone, Copy, Debug, PartialEq, Eq, Structural)]
pub enum LogKind {
    Event,
    Error,
}

/// One call of a logging operation.
pub struct LogCall {
    /// The operation that was called.
    pub kind: LogKind,
    /// The string form of the value that was passed.
    pub text: Seq<char>,
}

/// `text` is a string form of `value`: some string that `value.to_string()`
/// may return has exactly these characters.
pub open spec fn displays_as<T: Display + ?Sized>(value: &T, text: Seq<char>) -> bool {
    exists|s: String| #[trigger] to_string_from_display_ensures::<T>(value, s) && s@ == text
}

/// `after` is `before` with one more call at its end, of the operation `kind`
/// and with a string form of `value` as its text.
pub open spec fn logged<T: Display + ?Sized>(
    before: Seq<LogCall>,
    after: Seq<LogCall>,
    kind: LogKind,
    value: &T,
) -> bool {
    exists|text: Seq<char>|
        #![trigger displays_as(value, text)]
        displays_as(value, text) && after == before.push(LogCall { kind, text })
}

/// A logging operation adds exactly one call, at the end, and leaves the
/// earlier calls as they were and where they were.
pub proof fn lemma_logged_appends_one<T: Display + ?Sized>(
    before: Seq<LogCall>,
    after: Seq<LogCall>,
    kind: LogKind,
    value: &T,
)
    requires
        logged(before, after, kind, value),
    ensures
        after.len() == before.len() + 1,
        after.drop_last() == before,
        after.last().kind == kind,
        displays_as(value, after.last().text),
{
}

} // verus!
