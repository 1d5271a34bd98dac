//! The logic that logs, written against the capability alone.

use crate::abx::AbxLogger;
use crate::call::{LogCall, LogKind};
use crate::logger::{error_line, event_line, lemma_lines_follow_calls, Logger};
use vstd::prelude::*;

verus! {

/// The text of the event that `run` records.
pub open spec fn event_description() -> Seq<char> {
    "Some event description"@
}

/// The text of the error that `run` records.
pub open spec fn error_description() -> Seq<char> {
    "Some error description"@
}

/// The calls that one `run` makes, in the order in which it makes them.
pub open spec fn run_calls() -> Seq<LogCall> {
    seq![
        LogCall { kind: LogKind::Event, text: event_description() },
        LogCall { kind: LogKind::Error, text: error_description() },
    ]
}

/// Records one event and then one error on `logger`.
///
/// Whatever the implementation, the logger's history grows by exactly these
/// two calls, in this order, and what it held before stays in front of them.
pub fn run<L: AbxLogger>(logger: &mut L)
    ensures
        final(logger).calls() == old(logger).calls() + run_calls(),
        final(logger).calls().len() == old(logger).calls().len() + 2,
        final(logger).calls()[old(logger).calls().len() as int] == (LogCall {
            kind: LogKind::Event,
            text: event_description(),
        }),
        final(logger).calls()[old(logger).calls().len() as int + 1] == (LogCall {
            kind: LogKind::Error,
            text: error_description(),
        }),
{
    logger.abx_log_event("Some event description");
    logger.abx_log_error("Some error description");
}

/// What one run adds to a logger's history does not depend on the logger.
///
/// Take any two loggers, of one implementation or of two, each with any
/// history, and let each go through one run. Both histories grow by the same
/// number of calls, and the calls added are the same, in the same order.
pub proof fn lemma_run_adds_the_same_to_every_logger<A: AbxLogger, B: AbxLogger>(
    a_before: A,
    a_after: A,
    b_before: B,
    b_after: B,
)
    requires
        a_after.calls() == a_before.calls() + run_calls(),
        b_after.calls() == b_before.calls() + run_calls(),
    ensures
        a_after.calls().len() - a_before.calls().len() == 2,
        b_after.calls().len() - b_before.calls().len() == 2,
        a_after.calls().skip(a_before.calls().len() as int) == run_calls(),
        b_after.calls().skip(b_before.calls().len() as int) == run_calls(),
        a_after.calls().skip(a_before.calls().len() as int) == b_after.calls().skip(
            b_before.calls().len() as int,
        ),
{
}

/// Two runs on two loggers that each start with an empty history do not
/// touch one another: afterwards each logger holds the calls of one run and
/// nothing else, so the two histories are equal.
pub proof fn lemma_fresh_runs_are_independent<A: AbxLogger, B: AbxLogger>(
    a_before: A,
    a_after: A,
    b_before: B,
    b_after: B,
)
    requires
        a_before.calls() == Seq::<LogCall>::empty(),
        b_before.calls() == Seq::<LogCall>::empty(),
        a_after.calls() == a_before.calls() + run_calls(),
        b_after.calls() == b_before.calls() + run_calls(),
    ensures
        a_after.calls() == run_calls(),
        b_after.calls() == run_calls(),
        a_after.calls() == b_after.calls(),
{
}

/// On the concrete logger a run puts out two lines after those that were
/// there: the event's line, then the error's.
pub proof fn lemma_run_lines_of_logger(before: Logger, after: Logger)
    requires
        before.well_formed(),
        after.well_formed(),
        after.calls() == before.calls() + run_calls(),
    ensures
        after@ == before@ + seq![
            event_line(event_description()),
            error_line(error_description()),
        ],
{
    lemma_lines_follow_calls(before);
    lemma_lines_follow_calls(after);
}

} // verus!
