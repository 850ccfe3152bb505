//! What the poll loop keeps between cycles and what it tells the operator.
//!
//! The loop itself, its clock and its sleep belong to the caller. Times are
//! whole seconds since the Unix epoch, handed in with each call.

use crate::engine::{Outcome, OutcomeView};
use vstd::prelude::*;

verus! {

/// Whether a cycle moved the working copy: it ended synchronized, and the
/// identifier it ended at is not the one it started from.
pub open spec fn moved(outcome: OutcomeView) -> bool {
    outcome matches OutcomeView::Synchronized { old_id, new_id } && old_id != new_id
}

/// The times that the poll loop keeps: when the working copy last changed
/// and when it was last compared with the remote.
#[derive(Clone, Copy, Debug, PartialEq, Eq, Structural)]
pub struct SyncState {
    pub last_change_time: u64,
    pub last_check_time: u64,
}

/// What the loop does at the top of an iteration.
#[derive(Clone, Copy, Debug, PartialEq, Eq, Structural)]
pub enum Directive {
    /// Run one cycle, then sleep for the poll interval.
    Reconcile,
    /// Leave the loop.
    Stop,
}

/// Decides, at the top of an iteration, whether another cycle runs: one
/// does unless shutdown was requested. No failure of a cycle ends the loop.
pub fn directive(shutdown_requested: bool) -> (d: Directive)
    ensures
        d == if shutdown_requested {
            Directive::Stop
        } else {
            Directive::Reconcile
        },
{
    if shutdown_requested {
        Directive::Stop
    } else {
        Directive::Reconcile
    }
}

impl SyncState {
    /// The state at process start: nothing has changed or been checked
    /// before `now`.
    pub fn new(now: u64) -> (state: SyncState)
        ensures
            state == (SyncState { last_change_time: now, last_check_time: now }),
    {
        SyncState { last_change_time: now, last_check_time: now }
    }

    /// The state after a cycle that ended with `outcome` at time `now`.
    pub open spec fn after(self, outcome: OutcomeView, now: u64) -> SyncState {
        SyncState {
            last_change_time: if moved(outcome) {
                now
            } else {
                self.last_change_time
            },
            last_check_time: now,
        }
    }

    /// The seconds from the last change to `now`; zero where the clock
    /// stands before the last change.
    pub open spec fn elapsed(self, now: u64) -> u64 {
        if now >= self.last_change_time {
            (now - self.last_change_time) as u64
        } else {
            0
        }
    }

    /// Records a finished cycle. Every cycle counts as a check; only one
    /// that moved the working copy counts as a change.
    pub fn record(&mut self, outcome: &Outcome, now: u64)
        ensures
            *final(self) == old(self).after(outcome@, now),
    {
        self.last_check_time = now;
        match outcome {
            Outcome::Synchronized { old_id, new_id } => {
                if !(*old_id == *new_id) {
                    self.last_change_time = now;
                }
            },
            _ => {},
        }
    }

    /// The seconds since the last change.
    pub fn elapsed_since_change(&self, now: u64) -> (seconds: u64)
        ensures
            seconds == self.elapsed(now),
    {
        if now >= self.last_change_time {
            now - self.last_change_time
        } else {
            0
        }
    }
}

/// The text of one decimal digit.
pub open spec fn digit_text(d: nat) -> Seq<char> {
    if d == 0 {
        "0"@
    } else if d == 1 {
        "1"@
    } else if d == 2 {
        "2"@
    } else if d == 3 {
        "3"@
    } else if d == 4 {
        "4"@
    } else if d == 5 {
        "5"@
    } else if d == 6 {
        "6"@
    } else if d == 7 {
        "7"@
    } else if d == 8 {
        "8"@
    } else {
        "9"@
    }
}

/// A number in decimal, without sign or leading zeros.
pub open spec fn decimal_text(n: nat) -> Seq<char>
    decreases n,
{
    if n < 10 {
        digit_text(n)
    } else {
        decimal_text(n / 10) + digit_text(n % 10)
    }
}

fn digit(d: u64) -> (text: &'static str)
    requires
        d < 10,
    ensures
        text@ == digit_text(d as nat),
{
    if d == 0 {
        "0"
    } else if d == 1 {
        "1"
    } else if d == 2 {
        "2"
    } else if d == 3 {
        "3"
    } else if d == 4 {
        "4"
    } else if d == 5 {
        "5"
    } else if d == 6 {
        "6"
    } else if d == 7 {
        "7"
    } else if d == 8 {
        "8"
    } else {
        "9"
    }
}

/// Writes a number in decimal.
pub fn decimal(n: u64) -> (text: String)
    ensures
        text@ == decimal_text(n as nat),
    decreases n,
{
    if n < 10 {
        String::from_str(digit(n))
    } else {
        let mut text = decimal(n / 10);
        text.append(digit(n % 10));
        text
    }
}

/// The text that chrono writes for a moment given in seconds since the Unix
/// epoch, in UTC and in the form `%Y-%m-%d %H:%M:%S`; `None` for a moment
/// that chrono cannot represent.
pub uninterp spec fn utc_text(seconds: int) -> Option<Seq<char>>;

/// Calls `chrono::DateTime::from_timestamp` and formats the moment with
/// `DateTime::format`. The contract gives the result a name, [`utc_text`]:
/// the text depends on the number of seconds alone, since the zone is UTC.
#[verifier::external_body]
fn format_utc(seconds: i64) -> (text: Option<String>)
    ensures
        match text {
            Some(t) => utc_text(seconds as int) == Some(t@),
            None => utc_text(seconds as int) is None,
        },
{
    match chrono::DateTime::<chrono::Utc>::from_timestamp(seconds, 0) {
        Some(moment) => Some(moment.format("%Y-%m-%d %H:%M:%S").to_string()),
        None => None,
    }
}

/// The moment of the last change as the status line shows it, given what
/// the moment is written as.
pub open spec fn moment_text(seconds: u64, written: Option<Seq<char>>) -> Seq<char> {
    match written {
        Some(t) if seconds <= i64::MAX => t,
        _ => "@"@ + decimal_text(seconds as nat),
    }
}

/// The status line of a steady cycle. It begins with a carriage return so
/// that it overwrites the line before it.
pub open spec fn status_text(since: Seq<char>, elapsed: u64) -> Seq<char> {
    "\rNo new changes since "@ + since + ". Elapsed time: "@ + decimal_text(elapsed as nat)
        + " seconds."@
}

/// Writes the status line of a steady cycle from the moment of the last
/// change, already written out, and the seconds since.
pub fn status_line_with(since: &str, elapsed: u64) -> (line: String)
    ensures
        line@ == status_text(since@, elapsed),
{
    let mut line = String::from_str("\rNo new changes since ");
    line.append(since);
    line.append(". Elapsed time: ");
    line.append(decimal(elapsed).as_str());
    line.append(" seconds.");
    line
}

/// Writes a moment for the status line: the date and time in UTC, or, for
/// a moment beyond what can be written so, `@` and the seconds.
pub fn write_moment(seconds: u64) -> (text: String)
    ensures
        text@ == moment_text(seconds, utc_text(seconds as int)),
{
    if seconds <= 0x7fff_ffff_ffff_ffff {
        match format_utc(seconds as i64) {
            Some(t) => { return t; },
            None => {},
        }
    }
    let mut text = String::from_str("@");
    text.append(decimal(seconds).as_str());
    text
}

impl SyncState {
    /// Writes the status line that a steady cycle shows at time `now`.
    pub fn status_line(&self, now: u64) -> (line: String)
        ensures
            line@ == status_text(
                moment_text(self.last_change_time, utc_text(self.last_change_time as int)),
                self.elapsed(now),
            ),
    {
        let since = write_moment(self.last_change_time);
        status_line_with(since.as_str(), self.elapsed_since_change(now))
    }
}

} // verus!
