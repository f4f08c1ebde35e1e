//! Input layer of a personal work-time-tracking command-line tool.
//!
//! The crate turns a raw, possibly partially-specified command — as typed on
//! the command line — into a fully validated, strongly-typed command ready
//! for execution. The core is a two-stage resolution pipeline: a raw command
//! value with optional textual fields is converted into a resolved
//! [`Command`] in which every deferred field is concrete, or resolution
//! fails with a single layered error.

use vstd::prelude::*;

pub mod input;
pub mod log;

mod duration;
mod render;
mod time;

pub use duration::parse_duration;
pub use duration::Duration;
pub use duration::DurationParseError;
pub use time::parse_datetime_or_now;
pub use time::parse_datetime_with;
pub use time::DateTimeParseError;
pub use time::Timestamp;


verus! {

/// A day of the week, as a goal period can name one.
#[derive(Clone, Copy, PartialEq, Eq, Structural, Debug)]
pub enum Weekday {
    Sun,
    Mon,
    Tue,
    Wed,
    Thu,
    Fri,
    Sat,
}

/// The recurrence unit a work-time goal applies to.
#[derive(Clone, Copy, PartialEq, Eq, Structural, Debug)]
pub enum GoalPeriod {
    Month,
    Week,
    Day,
    Weekday(Weekday),
}

/// Error of [`GoalPeriod::from_str`]: the text is not one of the ten
/// period keywords.
#[derive(Clone, Copy, PartialEq, Eq, Structural, Debug)]
pub struct InvalidGoalPeriod;

/// The period keyword table: exactly these ten case-sensitive lowercase
/// tokens name a period; every other text is invalid. No normalization
/// (case-folding, trimming) is performed.
pub open spec fn spec_goal_period(s: Seq<char>) -> Result<GoalPeriod, InvalidGoalPeriod> {
    if s == "month"@ {
        Ok(GoalPeriod::Month)
    } else if s == "week"@ {
        Ok(GoalPeriod::Week)
    } else if s == "day"@ {
        Ok(GoalPeriod::Day)
    } else if s == "sunday"@ {
        Ok(GoalPeriod::Weekday(Weekday::Sun))
    } else if s == "monday"@ {
        Ok(GoalPeriod::Weekday(Weekday::Mon))
    } else if s == "tuesday"@ {
        Ok(GoalPeriod::Weekday(Weekday::Tue))
    } else if s == "wednesday"@ {
        Ok(GoalPeriod::Weekday(Weekday::Wed))
    } else if s == "thursday"@ {
        Ok(GoalPeriod::Weekday(Weekday::Thu))
    } else if s == "friday"@ {
        Ok(GoalPeriod::Weekday(Weekday::Fri))
    } else if s == "saturday"@ {
        Ok(GoalPeriod::Weekday(Weekday::Sat))
    } else {
        Err(InvalidGoalPeriod)
    }
}

/// The period keyword table is closed: a text that is none of the ten
/// keywords fails with [`InvalidGoalPeriod`].
pub proof fn lemma_period_keywords_closed(s: Seq<char>)
    requires
        s != "month"@,
        s != "week"@,
        s != "day"@,
        s != "sunday"@,
        s != "monday"@,
        s != "tuesday"@,
        s != "wednesday"@,
        s != "thursday"@,
        s != "friday"@,
        s != "saturday"@,
    ensures
        spec_goal_period(s) == Err::<GoalPeriod, InvalidGoalPeriod>(InvalidGoalPeriod),
{
}

/// Character-by-character string comparison, so that equality of the
/// views is decided without relying on an unspecified `eq`.
fn str_eq(a: &str, b: &str) -> (r: bool)
    ensures
        r == (a@ == b@),
{
    let an = a.unicode_len();
    let bn = b.unicode_len();
    if an != bn {
        return false;
    }
    let mut i: usize = 0;
    while i < an
        invariant
            0 <= i <= an,
            an == a@.len(),
            bn == b@.len(),
            an == bn,
            forall|k: int| 0 <= k < i ==> a@[k] == b@[k],
        decreases an - i,
    {
        if a.get_char(i) != b.get_char(i) {
            return false;
        }
        i = i + 1;
    }
    proof {
        assert(a@ =~= b@);
    }
    true
}

impl GoalPeriod {
    /// Maps one of the ten period keywords to its [`GoalPeriod`]; any
    /// other text fails with [`InvalidGoalPeriod`].
    pub fn from_str(string: &str) -> (r: Result<GoalPeriod, InvalidGoalPeriod>)
        ensures
            r == spec_goal_period(string@),
    {
        if str_eq(string, "month") {
            Ok(GoalPeriod::Month)
        } else if str_eq(string, "week") {
            Ok(GoalPeriod::Week)
        } else if str_eq(string, "day") {
            Ok(GoalPeriod::Day)
        } else if str_eq(string, "sunday") {
            Ok(GoalPeriod::Weekday(Weekday::Sun))
        } else if str_eq(string, "monday") {
            Ok(GoalPeriod::Weekday(Weekday::Mon))
        } else if str_eq(string, "tuesday") {
            Ok(GoalPeriod::Weekday(Weekday::Tue))
        } else if str_eq(string, "wednesday") {
            Ok(GoalPeriod::Weekday(Weekday::Wed))
        } else if str_eq(string, "thursday") {
            Ok(GoalPeriod::Weekday(Weekday::Thu))
        } else if str_eq(string, "friday") {
            Ok(GoalPeriod::Weekday(Weekday::Fri))
        } else if str_eq(string, "saturday") {
            Ok(GoalPeriod::Weekday(Weekday::Sat))
        } else {
            Err(InvalidGoalPeriod)
        }
    }
}

/// A concrete timestamp together with the forgotten flag, which marks it
/// as an approximate, after-the-fact reconstruction. Once this value
/// exists the timestamp is always present.
#[derive(Clone, Copy, PartialEq, Eq, Structural, Debug)]
pub struct ForgetableDateTime {
    pub datetime: Timestamp,
    pub forgotten: bool,
}

/// A resolved goal action: set a goal for a period, erase the goal of one
/// period, or erase the goals of all periods. Set and Erase always carry a
/// successfully parsed period.
#[derive(Clone, Copy, PartialEq, Eq, Structural, Debug)]
pub enum GoalAction {
    SetGoal(GoalPeriod, Duration),
    Erase(GoalPeriod),
    EraseAll,
}

/// A command containing all the parameters needed to execute it: the
/// resolved counterpart of [`input::CommandInput`]. Every deferred field
/// is concrete — a timestamp instead of optional text, a resolved goal
/// action instead of raw tokens.
#[derive(Clone, Copy, PartialEq, Eq, Debug)]
pub enum Command<'a> {
    Enter { datetime: ForgetableDateTime },
    Exit { datetime: ForgetableDateTime },
    Create { mnemonic: &'a str, code: Option<&'a str> },
    Edit { mnemonic: &'a str, code: Option<&'a str> },
    Delete { mnemonic: &'a str },
    Start { mnemonic: &'a str, datetime: ForgetableDateTime },
    Stop { mnemonic: Option<&'a str>, datetime: ForgetableDateTime, commit: bool },
    Commit { mnemonic: &'a str, datetime: Timestamp },
    Resolve { mnemonic: Option<&'a str> },
    Goal { action: GoalAction, mnemonic: Option<&'a str> },
    Goals { mnemonic: Option<&'a str> },
    Status { mnemonic: Option<&'a str> },
}

/// The mathematical value of a [`Command`]: textual fields become
/// sequences of characters, everything else is already plain.
pub enum CommandView {
    Enter { datetime: ForgetableDateTime },
    Exit { datetime: ForgetableDateTime },
    Create { mnemonic: Seq<char>, code: Option<Seq<char>> },
    Edit { mnemonic: Seq<char>, code: Option<Seq<char>> },
    Delete { mnemonic: Seq<char> },
    Start { mnemonic: Seq<char>, datetime: ForgetableDateTime },
    Stop { mnemonic: Option<Seq<char>>, datetime: ForgetableDateTime, commit: bool },
    Commit { mnemonic: Seq<char>, datetime: Timestamp },
    Resolve { mnemonic: Option<Seq<char>> },
    Goal { action: GoalAction, mnemonic: Option<Seq<char>> },
    Goals { mnemonic: Option<Seq<char>> },
    Status { mnemonic: Option<Seq<char>> },
}

impl<'a> View for Command<'a> {
    type V = CommandView;

    open spec fn view(&self) -> CommandView {
        match *self {
            Command::Enter { datetime } => CommandView::Enter { datetime },
            Command::Exit { datetime } => CommandView::Exit { datetime },
            Command::Create { mnemonic, code } => CommandView::Create {
                mnemonic: mnemonic@,
                code: code.deep_view(),
            },
            Command::Edit { mnemonic, code } => CommandView::Edit {
                mnemonic: mnemonic@,
                code: code.deep_view(),
            },
            Command::Delete { mnemonic } => CommandView::Delete { mnemonic: mnemonic@ },
            Command::Start { mnemonic, datetime } => CommandView::Start {
                mnemonic: mnemonic@,
                datetime,
            },
            Command::Stop { mnemonic, datetime, commit } => CommandView::Stop {
                mnemonic: mnemonic.deep_view(),
                datetime,
                commit,
            },
            Command::Commit { mnemonic, datetime } => CommandView::Commit {
                mnemonic: mnemonic@,
                datetime,
            },
            Command::Resolve { mnemonic } => CommandView::Resolve {
                mnemonic: mnemonic.deep_view(),
            },
            Command::Goal { action, mnemonic } => CommandView::Goal {
                action,
                mnemonic: mnemonic.deep_view(),
            },
            Command::Goals { mnemonic } => CommandView::Goals { mnemonic: mnemonic.deep_view() },
            Command::Status { mnemonic } => CommandView::Status { mnemonic: mnemonic.deep_view() },
        }
    }
}

} // verus!
