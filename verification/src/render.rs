//! Human-readable rendering of the error taxonomy.
//!
//! Each error renders to one string: the top-level error carries an
//! `error:` tag, one line naming which kind of argument failed, and a
//! `cause:` line showing the nested error's own rendering, unmodified.
//! The crate only produces the string; writing it anywhere is the
//! caller's business.

use vstd::prelude::*;

use crate::duration::DurationParseError;
use crate::input::CommandParseError;
use crate::input::GoalActionParseError;
use crate::DateTimeParseError;
use crate::InvalidGoalPeriod;

verus! {

impl DurationParseError {
    /// The rendering of a duration failure.
    pub open spec fn spec_render(self) -> Seq<char> {
        match self {
            DurationParseError::InvalidFormat => "invalid duration format"@,
            DurationParseError::InvalidHourNumber => "invalid hour number"@,
            DurationParseError::InvalidMinuteNumber => "invalid minute number"@,
            DurationParseError::EmptyDuration => "empty duration"@,
        }
    }

    /// Renders the failure for the user.
    pub fn render(&self) -> (r: String)
        ensures
            r@ == self.spec_render(),
    {
        match *self {
            DurationParseError::InvalidFormat => String::from_str("invalid duration format"),
            DurationParseError::InvalidHourNumber => String::from_str("invalid hour number"),
            DurationParseError::InvalidMinuteNumber => String::from_str("invalid minute number"),
            DurationParseError::EmptyDuration => String::from_str("empty duration"),
        }
    }
}

impl InvalidGoalPeriod {
    /// The rendering of an invalid period keyword, naming the ten valid
    /// ones.
    pub open spec fn spec_render(self) -> Seq<char> {
        "invalid goal period\nvalid period values: month, week, day, sunday, monday, tuesday, wednesday, thursday, friday, saturday."@
    }

    /// Renders the failure for the user.
    pub fn render(&self) -> (r: String)
        ensures
            r@ == self.spec_render(),
    {
        String::from_str(
            "invalid goal period\nvalid period values: month, week, day, sunday, monday, tuesday, wednesday, thursday, friday, saturday.",
        )
    }
}

impl DateTimeParseError {
    /// The rendering of a date/time failure: the underlying parser
    /// diagnostic, verbatim.
    pub open spec fn spec_render(self) -> Seq<char> {
        self.message@
    }

    /// Renders the failure for the user.
    pub fn render(&self) -> (r: String)
        ensures
            r@ == self.spec_render(),
    {
        self.message.clone()
    }
}

impl GoalActionParseError {
    /// The rendering of a goal action failure: its own line for a wrong
    /// argument shape, the wrapped failure's rendering otherwise.
    pub open spec fn spec_render(self) -> Seq<char> {
        match self {
            GoalActionParseError::UnexpectedArg => "time/erase argument is not expected"@,
            GoalActionParseError::MissingArg => "time/erase argument is missing"@,
            GoalActionParseError::InvalidGoalPeriod(e) => e.spec_render(),
            GoalActionParseError::DurationParseError(e) => e.spec_render(),
        }
    }

    /// Renders the failure for the user.
    pub fn render(&self) -> (r: String)
        ensures
            r@ == self.spec_render(),
    {
        match *self {
            GoalActionParseError::UnexpectedArg => String::from_str(
                "time/erase argument is not expected",
            ),
            GoalActionParseError::MissingArg => String::from_str("time/erase argument is missing"),
            GoalActionParseError::InvalidGoalPeriod(e) => e.render(),
            GoalActionParseError::DurationParseError(e) => e.render(),
        }
    }
}

impl CommandParseError {
    /// The rendering of a whole resolution failure: the `error:` tag, the
    /// line naming the failing argument kind, and the `cause:` line with
    /// the nested rendering.
    pub open spec fn spec_render(self) -> Seq<char> {
        match self {
            CommandParseError::DateTimeParseError(e) => "error: could not parse the date/time argument.\ncause: "@
                + e.spec_render(),
            CommandParseError::DurationParseError(e) => "error: could not parse the duration argument.\ncause: "@
                + e.spec_render(),
            CommandParseError::InvalidGoalPeriod(e) => "error: could not parse the period argument.\ncause: "@
                + e.spec_render(),
            CommandParseError::GoalActionParseError(e) => "error: could not parse the goal action.\ncause: "@
                + e.spec_render(),
        }
    }

    /// Renders the failure for the user.
    pub fn render(&self) -> (r: String)
        ensures
            r@ == self.spec_render(),
    {
        match self {
            CommandParseError::DateTimeParseError(e) => {
                let cause = e.render();
                String::from_str("error: could not parse the date/time argument.\ncause: ").concat(
                    cause.as_str(),
                )
            },
            CommandParseError::DurationParseError(e) => {
                let cause = e.render();
                String::from_str("error: could not parse the duration argument.\ncause: ").concat(
                    cause.as_str(),
                )
            },
            CommandParseError::InvalidGoalPeriod(e) => {
                let cause = e.render();
                String::from_str("error: could not parse the period argument.\ncause: ").concat(
                    cause.as_str(),
                )
            },
            CommandParseError::GoalActionParseError(e) => {
                let cause = e.render();
                String::from_str("error: could not parse the goal action.\ncause: ").concat(
                    cause.as_str(),
                )
            },
        }
    }
}

} // verus!
