//! Raw command input and its resolution into a concrete [`Command`].
//!
//! A raw command mirrors what the user typed, with possibly missing
//! parameters; resolution fills every deferred field — date/time text
//! defaults to the current moment, goal tokens are parsed — or fails with
//! exactly one layered error. Resolution is a pure function of the raw
//! command and one injected clock value.

use vstd::prelude::*;

use crate::duration::spec_parse_duration;
use crate::duration::DurationParseError;
use crate::spec_goal_period;
use crate::time::spec_datetime_or_now;
use crate::Command;
use crate::CommandView;
use crate::DateTimeParseError;
use crate::ForgetableDateTime;
use crate::GoalAction;
use crate::GoalPeriod;
use crate::InvalidGoalPeriod;
use crate::Timestamp;

verus! {

/// A command in the same form as invoked by the user, with possibly
/// missing parameters. Missing parameters are resolved by converting the
/// `CommandInput` into a [`Command`].
#[derive(Clone, Copy, PartialEq, Eq, Debug)]
pub enum CommandInput<'a> {
    Enter { datetime: ForgetableDateTimeInput<'a> },
    Exit { datetime: ForgetableDateTimeInput<'a> },
    Create { mnemonic: &'a str, code: Option<&'a str> },
    Edit { mnemonic: &'a str, code: Option<&'a str> },
    Delete { mnemonic: &'a str },
    Start { mnemonic: &'a str, datetime: ForgetableDateTimeInput<'a> },
    Stop { mnemonic: Option<&'a str>, datetime: ForgetableDateTimeInput<'a>, commit: bool },
    Commit { mnemonic: &'a str, datetime: Option<&'a str> },
    Resolve { mnemonic: Option<&'a str> },
    Goal { action: GoalActionInput<'a>, arg: Option<GoalArgInput<'a>>, mnemonic: Option<&'a str> },
    Goals { mnemonic: Option<&'a str> },
    Status { mnemonic: Option<&'a str> },
}

/// Optional date/time text plus the forgotten flag. Absent text is a
/// deliberate "not yet resolved" state, not an error.
#[derive(Clone, Copy, PartialEq, Eq, Debug)]
pub struct ForgetableDateTimeInput<'a> {
    pub datetime: Option<&'a str>,
    pub forgotten: bool,
}

/// The goal action as requested: set something for a period named by raw
/// text, or erase the goals of all periods.
#[derive(Clone, Copy, PartialEq, Eq, Debug)]
pub enum GoalActionInput<'a> {
    SetPeriod(&'a str),
    EraseAll,
}

/// The optional goal argument as requested: an expected work time as raw
/// text, or erasure of the period's goal.
#[derive(Clone, Copy, PartialEq, Eq, Debug)]
pub enum GoalArgInput<'a> {
    Time(&'a str),
    Erase,
}

/// Why a goal action/argument pair was rejected: an argument where none
/// is expected, a missing argument, or a wrapped period or duration
/// failure, unmodified.
#[derive(Clone, Copy, PartialEq, Eq, Structural, Debug)]
pub enum GoalActionParseError {
    UnexpectedArg,
    MissingArg,
    InvalidGoalPeriod(InvalidGoalPeriod),
    DurationParseError(DurationParseError),
}

/// The top-level resolution error: one alternative per argument category,
/// each wrapping the underlying failure verbatim.
#[derive(Clone, PartialEq, Eq, Debug)]
pub enum CommandParseError {
    DateTimeParseError(DateTimeParseError),
    DurationParseError(DurationParseError),
    InvalidGoalPeriod(InvalidGoalPeriod),
    GoalActionParseError(GoalActionParseError),
}

/// The mathematical value of a [`CommandParseError`]: the opaque
/// date/time diagnostic collapses to its text, the rest is already plain.
pub enum CommandParseErrorView {
    DateTimeParseError(Seq<char>),
    DurationParseError(DurationParseError),
    InvalidGoalPeriod(InvalidGoalPeriod),
    GoalActionParseError(GoalActionParseError),
}

impl View for CommandParseError {
    type V = CommandParseErrorView;

    open spec fn view(&self) -> CommandParseErrorView {
        match *self {
            CommandParseError::DateTimeParseError(ref e) => CommandParseErrorView::DateTimeParseError(
                e.message@,
            ),
            CommandParseError::DurationParseError(e) => CommandParseErrorView::DurationParseError(
                e,
            ),
            CommandParseError::InvalidGoalPeriod(e) => CommandParseErrorView::InvalidGoalPeriod(e),
            CommandParseError::GoalActionParseError(e) => CommandParseErrorView::GoalActionParseError(
                e,
            ),
        }
    }
}

/// The mathematical value of a [`ForgetableDateTimeInput`].
pub struct ForgetableDateTimeInputView {
    pub datetime: Option<Seq<char>>,
    pub forgotten: bool,
}

impl<'a> View for ForgetableDateTimeInput<'a> {
    type V = ForgetableDateTimeInputView;

    open spec fn view(&self) -> ForgetableDateTimeInputView {
        ForgetableDateTimeInputView {
            datetime: self.datetime.deep_view(),
            forgotten: self.forgotten,
        }
    }
}

/// The mathematical value of a [`GoalActionInput`].
pub enum GoalActionInputView {
    SetPeriod(Seq<char>),
    EraseAll,
}

impl<'a> View for GoalActionInput<'a> {
    type V = GoalActionInputView;

    open spec fn view(&self) -> GoalActionInputView {
        match *self {
            GoalActionInput::SetPeriod(s) => GoalActionInputView::SetPeriod(s@),
            GoalActionInput::EraseAll => GoalActionInputView::EraseAll,
        }
    }
}

/// The mathematical value of a [`GoalArgInput`].
pub enum GoalArgInputView {
    Time(Seq<char>),
    Erase,
}

impl<'a> View for GoalArgInput<'a> {
    type V = GoalArgInputView;

    open spec fn view(&self) -> GoalArgInputView {
        match *self {
            GoalArgInput::Time(s) => GoalArgInputView::Time(s@),
            GoalArgInput::Erase => GoalArgInputView::Erase,
        }
    }
}

/// The mathematical value of a [`CommandInput`].
pub enum CommandInputView {
    Enter { datetime: ForgetableDateTimeInputView },
    Exit { datetime: ForgetableDateTimeInputView },
    Create { mnemonic: Seq<char>, code: Option<Seq<char>> },
    Edit { mnemonic: Seq<char>, code: Option<Seq<char>> },
    Delete { mnemonic: Seq<char> },
    Start { mnemonic: Seq<char>, datetime: ForgetableDateTimeInputView },
    Stop { mnemonic: Option<Seq<char>>, datetime: ForgetableDateTimeInputView, commit: bool },
    Commit { mnemonic: Seq<char>, datetime: Option<Seq<char>> },
    Resolve { mnemonic: Option<Seq<char>> },
    Goal {
        action: GoalActionInputView,
        arg: Option<GoalArgInputView>,
        mnemonic: Option<Seq<char>>,
    },
    Goals { mnemonic: Option<Seq<char>> },
    Status { mnemonic: Option<Seq<char>> },
}

/// The view of an optional goal argument.
pub open spec fn goal_arg_view(arg: Option<GoalArgInput>) -> Option<GoalArgInputView> {
    match arg {
        Some(a) => Some(a@),
        None => None,
    }
}

impl<'a> View for CommandInput<'a> {
    type V = CommandInputView;

    open spec fn view(&self) -> CommandInputView {
        match *self {
            CommandInput::Enter { datetime } => CommandInputView::Enter { datetime: datetime@ },
            CommandInput::Exit { datetime } => CommandInputView::Exit { datetime: datetime@ },
            CommandInput::Create { mnemonic, code } => CommandInputView::Create {
                mnemonic: mnemonic@,
                code: code.deep_view(),
            },
            CommandInput::Edit { mnemonic, code } => CommandInputView::Edit {
                mnemonic: mnemonic@,
                code: code.deep_view(),
            },
            CommandInput::Delete { mnemonic } => CommandInputView::Delete { mnemonic: mnemonic@ },
            CommandInput::Start { mnemonic, datetime } => CommandInputView::Start {
                mnemonic: mnemonic@,
                datetime: datetime@,
            },
            CommandInput::Stop { mnemonic, datetime, commit } => CommandInputView::Stop {
                mnemonic: mnemonic.deep_view(),
                datetime: datetime@,
                commit,
            },
            CommandInput::Commit { mnemonic, datetime } => CommandInputView::Commit {
                mnemonic: mnemonic@,
                datetime: datetime.deep_view(),
            },
            CommandInput::Resolve { mnemonic } => CommandInputView::Resolve {
                mnemonic: mnemonic.deep_view(),
            },
            CommandInput::Goal { action, arg, mnemonic } => CommandInputView::Goal {
                action: action@,
                arg: goal_arg_view(arg),
                mnemonic: mnemonic.deep_view(),
            },
            CommandInput::Goals { mnemonic } => CommandInputView::Goals {
                mnemonic: mnemonic.deep_view(),
            },
            CommandInput::Status { mnemonic } => CommandInputView::Status {
                mnemonic: mnemonic.deep_view(),
            },
        }
    }
}

impl vstd::std_specs::convert::FromSpecImpl<InvalidGoalPeriod> for GoalActionParseError {
    open spec fn obeys_from_spec() -> bool {
        true
    }

    open spec fn from_spec(error: InvalidGoalPeriod) -> GoalActionParseError {
        GoalActionParseError::InvalidGoalPeriod(error)
    }
}

impl From<InvalidGoalPeriod> for GoalActionParseError {
    fn from(error: InvalidGoalPeriod) -> (r: GoalActionParseError) {
        GoalActionParseError::InvalidGoalPeriod(error)
    }
}

impl vstd::std_specs::convert::FromSpecImpl<DurationParseError> for GoalActionParseError {
    open spec fn obeys_from_spec() -> bool {
        true
    }

    open spec fn from_spec(error: DurationParseError) -> GoalActionParseError {
        GoalActionParseError::DurationParseError(error)
    }
}

impl From<DurationParseError> for GoalActionParseError {
    fn from(error: DurationParseError) -> (r: GoalActionParseError) {
        GoalActionParseError::DurationParseError(error)
    }
}

impl vstd::std_specs::convert::FromSpecImpl<DateTimeParseError> for CommandParseError {
    open spec fn obeys_from_spec() -> bool {
        true
    }

    open spec fn from_spec(error: DateTimeParseError) -> CommandParseError {
        CommandParseError::DateTimeParseError(error)
    }
}

impl From<DateTimeParseError> for CommandParseError {
    fn from(error: DateTimeParseError) -> (r: CommandParseError) {
        CommandParseError::DateTimeParseError(error)
    }
}

impl vstd::std_specs::convert::FromSpecImpl<DurationParseError> for CommandParseError {
    open spec fn obeys_from_spec() -> bool {
        true
    }

    open spec fn from_spec(error: DurationParseError) -> CommandParseError {
        CommandParseError::DurationParseError(error)
    }
}

impl From<DurationParseError> for CommandParseError {
    fn from(error: DurationParseError) -> (r: CommandParseError) {
        CommandParseError::DurationParseError(error)
    }
}

impl vstd::std_specs::convert::FromSpecImpl<InvalidGoalPeriod> for CommandParseError {
    open spec fn obeys_from_spec() -> bool {
        true
    }

    open spec fn from_spec(error: InvalidGoalPeriod) -> CommandParseError {
        CommandParseError::InvalidGoalPeriod(error)
    }
}

impl From<InvalidGoalPeriod> for CommandParseError {
    fn from(error: InvalidGoalPeriod) -> (r: CommandParseError) {
        CommandParseError::InvalidGoalPeriod(error)
    }
}

impl vstd::std_specs::convert::FromSpecImpl<GoalActionParseError> for CommandParseError {
    open spec fn obeys_from_spec() -> bool {
        true
    }

    open spec fn from_spec(error: GoalActionParseError) -> CommandParseError {
        CommandParseError::GoalActionParseError(error)
    }
}

impl From<GoalActionParseError> for CommandParseError {
    fn from(error: GoalActionParseError) -> (r: CommandParseError) {
        CommandParseError::GoalActionParseError(error)
    }
}

/// Resolution of a forgetable date/time input: the optional text resolves
/// against the injected current time, the forgotten flag passes through.
pub open spec fn spec_forgettable_datetime(
    input: ForgetableDateTimeInputView,
    now: Timestamp,
) -> Result<ForgetableDateTime, Seq<char>> {
    match spec_datetime_or_now(input.datetime, now) {
        Ok(t) => Ok(ForgetableDateTime { datetime: t, forgotten: input.forgotten }),
        Err(d) => Err(d),
    }
}

/// The mathematical content of a forgetable date/time resolution result.
pub open spec fn forgettable_result_view(r: Result<ForgetableDateTime, DateTimeParseError>) -> Result<
    ForgetableDateTime,
    Seq<char>,
> {
    match r {
        Ok(f) => Ok(f),
        Err(e) => Err(e.message@),
    }
}

impl ForgetableDateTime {
    /// Resolves a forgetable date/time input against an injected current
    /// time.
    pub fn try_from(input: ForgetableDateTimeInput<'_>, now: Timestamp) -> (r: Result<
        ForgetableDateTime,
        DateTimeParseError,
    >)
        ensures
            forgettable_result_view(r) == spec_forgettable_datetime(input@, now),
    {
        match crate::time::parse_datetime_with(input.datetime, now) {
            Ok(t) => Ok(ForgetableDateTime { datetime: t, forgotten: input.forgotten }),
            Err(e) => Err(e),
        }
    }
}

/// The exhaustive resolution matrix for the goal action/argument pair:
/// erasing all periods takes no argument; setting something for a period
/// needs one, either erasure of that period's goal or a duration text.
/// The period is parsed before the duration and the first failure wins.
pub open spec fn spec_goal_action(
    action: GoalActionInputView,
    arg: Option<GoalArgInputView>,
) -> Result<GoalAction, GoalActionParseError> {
    match (action, arg) {
        (GoalActionInputView::EraseAll, None) => Ok(GoalAction::EraseAll),
        (GoalActionInputView::EraseAll, Some(_)) => Err(GoalActionParseError::UnexpectedArg),
        (GoalActionInputView::SetPeriod(_), None) => Err(GoalActionParseError::MissingArg),
        (GoalActionInputView::SetPeriod(period), Some(GoalArgInputView::Erase)) => match spec_goal_period(
            period,
        ) {
            Ok(p) => Ok(GoalAction::Erase(p)),
            Err(e) => Err(GoalActionParseError::InvalidGoalPeriod(e)),
        },
        (GoalActionInputView::SetPeriod(period), Some(GoalArgInputView::Time(time))) => match spec_goal_period(
            period,
        ) {
            Err(e) => Err(GoalActionParseError::InvalidGoalPeriod(e)),
            Ok(p) => match spec_parse_duration(time) {
                Ok(d) => Ok(GoalAction::SetGoal(p, d)),
                Err(e) => Err(GoalActionParseError::DurationParseError(e)),
            },
        },
    }
}

/// Validates the combination of a goal action and its optional argument
/// into one resolved goal action, by the matrix of [`spec_goal_action`].
pub fn parse_goal_action<'a>(action: GoalActionInput<'a>, arg: Option<GoalArgInput<'a>>) -> (r:
    Result<GoalAction, GoalActionParseError>)
    ensures
        r == spec_goal_action(action@, goal_arg_view(arg)),
{
    match (action, arg) {
        (GoalActionInput::EraseAll, None) => Ok(GoalAction::EraseAll),
        (GoalActionInput::EraseAll, Some(_)) => Err(GoalActionParseError::UnexpectedArg),
        (GoalActionInput::SetPeriod(_), None) => Err(GoalActionParseError::MissingArg),
        (GoalActionInput::SetPeriod(period), Some(GoalArgInput::Erase)) => match GoalPeriod::from_str(
            period,
        ) {
            Ok(p) => Ok(GoalAction::Erase(p)),
            Err(e) => Err(GoalActionParseError::from(e)),
        },
        (GoalActionInput::SetPeriod(period), Some(GoalArgInput::Time(time))) => match GoalPeriod::from_str(
            period,
        ) {
            Err(e) => Err(GoalActionParseError::from(e)),
            Ok(p) => match crate::parse_duration(time) {
                Ok(d) => Ok(GoalAction::SetGoal(p, d)),
                Err(e) => Err(GoalActionParseError::from(e)),
            },
        },
    }
}

/// The whole resolution pipeline, one case per command kind: pass-through
/// fields are kept as they are, every deferred field is resolved, and the
/// first failing field decides the single error. No partially resolved
/// command exists.
pub open spec fn spec_resolve(input: CommandInputView, now: Timestamp) -> Result<
    CommandView,
    CommandParseErrorView,
> {
    match input {
        CommandInputView::Enter { datetime } => match spec_forgettable_datetime(datetime, now) {
            Ok(f) => Ok(CommandView::Enter { datetime: f }),
            Err(d) => Err(CommandParseErrorView::DateTimeParseError(d)),
        },
        CommandInputView::Exit { datetime } => match spec_forgettable_datetime(datetime, now) {
            Ok(f) => Ok(CommandView::Exit { datetime: f }),
            Err(d) => Err(CommandParseErrorView::DateTimeParseError(d)),
        },
        CommandInputView::Create { mnemonic, code } => Ok(CommandView::Create { mnemonic, code }),
        CommandInputView::Edit { mnemonic, code } => Ok(CommandView::Edit { mnemonic, code }),
        CommandInputView::Delete { mnemonic } => Ok(CommandView::Delete { mnemonic }),
        CommandInputView::Start { mnemonic, datetime } => match spec_forgettable_datetime(
            datetime,
            now,
        ) {
            Ok(f) => Ok(CommandView::Start { mnemonic, datetime: f }),
            Err(d) => Err(CommandParseErrorView::DateTimeParseError(d)),
        },
        CommandInputView::Stop { mnemonic, datetime, commit } => match spec_forgettable_datetime(
            datetime,
            now,
        ) {
            Ok(f) => Ok(CommandView::Stop { mnemonic, datetime: f, commit }),
            Err(d) => Err(CommandParseErrorView::DateTimeParseError(d)),
        },
        CommandInputView::Commit { mnemonic, datetime } => match spec_datetime_or_now(
            datetime,
            now,
        ) {
            Ok(t) => Ok(CommandView::Commit { mnemonic, datetime: t }),
            Err(d) => Err(CommandParseErrorView::DateTimeParseError(d)),
        },
        CommandInputView::Resolve { mnemonic } => Ok(CommandView::Resolve { mnemonic }),
        CommandInputView::Goal { action, arg, mnemonic } => match spec_goal_action(action, arg) {
            Ok(a) => Ok(CommandView::Goal { action: a, mnemonic }),
            Err(e) => Err(CommandParseErrorView::GoalActionParseError(e)),
        },
        CommandInputView::Goals { mnemonic } => Ok(CommandView::Goals { mnemonic }),
        CommandInputView::Status { mnemonic } => Ok(CommandView::Status { mnemonic }),
    }
}

/// The mathematical content of a whole resolution result.
pub open spec fn resolve_result_view<'a>(r: Result<Command<'a>, CommandParseError>) -> Result<
    CommandView,
    CommandParseErrorView,
> {
    match r {
        Ok(c) => Ok(c@),
        Err(e) => Err(e@),
    }
}

impl<'a> Command<'a> {
    /// Resolves a raw command against an injected current time: the
    /// result is exactly what [`spec_resolve`] assigns to the input, a
    /// resolved command or the first failing field's error. Every
    /// syntactically well-formed input resolves, without panic.
    pub fn try_from(input: CommandInput<'a>, now: Timestamp) -> (r: Result<
        Command<'a>,
        CommandParseError,
    >)
        ensures
            resolve_result_view(r) == spec_resolve(input@, now),
    {
        match input {
            CommandInput::Enter { datetime } => match ForgetableDateTime::try_from(datetime, now) {
                Ok(f) => Ok(Command::Enter { datetime: f }),
                Err(e) => Err(CommandParseError::from(e)),
            },
            CommandInput::Exit { datetime } => match ForgetableDateTime::try_from(datetime, now) {
                Ok(f) => Ok(Command::Exit { datetime: f }),
                Err(e) => Err(CommandParseError::from(e)),
            },
            CommandInput::Create { mnemonic, code } => Ok(Command::Create { mnemonic, code }),
            CommandInput::Edit { mnemonic, code } => Ok(Command::Edit { mnemonic, code }),
            CommandInput::Delete { mnemonic } => Ok(Command::Delete { mnemonic }),
            CommandInput::Start { mnemonic, datetime } => match ForgetableDateTime::try_from(
                datetime,
                now,
            ) {
                Ok(f) => Ok(Command::Start { mnemonic, datetime: f }),
                Err(e) => Err(CommandParseError::from(e)),
            },
            CommandInput::Stop { mnemonic, datetime, commit } => match ForgetableDateTime::try_from(
                datetime,
                now,
            ) {
                Ok(f) => Ok(Command::Stop { mnemonic, datetime: f, commit }),
                Err(e) => Err(CommandParseError::from(e)),
            },
            CommandInput::Commit { mnemonic, datetime } => match crate::time::parse_datetime_with(
                datetime,
                now,
            ) {
                Ok(t) => Ok(Command::Commit { mnemonic, datetime: t }),
                Err(e) => Err(CommandParseError::from(e)),
            },
            CommandInput::Resolve { mnemonic } => Ok(Command::Resolve { mnemonic }),
            CommandInput::Goal { action, arg, mnemonic } => match parse_goal_action(action, arg) {
                Ok(a) => Ok(Command::Goal { action: a, mnemonic }),
                Err(e) => Err(CommandParseError::from(e)),
            },
            CommandInput::Goals { mnemonic } => Ok(Command::Goals { mnemonic }),
            CommandInput::Status { mnemonic } => Ok(Command::Status { mnemonic }),
        }
    }

    /// Resolves a raw command, reading the wall clock at the moment of
    /// the call for any absent date/time text: the result is what
    /// [`spec_resolve`] assigns to the input for some current time.
    pub fn resolve(input: CommandInput<'a>) -> (r: Result<Command<'a>, CommandParseError>)
        ensures
            exists|now: Timestamp|
                resolve_result_view(r) == #[trigger] spec_resolve(input@, now),
    {
        let now = crate::time::now_timestamp();
        let r = Self::try_from(input, now);
        proof {
            assert(resolve_result_view(r) == spec_resolve(input@, now));
        }
        r
    }
}

/// Resolution is idempotent: the same raw command resolved against the
/// same injected clock value resolves to the same command or error.
pub proof fn lemma_resolve_deterministic(
    first: CommandInputView,
    second: CommandInputView,
    now_first: Timestamp,
    now_second: Timestamp,
)
    requires
        first == second,
        now_first == now_second,
    ensures
        spec_resolve(first, now_first) == spec_resolve(second, now_second),
{
}

} // verus!
