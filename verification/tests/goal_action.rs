use timelog::input::parse_goal_action;
use timelog::input::GoalActionInput;
use timelog::input::GoalActionParseError;
use timelog::input::GoalArgInput;
use timelog::Duration;
use timelog::DurationParseError;
use timelog::GoalAction;
use timelog::GoalPeriod;
use timelog::InvalidGoalPeriod;

#[test]
fn action_erase_all_without_arg() {
    assert_eq!(parse_goal_action(GoalActionInput::EraseAll, None), Ok(GoalAction::EraseAll));
}

#[test]
fn action_erase_all_with_arg() {
    assert_eq!(
        parse_goal_action(GoalActionInput::EraseAll, Some(GoalArgInput::Erase)),
        Err(GoalActionParseError::UnexpectedArg)
    );
    assert_eq!(
        parse_goal_action(GoalActionInput::EraseAll, Some(GoalArgInput::Time("1h"))),
        Err(GoalActionParseError::UnexpectedArg)
    );
}

#[test]
fn action_set_without_arg() {
    assert_eq!(
        parse_goal_action(GoalActionInput::SetPeriod("week"), None),
        Err(GoalActionParseError::MissingArg)
    );
}

#[test]
fn action_set_with_erase() {
    assert_eq!(
        parse_goal_action(GoalActionInput::SetPeriod("week"), Some(GoalArgInput::Erase)),
        Ok(GoalAction::Erase(GoalPeriod::Week))
    );
}

#[test]
fn action_set_with_time() {
    assert_eq!(
        parse_goal_action(GoalActionInput::SetPeriod("week"), Some(GoalArgInput::Time("8h 48m"))),
        Ok(GoalAction::SetGoal(GoalPeriod::Week, Duration { hours: 8, minutes: 48 }))
    );
}

#[test]
fn action_bad_period_checked_before_duration() {
    assert_eq!(
        parse_goal_action(GoalActionInput::SetPeriod("notaperiod"), Some(GoalArgInput::Time("1h"))),
        Err(GoalActionParseError::InvalidGoalPeriod(InvalidGoalPeriod))
    );
    assert_eq!(
        parse_goal_action(
            GoalActionInput::SetPeriod("notaperiod"),
            Some(GoalArgInput::Time("not a duration"))
        ),
        Err(GoalActionParseError::InvalidGoalPeriod(InvalidGoalPeriod))
    );
}

#[test]
fn action_bad_period_with_erase() {
    assert_eq!(
        parse_goal_action(GoalActionInput::SetPeriod("fortnight"), Some(GoalArgInput::Erase)),
        Err(GoalActionParseError::InvalidGoalPeriod(InvalidGoalPeriod))
    );
}

#[test]
fn action_bad_duration() {
    assert_eq!(
        parse_goal_action(GoalActionInput::SetPeriod("day"), Some(GoalArgInput::Time("xh"))),
        Err(GoalActionParseError::DurationParseError(DurationParseError::InvalidHourNumber))
    );
}
