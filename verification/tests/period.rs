use timelog::GoalPeriod;
use timelog::InvalidGoalPeriod;
use timelog::Weekday;

#[test]
fn period_all_valid_tokens() {
    assert_eq!(GoalPeriod::from_str("month"), Ok(GoalPeriod::Month));
    assert_eq!(GoalPeriod::from_str("week"), Ok(GoalPeriod::Week));
    assert_eq!(GoalPeriod::from_str("day"), Ok(GoalPeriod::Day));
    assert_eq!(GoalPeriod::from_str("sunday"), Ok(GoalPeriod::Weekday(Weekday::Sun)));
    assert_eq!(GoalPeriod::from_str("monday"), Ok(GoalPeriod::Weekday(Weekday::Mon)));
    assert_eq!(GoalPeriod::from_str("tuesday"), Ok(GoalPeriod::Weekday(Weekday::Tue)));
    assert_eq!(GoalPeriod::from_str("wednesday"), Ok(GoalPeriod::Weekday(Weekday::Wed)));
    assert_eq!(GoalPeriod::from_str("thursday"), Ok(GoalPeriod::Weekday(Weekday::Thu)));
    assert_eq!(GoalPeriod::from_str("friday"), Ok(GoalPeriod::Weekday(Weekday::Fri)));
    assert_eq!(GoalPeriod::from_str("saturday"), Ok(GoalPeriod::Weekday(Weekday::Sat)));
}

#[test]
fn period_rejects_other_tokens() {
    assert_eq!(GoalPeriod::from_str("notaperiod"), Err(InvalidGoalPeriod));
    assert_eq!(GoalPeriod::from_str(""), Err(InvalidGoalPeriod));
    assert_eq!(GoalPeriod::from_str("Month"), Err(InvalidGoalPeriod));
    assert_eq!(GoalPeriod::from_str(" week"), Err(InvalidGoalPeriod));
    assert_eq!(GoalPeriod::from_str("week "), Err(InvalidGoalPeriod));
    assert_eq!(GoalPeriod::from_str("sun"), Err(InvalidGoalPeriod));
}
