use timelog::input::CommandInput;
use timelog::input::CommandParseError;
use timelog::input::ForgetableDateTimeInput;
use timelog::input::GoalActionInput;
use timelog::input::GoalArgInput;
use timelog::Command;
use timelog::Duration;
use timelog::ForgetableDateTime;
use timelog::GoalAction;
use timelog::GoalPeriod;
use timelog::Timestamp;

const NOW: Timestamp = Timestamp { seconds: 1_700_000_000, nanos: 123_456_789 };

fn absent_datetime() -> ForgetableDateTimeInput<'static> {
    ForgetableDateTimeInput { datetime: None, forgotten: false }
}

#[test]
fn end_to_end_stop_with_all_defaults() {
    let input = CommandInput::Stop {
        mnemonic: None,
        datetime: ForgetableDateTimeInput { datetime: None, forgotten: false },
        commit: true,
    };
    let command = Command::try_from(input, NOW).unwrap();
    assert_eq!(
        command,
        Command::Stop {
            mnemonic: None,
            datetime: ForgetableDateTime { datetime: NOW, forgotten: false },
            commit: true,
        }
    );
}

#[test]
fn end_to_end_stop_with_real_clock() {
    let input = CommandInput::Stop {
        mnemonic: None,
        datetime: ForgetableDateTimeInput { datetime: None, forgotten: false },
        commit: true,
    };
    match Command::resolve(input).unwrap() {
        Command::Stop { mnemonic, datetime, commit } => {
            assert_eq!(mnemonic, None);
            assert!(!datetime.forgotten);
            assert!(commit);
        },
        other => panic!("resolved to the wrong command kind: {:?}", other),
    }
}

#[test]
fn resolution_is_idempotent_with_same_clock() {
    let inputs = [
        CommandInput::Enter {
            datetime: ForgetableDateTimeInput {
                datetime: Some("2001-09-09T01:46:40Z"),
                forgotten: true,
            },
        },
        CommandInput::Goal {
            action: GoalActionInput::SetPeriod("week"),
            arg: Some(GoalArgInput::Time("8h 48m")),
            mnemonic: Some("mytask"),
        },
        CommandInput::Commit { mnemonic: "mytask", datetime: None },
        CommandInput::Goal {
            action: GoalActionInput::SetPeriod("notaperiod"),
            arg: Some(GoalArgInput::Time("1h")),
            mnemonic: None,
        },
    ];
    for input in inputs {
        assert_eq!(Command::try_from(input, NOW), Command::try_from(input, NOW));
    }
}

#[test]
fn every_command_kind_resolves() {
    let all: [CommandInput<'_>; 12] = [
        CommandInput::Enter { datetime: absent_datetime() },
        CommandInput::Exit { datetime: absent_datetime() },
        CommandInput::Create { mnemonic: "mytask", code: None },
        CommandInput::Edit { mnemonic: "mytask", code: Some("T-1") },
        CommandInput::Delete { mnemonic: "mytask" },
        CommandInput::Start { mnemonic: "mytask", datetime: absent_datetime() },
        CommandInput::Stop { mnemonic: None, datetime: absent_datetime(), commit: false },
        CommandInput::Commit { mnemonic: "mytask", datetime: None },
        CommandInput::Resolve { mnemonic: None },
        CommandInput::Goal { action: GoalActionInput::EraseAll, arg: None, mnemonic: None },
        CommandInput::Goals { mnemonic: None },
        CommandInput::Status { mnemonic: None },
    ];
    for input in all {
        assert!(Command::try_from(input, NOW).is_ok());
    }
}

#[test]
fn pass_through_fields_are_kept() {
    let command = Command::try_from(
        CommandInput::Create { mnemonic: "mytask", code: Some("T-1") },
        NOW,
    )
    .unwrap();
    assert_eq!(command, Command::Create { mnemonic: "mytask", code: Some("T-1") });

    let command = Command::try_from(
        CommandInput::Start {
            mnemonic: "mytask",
            datetime: ForgetableDateTimeInput { datetime: None, forgotten: true },
        },
        NOW,
    )
    .unwrap();
    assert_eq!(
        command,
        Command::Start {
            mnemonic: "mytask",
            datetime: ForgetableDateTime { datetime: NOW, forgotten: true },
        }
    );
}

#[test]
fn commit_resolves_its_datetime_text() {
    let command = Command::try_from(
        CommandInput::Commit { mnemonic: "mytask", datetime: Some("2001-09-09T01:46:40Z") },
        NOW,
    )
    .unwrap();
    assert_eq!(
        command,
        Command::Commit {
            mnemonic: "mytask",
            datetime: Timestamp { seconds: 1_000_000_000, nanos: 0 },
        }
    );
}

#[test]
fn goal_command_resolves_its_action() {
    let command = Command::try_from(
        CommandInput::Goal {
            action: GoalActionInput::SetPeriod("day"),
            arg: Some(GoalArgInput::Time("7h 30m")),
            mnemonic: Some("mytask"),
        },
        NOW,
    )
    .unwrap();
    assert_eq!(
        command,
        Command::Goal {
            action: GoalAction::SetGoal(GoalPeriod::Day, Duration { hours: 7, minutes: 30 }),
            mnemonic: Some("mytask"),
        }
    );
}

#[test]
fn first_failing_field_decides_the_error() {
    let r = Command::try_from(
        CommandInput::Enter {
            datetime: ForgetableDateTimeInput { datetime: Some("garbage"), forgotten: false },
        },
        NOW,
    );
    assert!(matches!(r, Err(CommandParseError::DateTimeParseError(_))));

    let r = Command::try_from(
        CommandInput::Goal {
            action: GoalActionInput::SetPeriod("week"),
            arg: None,
            mnemonic: None,
        },
        NOW,
    );
    assert!(matches!(r, Err(CommandParseError::GoalActionParseError(_))));
}
