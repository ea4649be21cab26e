use fewwis::errors::{handle_failure, Failure, FailureResponse};
use fewwis::card::error_card;
use fewwis::colors::Colors;
use fewwis::commands::{commands, UtilityCommand};
use fewwis::schema::{ButtonStats, Flags};

#[test]
fn palette() {
    assert_eq!(Colors::White.rgb(), (255, 255, 255));
    assert_eq!(Colors::Gray.rgb(), (175, 175, 175));
    assert_eq!(Colors::Green.rgb(), (178, 247, 117));
    assert_eq!(Colors::Orange.rgb(), (247, 194, 131));
    assert_eq!(Colors::Red.rgb(), (247, 131, 131));
    assert_eq!(Colors::Fewwis.rgb(), (231, 127, 34));
    assert_eq!(Colors::Custom(1, 2, 3).rgb(), (1, 2, 3));
    assert_eq!(Colors::Fewwis.value(), 0xE77F22);
    assert_eq!(Colors::Custom(255, 0, 0).value(), 0xFF0000);
    assert_eq!(Colors::Custom(0, 0, 255).value(), 0x0000FF);
}

#[test]
fn error_cards() {
    let c = error_card(Some("bad input".to_string()));
    assert_eq!(c.title.as_deref(), Some("❌ Oops... an error ocurred."));
    assert_eq!(c.description.as_deref(), Some("bad input"));
    assert_eq!(c.color.value(), 0xE74C3C);
    let c = error_card(None);
    assert_eq!(c.description.as_deref(), Some("Unexpected"));
}

#[test]
fn utility_commands() {
    assert_eq!(
        commands(),
        vec![
            UtilityCommand::Ping,
            UtilityCommand::TranslateContextMenu,
            UtilityCommand::Translate,
            UtilityCommand::Compile,
        ]
    );
}

#[test]
fn flag_table_names() {
    assert_eq!(Flags::Table.name(), "flags");
    assert_eq!(Flags::Id.name(), "id");
    assert_eq!(Flags::FirstAttempt.name(), "first_attempt");
    assert_eq!(Flags::SecondAttempt.name(), "second_attempt");
    assert_eq!(Flags::ThirdAttempt.name(), "third_attempt");
    assert_eq!(Flags::Wrong.name(), "wrong");
    assert!(Flags::Id.is_primary_key());
    assert!(!Flags::Wrong.is_primary_key());
}

#[test]
fn new_button_stats() {
    assert_eq!(ButtonStats::new(), ButtonStats { asserted: 0, wrong: 0 });
}

#[test]
fn failure_answers() {
    match handle_failure(Failure::Command("nope".to_string())) {
        FailureResponse::Reply(c) => assert_eq!(c.description.as_deref(), Some("nope")),
        _ => panic!("expected a reply"),
    }
    match handle_failure(Failure::CheckFailed(None)) {
        FailureResponse::Reply(c) => {
            assert_eq!(c.description.as_deref(), Some("Unexpected"));
            assert_eq!(c.title.as_deref(), Some("❌ Oops... an error ocurred."));
        }
        _ => panic!("expected a reply"),
    }
    assert!(matches!(handle_failure(Failure::Setup), FailureResponse::LogSetupFailure));
    assert!(matches!(handle_failure(Failure::Other), FailureResponse::DefaultHandler));
}
