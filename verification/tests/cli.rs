use herdr_focus_notify::cli::{parse_cli_args, usage_text, version_text, CliAction};
use herdr_focus_notify::flow::{command_plan, CommandPlan};

#[test]
fn parses_cli_actions() {
    assert_eq!(parse_cli_args(&Vec::<&str>::new()).unwrap(), CliAction::Event);
    assert_eq!(parse_cli_args(&["--test"]).unwrap(), CliAction::Test);
    assert_eq!(
        parse_cli_args(&["--focus-latest"]).unwrap(),
        CliAction::FocusLatest
    );
    assert_eq!(
        parse_cli_args(&["--on-click", "w1:p3"]).unwrap(),
        CliAction::OnClick("w1:p3".to_string())
    );
    assert!(parse_cli_args(&["--on-click"]).is_err());
    assert_eq!(parse_cli_args(&["--help"]).unwrap(), CliAction::Help);
    assert_eq!(parse_cli_args(&["-h"]).unwrap(), CliAction::Help);
    assert_eq!(parse_cli_args(&["--version"]).unwrap(), CliAction::Version);
    assert_eq!(parse_cli_args(&["-V"]).unwrap(), CliAction::Version);
}

#[test]
fn rejects_unknown_or_combined_cli_args() {
    assert!(parse_cli_args(&["--wat"]).is_err());
    assert!(parse_cli_args(&["--test", "--help"]).is_err());
}

#[test]
fn cli_error_messages_name_the_argument() {
    assert_eq!(
        parse_cli_args(&["--wat"]).unwrap_err(),
        "unknown argument: --wat; run with --help for usage"
    );
    assert_eq!(
        parse_cli_args(&["--test", "--help"]).unwrap_err(),
        "cannot combine --help with another command"
    );
    assert_eq!(
        parse_cli_args(&["--on-click"]).unwrap_err(),
        "--on-click requires a pane id"
    );
    assert_eq!(
        parse_cli_args(&["--on-click", ""]).unwrap_err(),
        "--on-click requires a pane id"
    );
    assert_eq!(
        parse_cli_args(&["--help", "--on-click", "p1"]).unwrap_err(),
        "cannot combine --on-click with another command"
    );
    assert_eq!(
        parse_cli_args(&["--test", "--on-click"]).unwrap_err(),
        "--on-click requires a pane id"
    );
    assert_eq!(
        parse_cli_args(&["--focus-latest", "--bogus"]).unwrap_err(),
        "unknown argument: --bogus; run with --help for usage"
    );
}

#[test]
fn usage_lists_commands_and_version() {
    let usage = usage_text("1.2.3");
    assert!(usage.starts_with("herdr-focus-notify 1.2.3\n\nUsage:"));
    assert!(usage.contains("--focus-latest"));
    assert!(usage.contains("--on-click <pane-id>"));
    assert_eq!(version_text("1.2.3"), "herdr-focus-notify 1.2.3");
}

#[test]
fn help_and_version_answer_even_when_disabled() {
    assert_eq!(command_plan(CliAction::Help, false), CommandPlan::PrintUsage);
    assert_eq!(command_plan(CliAction::Version, false), CommandPlan::PrintVersion);
    assert_eq!(command_plan(CliAction::Event, false), CommandPlan::Quit);
    assert_eq!(command_plan(CliAction::Test, false), CommandPlan::Quit);
    assert_eq!(command_plan(CliAction::Event, true), CommandPlan::HandleEvent);
    assert_eq!(
        command_plan(CliAction::Test, true),
        CommandPlan::SendTestNotification
    );
    assert_eq!(command_plan(CliAction::FocusLatest, true), CommandPlan::FocusLatest);
    assert_eq!(
        command_plan(CliAction::OnClick("p1".to_string()), true),
        CommandPlan::DismissPane {
            pane_id: "p1".to_string(),
            replay_remaining: true
        }
    );
}
