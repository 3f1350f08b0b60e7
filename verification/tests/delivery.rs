use herdr_focus_notify::delivery::{
    activate_open_args, focus_script_text, recipients_text, shell_quote, test_notification, u64_text,
};
use herdr_focus_notify::notification::FocusNotification;

#[test]
fn open_arguments_for_names_and_paths() {
    assert_eq!(activate_open_args("kitty"), vec!["-a".to_string(), "kitty".to_string()]);
    assert_eq!(
        activate_open_args("/Applications/kitty.app"),
        vec!["/Applications/kitty.app".to_string()]
    );
}

#[test]
fn recipients_are_joined_with_commas() {
    assert_eq!(recipients_text(&[]), "");
    assert_eq!(recipients_text(&["a".to_string()]), "a");
    assert_eq!(
        recipients_text(&["a".to_string(), "b".to_string(), "c".to_string()]),
        "a,b,c"
    );
}

#[test]
fn shell_words_are_single_quoted() {
    assert_eq!(shell_quote("plain"), "'plain'");
    assert_eq!(shell_quote("it's"), "'it'\\''s'");
    assert_eq!(shell_quote(""), "''");
}

#[test]
fn numbers_in_decimal() {
    assert_eq!(u64_text(0), "0");
    assert_eq!(u64_text(3600), "3600");
    assert_eq!(u64_text(u64::MAX), "18446744073709551615");
}

#[test]
fn focus_script_shows_then_focuses_on_click() {
    let notification = FocusNotification {
        pane_id: "w1:p3".to_string(),
        status: "blocked".to_string(),
        title: "Codex needs attention".to_string(),
        body: "Task\npane w1:p3 | status blocked".to_string(),
        group: "herdr-w1-p3".to_string(),
        app_icon: Some("/icons/codex-color.png".to_string()),
    };
    let script = focus_script_text(
        &notification,
        "/bin/herdr",
        "/bin/plugin",
        "/bin/alerter",
        3600,
        Some("kitty"),
    );
    assert_eq!(
        script,
        "#!/bin/sh\nresult=$('/bin/alerter' --title 'Codex needs attention' --message 'Task\npane w1:p3 | status blocked' --group 'herdr-w1-p3' --timeout 3600 --app-icon '/icons/codex-color.png')\ncase \"$result\" in\n  ''|@TIMEOUT|@CLOSED) exit 0 ;;\nesac\nopen -a 'kitty'\n'/bin/herdr' agent focus 'w1:p3'\nexec '/bin/plugin' --on-click 'w1:p3'\n"
    );
    let plain = focus_script_text(&notification, "h", "p", "n", 0, None);
    assert!(plain.contains("--timeout 0 "));
    assert!(!plain.contains("open "));
}

#[test]
fn test_notification_targets_the_pane() {
    let n = test_notification("w1:p3");
    assert_eq!(n.pane_id, "w1:p3");
    assert_eq!(n.status, "blocked");
    assert_eq!(n.group, "herdr-w1-p3");
    assert_eq!(n.body, "Click to focus this Herdr agent pane.\npane w1:p3 | status blocked");
    assert_eq!(n.app_icon, None);
}
