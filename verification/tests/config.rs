use herdr_focus_notify::config::{
    app_name_from_setting, away_mode_setting, away_when_setting, env_file_value, parse_env_line,
    setting_enabled, setting_on, split_recipients, terminal_is_frontmost, timeout_setting,
};

fn pair(k: &str, v: &str) -> Option<(String, String)> {
    Some((k.to_string(), v.to_string()))
}

#[test]
fn env_lines_of_every_documented_form() {
    assert_eq!(parse_env_line("KEY=value"), pair("KEY", "value"));
    assert_eq!(parse_env_line("export KEY=value"), pair("KEY", "value"));
    assert_eq!(parse_env_line("  export   KEY = value  "), pair("KEY", "value"));
    assert_eq!(parse_env_line("KEY='a # b'"), pair("KEY", "a # b"));
    assert_eq!(parse_env_line("KEY=\"x y\" # note"), pair("KEY", "x y"));
    assert_eq!(parse_env_line("KEY=value # note"), pair("KEY", "value"));
    assert_eq!(parse_env_line("KEY=a#b"), pair("KEY", "a#b"));
    assert_eq!(parse_env_line("KEY="), pair("KEY", ""));
    assert_eq!(parse_env_line("KEY=#"), pair("KEY", ""));
    assert_eq!(parse_env_line("KEY='open"), pair("KEY", "'open"));
    assert_eq!(parse_env_line("exported=1"), pair("exported", "1"));
    assert_eq!(parse_env_line("# KEY=value"), None);
    assert_eq!(parse_env_line("   "), None);
    assert_eq!(parse_env_line("no equals"), None);
    assert_eq!(parse_env_line("=value"), None);
}

#[test]
fn later_assignments_override_earlier_ones() {
    let lines = [
        "HERDR_FOCUS_NOTIFY_TIMEOUT=10",
        "# HERDR_FOCUS_NOTIFY_TIMEOUT=20",
        "OTHER=1",
        "export HERDR_FOCUS_NOTIFY_TIMEOUT=30",
    ];
    assert_eq!(
        env_file_value(&lines, "HERDR_FOCUS_NOTIFY_TIMEOUT"),
        Some("30".to_string())
    );
    assert_eq!(env_file_value(&lines, "OTHER"), Some("1".to_string()));
    assert_eq!(env_file_value(&lines, "MISSING"), None);
}

#[test]
fn enabled_unless_switched_off() {
    assert!(setting_enabled(None));
    assert!(setting_enabled(Some("1")));
    assert!(setting_enabled(Some("")));
    assert!(!setting_enabled(Some("0")));
    assert!(!setting_enabled(Some(" Off ")));
    assert!(!setting_enabled(Some("FALSE")));
    assert!(!setting_enabled(Some("no")));
}

#[test]
fn word_settings_have_defaults() {
    assert_eq!(away_mode_setting(None), "off");
    assert_eq!(away_mode_setting(Some("  ")), "off");
    assert_eq!(away_mode_setting(Some(" Replace ")), "replace");
    assert_eq!(away_when_setting(None), "locked");
    assert_eq!(away_when_setting(Some("LOCKED")), "locked");
}

#[test]
fn recipients_are_split_and_trimmed() {
    assert_eq!(
        split_recipients(" alice, bob ,,carol "),
        vec!["alice".to_string(), "bob".to_string(), "carol".to_string()]
    );
    assert!(split_recipients("").is_empty());
    assert!(split_recipients(" , ").is_empty());
    assert_eq!(split_recipients("solo"), vec!["solo".to_string()]);
}

#[test]
fn timeout_defaults_to_an_hour() {
    assert_eq!(timeout_setting(None), 3600);
    assert_eq!(timeout_setting(Some("0")), 0);
    assert_eq!(timeout_setting(Some(" 120 ")), 120);
    assert_eq!(timeout_setting(Some("12s")), 3600);
    assert_eq!(timeout_setting(Some("")), 3600);
    assert_eq!(timeout_setting(Some("-5")), 3600);
    assert_eq!(timeout_setting(Some("18446744073709551615")), u64::MAX);
    assert_eq!(timeout_setting(Some("18446744073709551616")), 3600);
}

#[test]
fn app_names_from_names_and_paths() {
    assert_eq!(app_name_from_setting("kitty"), "kitty");
    assert_eq!(app_name_from_setting("/Applications/kitty.app"), "kitty");
    assert_eq!(app_name_from_setting(" /Applications/iTerm.app "), "iTerm");
    assert_eq!(app_name_from_setting("Ghostty.app"), "Ghostty");
}

#[test]
fn frontmost_terminal_is_matched_by_app_name() {
    assert_eq!(terminal_is_frontmost("kitty\n", "kitty"), Some(true));
    assert_eq!(terminal_is_frontmost("kitty\n", "/Applications/kitty.app"), Some(true));
    assert_eq!(terminal_is_frontmost("Safari\n", "kitty"), Some(false));
    assert_eq!(terminal_is_frontmost("kitty", "   "), None);
    assert_eq!(terminal_is_frontmost("kitty", "/Applications/"), None);
}

#[test]
fn debug_is_opt_in() {
    assert!(!setting_on(None));
    assert!(!setting_on(Some("0")));
    assert!(!setting_on(Some("")));
    assert!(setting_on(Some("1")));
    assert!(setting_on(Some(" YES ")));
}
