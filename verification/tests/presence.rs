use herdr_focus_notify::presence::{
    away_when_checks_lock, is_session_locked_from_ioreg_output, session_lock_override, should_use_away_delivery,
};

#[test]
fn detects_locked_session_from_ioreg_output() {
    let output = b"+-o Root  <class IORegistryEntry>\n  | {\n  |   \"IOConsoleLocked\" = Yes\n  |   \"IOConsoleUsers\" = ({\"CGSSessionScreenIsLocked\"=Yes})\n  | }\n";

    assert_eq!(is_session_locked_from_ioreg_output(output), Some(true));
}

#[test]
fn detects_unlocked_session_from_ioreg_output() {
    let output = b"+-o Root  <class IORegistryEntry>\n  | {\n  |   \"IOConsoleLocked\" = No\n  |   \"IOConsoleUsers\" = ({\"CGSSessionScreenIsLocked\"=No})\n  | }\n";

    assert_eq!(is_session_locked_from_ioreg_output(output), Some(false));
}

#[test]
fn returns_none_when_lock_state_is_missing() {
    assert_eq!(
        is_session_locked_from_ioreg_output(b"no lock markers"),
        None
    );
}

#[test]
fn invalid_utf8_output_has_unknown_lock_state() {
    let mut output = b"\"IOConsoleLocked\" = Yes ".to_vec();
    output.push(0xff);
    assert_eq!(is_session_locked_from_ioreg_output(&output), None);
}

#[test]
fn locked_marker_wins_over_unlocked_marker() {
    let output = "\u{00e9} \"IOConsoleLocked\" = No \"CGSSessionScreenIsLocked\" = Yes".as_bytes();
    assert_eq!(is_session_locked_from_ioreg_output(output), Some(true));
    assert_eq!(
        is_session_locked_from_ioreg_output(b"\"CGSSessionScreenIsLocked\" = No"),
        Some(false)
    );
}

#[test]
fn lock_override_values() {
    for value in ["1", "true", "yes", "on"] {
        assert_eq!(session_lock_override(value), Some(true));
    }
    for value in ["0", "false", "no", "off"] {
        assert_eq!(session_lock_override(value), Some(false));
    }
    assert_eq!(session_lock_override("TRUE"), None);
    assert_eq!(session_lock_override(" 1"), None);
}

#[test]
fn away_only_when_known_locked() {
    assert!(should_use_away_delivery("locked", Some(true)));
    assert!(!should_use_away_delivery("locked", Some(false)));
    assert!(!should_use_away_delivery("locked", None));
    assert!(!should_use_away_delivery("idle", Some(true)));
}

#[test]
fn lock_state_is_read_only_for_the_locked_condition() {
    assert!(away_when_checks_lock("locked"));
    assert!(!away_when_checks_lock("idle"));
    assert!(!away_when_checks_lock("Locked"));
}
