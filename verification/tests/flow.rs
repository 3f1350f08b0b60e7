use herdr_focus_notify::flow::{
    away_mode_enabled, delivery_steps, desktop_after_away, focused_pane, DeliverySteps, notifications_to_replay,
    should_skip_notification, status_is_enabled, try_deliver_away_notification, AgentEntry,
    AwayCommand,
};
use herdr_focus_notify::notification::{notification_group_for_pane, FocusNotification};

#[test]
fn skip_only_when_pane_focused_and_terminal_frontmost() {
    assert!(should_skip_notification("p1", Some("p1"), Some(true)));
    assert!(!should_skip_notification("p1", Some("p2"), Some(true)));
    assert!(!should_skip_notification("p1", Some("p1"), Some(false)));
    assert!(!should_skip_notification("p1", Some("p1"), None));
    assert!(!should_skip_notification("p1", None, Some(true)));
}

#[test]
fn away_delivery_decisions() {
    let recipients = vec!["alice".to_string()];
    assert_eq!(
        try_deliver_away_notification("off", true, Some("cmd".to_string()), recipients.clone()),
        Ok(None)
    );
    assert_eq!(
        try_deliver_away_notification("replace", false, None, Vec::new()),
        Ok(None)
    );
    assert_eq!(
        try_deliver_away_notification("replace", true, None, recipients.clone()),
        Err("HERDR_FOCUS_NOTIFY_AWAY_COMMAND is required when away mode is enabled".to_string())
    );
    assert_eq!(
        try_deliver_away_notification("also", true, Some("cmd".to_string()), Vec::new()),
        Err("HERDR_FOCUS_NOTIFY_AWAY_RECIPIENTS is required when away mode is enabled".to_string())
    );
    assert_eq!(
        try_deliver_away_notification("also", true, Some("cmd".to_string()), recipients.clone()),
        Ok(Some(AwayCommand {
            command: "cmd".to_string(),
            recipients
        }))
    );
    assert!(!away_mode_enabled("off"));
    assert!(away_mode_enabled("replace"));
}

#[test]
fn replace_mode_alone_skips_the_desktop_notification() {
    assert!(!desktop_after_away(true, "replace"));
    assert!(desktop_after_away(true, "also"));
    assert!(desktop_after_away(false, "replace"));
}

#[test]
fn only_blocked_and_done_are_delivered() {
    assert!(status_is_enabled("blocked"));
    assert!(status_is_enabled("done"));
    assert!(!status_is_enabled("running"));
    assert!(!status_is_enabled("Blocked"));
}

#[test]
fn group_ids_replace_unsafe_characters() {
    assert_eq!(notification_group_for_pane("w1:p3"), "herdr-w1-p3");
    assert_eq!(notification_group_for_pane("a b/c_d-e"), "herdr-a-b-c_d-e");
    assert_eq!(notification_group_for_pane(""), "herdr-");
}

fn entry(pane_id: &str, status: &str) -> FocusNotification {
    FocusNotification {
        pane_id: pane_id.to_string(),
        status: status.to_string(),
        title: format!("{pane_id} title"),
        body: "body".to_string(),
        group: notification_group_for_pane(pane_id),
        app_icon: None,
    }
}

#[test]
fn only_blocked_and_done_entries_are_replayed_in_order() {
    let list = vec![
        entry("p1", "done"),
        entry("p2", "running"),
        entry("p3", "blocked"),
        entry("p4", "Done"),
    ];
    assert_eq!(
        notifications_to_replay(list),
        vec![entry("p1", "done"), entry("p3", "blocked")]
    );
    assert!(notifications_to_replay(Vec::new()).is_empty());
}

#[test]
fn focused_pane_is_the_first_focused_agent_with_a_pane() {
    let agents = vec![
        AgentEntry { pane_id: Some("p1".to_string()), focused: false },
        AgentEntry { pane_id: None, focused: true },
        AgentEntry { pane_id: Some("p3".to_string()), focused: true },
        AgentEntry { pane_id: Some("p4".to_string()), focused: true },
    ];
    assert_eq!(focused_pane(&agents), Some("p3".to_string()));
    assert_eq!(focused_pane(&agents[..2]), None);
    assert_eq!(focused_pane(&[]), None);
}

#[test]
fn delivery_steps_record_events_only() {
    let s = delivery_steps(true, true, "replace");
    assert_eq!(
        s,
        DeliverySteps { save_after_away: true, send_desktop: false, save_after_desktop: false }
    );
    let s = delivery_steps(true, true, "also");
    assert_eq!(
        s,
        DeliverySteps { save_after_away: true, send_desktop: true, save_after_desktop: true }
    );
    let s = delivery_steps(true, false, "replace");
    assert_eq!(
        s,
        DeliverySteps { save_after_away: false, send_desktop: true, save_after_desktop: true }
    );
    let s = delivery_steps(false, false, "off");
    assert_eq!(
        s,
        DeliverySteps { save_after_away: false, send_desktop: true, save_after_desktop: false }
    );
}
