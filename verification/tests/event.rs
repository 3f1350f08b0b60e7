use herdr_focus_notify::event::{
    event_action_from_event, notification_from_event, EventData, PluginEvent, PluginEventAction,
};
use herdr_focus_notify::icons::{agent_icon_key, agent_icon_path};
use herdr_focus_notify::notification::FocusNotification;
use herdr_focus_notify::text::truncate;

fn text_field(value: &serde_json::Value, key: &str) -> Option<String> {
    value.get(key).and_then(|v| v.as_str()).map(str::to_string)
}

/// Reads a herdr plugin event from its JSON text.
fn event_from_json(json: &str) -> PluginEvent {
    let value: serde_json::Value = serde_json::from_str(json).unwrap();
    let data = value.get("data").filter(|d| !d.is_null()).map(|d| EventData {
        event_type: text_field(d, "type"),
        pane_id: text_field(d, "pane_id"),
        agent_status: text_field(d, "agent_status"),
        agent: text_field(d, "agent"),
        display_agent: text_field(d, "display_agent"),
        title: text_field(d, "title"),
        custom_status: text_field(d, "custom_status"),
        workspace_id: text_field(d, "workspace_id"),
    });
    PluginEvent {
        event: text_field(&value, "event"),
        data,
    }
}

fn event_action_from_event_json(json: &str) -> Option<PluginEventAction> {
    event_action_from_event(event_from_json(json))
}

fn notification_from_event_json(json: &str) -> Option<FocusNotification> {
    notification_from_event(event_from_json(json))
}

#[test]
fn builds_blocked_notification_from_event() {
    let json = r#"{
        "event": "pane.agent_status_changed",
        "data": {
            "pane_id": "w1:p3",
            "workspace_id": "herdr",
            "agent_status": "blocked",
            "agent": "codex",
            "display_agent": "Codex",
            "title": "Implement plugin",
            "custom_status": "Needs an answer"
        }
    }"#;

    let notification = notification_from_event_json(json).unwrap();

    assert_eq!(notification.pane_id, "w1:p3");
    assert_eq!(notification.status, "blocked");
    assert_eq!(notification.title, "Codex needs attention: Needs an answer");
    assert_eq!(
        notification.body,
        "Implement plugin\npane w1:p3 | workspace herdr | status Needs an answer"
    );
    assert_eq!(notification.group, "herdr-w1-p3");
    assert!(notification
        .app_icon
        .as_deref()
        .unwrap()
        .ends_with("/icons/codex-color.png"));
}

#[test]
fn builds_done_notification_from_herdr_hook_event_json() {
    let json = r#"{
        "event": "pane_agent_status_changed",
        "data": {
            "type": "pane_agent_status_changed",
            "pane_id": "p1",
            "agent_status": "done",
            "agent": "Codex",
            "title": "Implement plugin"
        }
    }"#;

    let notification = notification_from_event_json(json).unwrap();

    assert_eq!(notification.status, "done");
    assert_eq!(notification.title, "Codex finished");
    assert_eq!(notification.body, "Implement plugin\npane p1 | status done");
    assert!(notification.app_icon.is_some());
}

#[test]
fn builds_dismiss_action_from_pane_focused_event() {
    let json = r#"{
        "event": "pane_focused",
        "data": {
            "type": "pane_focused",
            "pane_id": "w1:p3",
            "workspace_id": "herdr"
        }
    }"#;

    let action = event_action_from_event_json(json).unwrap();

    assert_eq!(
        action,
        PluginEventAction::DismissPane {
            pane_id: "w1:p3".to_string(),
            replay_remaining: true,
        }
    );
    assert!(notification_from_event_json(json).is_none());
}

#[test]
fn dismisses_other_statuses_to_clear_stale_notifications() {
    let json = r#"{
        "data": {
            "pane_id": "p1",
            "agent_status": "running",
            "agent": "Codex"
        }
    }"#;

    assert_eq!(
        event_action_from_event_json(json),
        Some(PluginEventAction::DismissPane {
            pane_id: "p1".to_string(),
            replay_remaining: false,
        })
    );
    assert!(notification_from_event_json(json).is_none());
}

#[test]
fn ignores_missing_pane_id() {
    let json = r#"{
        "data": {
            "agent_status": "blocked",
            "agent": "Codex"
        }
    }"#;

    assert!(notification_from_event_json(json).is_none());
}

#[test]
fn ignores_unrelated_events_even_if_they_have_status_like_fields() {
    let json = r#"{
        "event": "pane_focused",
        "data": {
            "type": "pane_focused",
            "pane_id": "p1",
            "agent_status": "blocked"
        }
    }"#;

    assert!(notification_from_event_json(json).is_none());
}

#[test]
fn event_without_data_asks_for_nothing() {
    assert_eq!(event_action_from_event_json(r#"{"event":"pane_focused"}"#), None);
}

#[test]
fn other_event_names_are_ignored() {
    let json = r#"{"event":"workspace.created","data":{"pane_id":"p1","agent_status":"blocked"}}"#;
    assert_eq!(event_action_from_event_json(json), None);
}

#[test]
fn status_and_pane_are_trimmed_and_lowercased() {
    let json = r#"{"event":" pane.agent_status_changed ","data":{"pane_id":"  p9 ","agent_status":" BLOCKED ","title":"   "}}"#;
    let notification = notification_from_event_json(json).unwrap();
    assert_eq!(notification.pane_id, "p9");
    assert_eq!(notification.status, "blocked");
    assert_eq!(notification.title, "Agent needs attention");
    assert_eq!(
        notification.body,
        "Click to focus this Herdr agent pane.\npane p9 | status blocked"
    );
    assert_eq!(notification.group, "herdr-p9");
    assert_eq!(notification.app_icon, None);
}

#[test]
fn blank_pane_id_is_ignored() {
    let json = r#"{"data":{"pane_id":"   ","agent_status":"done"}}"#;
    assert_eq!(event_action_from_event_json(json), None);
}

#[test]
fn display_agent_comes_first_and_icons_follow_known_agents() {
    let json = r#"{"data":{"pane_id":"p2","agent_status":"done","agent":"GitHub Copilot","display_agent":"My Bot"}}"#;
    let notification = notification_from_event_json(json).unwrap();
    assert_eq!(notification.title, "My Bot finished");
    assert_eq!(
        notification.app_icon.as_deref(),
        Some("assets/icons/githubcopilot-color.png")
    );
}

#[test]
fn long_titles_are_cut_to_the_summary_limit() {
    let title = "x".repeat(200);
    let json = format!(
        r#"{{"data":{{"pane_id":"p1","agent_status":"done","title":"{}"}}}}"#,
        title
    );
    let notification = notification_from_event_json(&json).unwrap();
    let first_line = notification.body.lines().next().unwrap();
    assert_eq!(first_line.chars().count(), 180);
    assert!(first_line.ends_with("..."));
    assert_eq!(first_line, format!("{}...", "x".repeat(177)));
}

#[test]
fn truncate_keeps_short_text_and_cuts_long_text() {
    assert_eq!(truncate("  hello  ", 10), "hello");
    assert_eq!(truncate("hello world", 8), "hello...");
    assert_eq!(truncate("hello", 2), "...");
    assert_eq!(truncate("héllo wörld", 7), "héll...");
}

#[test]
fn icons_only_for_bundled_agents() {
    assert_eq!(agent_icon_key("GitHub Copilot"), "githubcopilot");
    assert_eq!(agent_icon_key("Gemini-CLI"), "geminicli");
    assert_eq!(
        agent_icon_path(&[None, Some("Codex")]),
        Some("assets/icons/codex-color.png".to_string())
    );
    assert_eq!(
        agent_icon_path(&[Some("Unknown"), Some("v0")]),
        Some("assets/icons/v0-color.png".to_string())
    );
    assert_eq!(
        agent_icon_path(&[Some("ClaudeCode")]),
        Some("assets/icons/claudecode-color.png".to_string())
    );
    assert_eq!(agent_icon_path(&[Some("Agent")]), None);
    assert_eq!(agent_icon_path(&[]), None);
}
