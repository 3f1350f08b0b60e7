use herdr_focus_notify::flow::{dismiss_notification, focus_latest_active_notification};
use herdr_focus_notify::notification::{notification_group_for_pane, FocusNotification};
use herdr_focus_notify::state::{
    latest_active_notification, remove_active_notification, upsert_active_notification,
};

fn notification(pane_id: &str, body: &str) -> FocusNotification {
    FocusNotification {
        pane_id: pane_id.to_string(),
        status: "blocked".to_string(),
        title: format!("{pane_id} title"),
        body: body.to_string(),
        group: notification_group_for_pane(pane_id),
        app_icon: None,
    }
}

#[test]
fn active_notifications_are_upserted_and_removed_by_pane() {
    let mut notifications = Vec::new();

    upsert_active_notification(&mut notifications, notification("p1", "first"));
    upsert_active_notification(&mut notifications, notification("p2", "second"));
    upsert_active_notification(&mut notifications, notification("p1", "updated"));
    remove_active_notification(&mut notifications, "p1");

    assert_eq!(notifications.len(), 1);
    assert_eq!(notifications[0].pane_id, "p2");
    assert_eq!(notifications[0].body, "second");
}

#[test]
fn upsert_moves_the_pane_to_the_newest_place() {
    let mut notifications = Vec::new();
    upsert_active_notification(&mut notifications, notification("p1", "first"));
    upsert_active_notification(&mut notifications, notification("p2", "second"));
    upsert_active_notification(&mut notifications, notification("p1", "updated"));
    assert_eq!(notifications.len(), 2);
    assert_eq!(notifications[0].pane_id, "p2");
    assert_eq!(notifications[1].body, "updated");

    let once = notifications.clone();
    upsert_active_notification(&mut notifications, notification("p1", "updated"));
    assert_eq!(notifications, once);

    assert_eq!(
        latest_active_notification(notifications).map(|n| n.body),
        Some("updated".to_string())
    );
    assert_eq!(latest_active_notification(Vec::new()), None);
}

#[test]
fn dismiss_keeps_other_panes_and_names_the_group() {
    let mut notifications = vec![notification("w1:p3", "a"), notification("p2", "b")];
    let group = dismiss_notification(&mut notifications, "w1:p3");
    assert_eq!(group, "herdr-w1-p3");
    assert_eq!(notifications, vec![notification("p2", "b")]);
    let group = dismiss_notification(&mut notifications, "missing");
    assert_eq!(group, "herdr-missing");
    assert_eq!(notifications.len(), 1);
}

#[test]
fn focus_latest_takes_the_newest_and_clears_its_pane() {
    let mut notifications = vec![notification("p1", "first"), notification("p2", "second")];
    let latest = focus_latest_active_notification(&mut notifications).unwrap();
    assert_eq!(latest.pane_id, "p2");
    assert_eq!(notifications, vec![notification("p1", "first")]);

    let mut empty: Vec<FocusNotification> = Vec::new();
    assert_eq!(focus_latest_active_notification(&mut empty), None);
}
