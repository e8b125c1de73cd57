use end_rs::registry::{HistoryNotification, Notification, Registry};

fn notif(summary: &str) -> Notification {
    Notification {
        app_name: "app".to_string(),
        icon: "icon.png".to_string(),
        app_icon: "".to_string(),
        summary: summary.to_string(),
        body: "body".to_string(),
        urgency: "normal".to_string(),
        actions: Vec::new(),
        timeout_cancelled: false,
        timer_generation: 0,
    }
}

fn hist(summary: &str) -> HistoryNotification {
    HistoryNotification {
        app_name: "app".to_string(),
        icon: "icon.png".to_string(),
        app_icon: "".to_string(),
        summary: summary.to_string(),
        body: "body".to_string(),
        urgency: "normal".to_string(),
    }
}

#[test]
fn insert_then_find() {
    let mut r = Registry::new();
    r.insert_or_replace(5, notif("a"));
    assert_eq!(r.find_index(5), Some(0));
    assert_eq!(r.find_index(6), None);
    assert_eq!(r.active.len(), 1);
    assert_eq!(r.active[0].id, 5);
}

#[test]
fn insert_replaces_in_place() {
    let mut r = Registry::new();
    r.insert_or_replace(1, notif("a"));
    r.insert_or_replace(2, notif("b"));
    r.insert_or_replace(1, notif("c"));
    assert_eq!(r.active.len(), 2);
    assert_eq!(r.active[0].id, 1);
    assert_eq!(r.active[0].notification.summary, "c");
    assert_eq!(r.active[1].id, 2);
}

#[test]
fn remove_returns_entry() {
    let mut r = Registry::new();
    r.insert_or_replace(1, notif("a"));
    r.insert_or_replace(2, notif("b"));
    let removed = r.remove(1);
    assert!(removed.is_some());
    assert_eq!(removed.unwrap().summary, "a");
    assert_eq!(r.active.len(), 1);
    assert_eq!(r.active[0].id, 2);
    assert!(r.remove(1).is_none());
}

#[test]
fn disable_timeout_sets_flag_only() {
    let mut r = Registry::new();
    r.insert_or_replace(1, notif("a"));
    assert!(!r.active[0].notification.timeout_cancelled);
    assert!(r.disable_timeout(1));
    assert!(r.active[0].notification.timeout_cancelled);
    assert_eq!(r.active[0].notification.summary, "a");
    assert!(!r.disable_timeout(9));
}

#[test]
fn clear_actions_empties_list() {
    let mut r = Registry::new();
    let mut n = notif("a");
    n.actions.push(("default".to_string(), "Open".to_string()));
    r.insert_or_replace(1, n);
    assert_eq!(r.active[0].notification.actions.len(), 1);
    assert!(r.clear_actions(1));
    assert!(r.active[0].notification.actions.is_empty());
}

#[test]
fn history_bound_evicts_oldest() {
    let mut r = Registry::new();
    r.history_append(hist("A"), 2);
    r.history_append(hist("B"), 2);
    r.history_append(hist("C"), 2);
    assert_eq!(r.history.len(), 2);
    assert_eq!(r.history[0].summary, "B");
    assert_eq!(r.history[1].summary, "C");
}
