use mini_ops::history::{DeploymentRecord, HistoryManager, HISTORY_LIMIT};

fn record(n: usize) -> DeploymentRecord {
    DeploymentRecord::update_triggered(format!("id-{}", n), n as i64, 0)
}

#[test]
fn manager_keeps_its_path() {
    let manager = HistoryManager::new("history.json");
    assert_eq!(manager.file_path(), "history.json");
}

#[test]
fn missing_history_is_empty() {
    let manager = HistoryManager::new("history.json");
    assert!(manager.get_history(None).is_empty());
    let kept = manager.get_history(Some(vec![record(1), record(2)]));
    assert_eq!(kept.len(), 2);
    assert_eq!(kept[1].id, "id-2");
}

#[test]
fn record_is_added_at_the_end() {
    let manager = HistoryManager::new("history.json");
    let kept = manager.add_record(vec![record(1)], record(2));
    let ids: Vec<&str> = kept.iter().map(|r| r.id.as_str()).collect();
    assert_eq!(ids, vec!["id-1", "id-2"]);
}

#[test]
fn history_keeps_fifty_records() {
    assert_eq!(HISTORY_LIMIT, 50);
    let manager = HistoryManager::new("history.json");
    let mut history = Vec::new();
    for n in 0..50 {
        history = manager.add_record(history, record(n));
    }
    assert_eq!(history.len(), 50);
    assert_eq!(history[0].id, "id-0");
    history = manager.add_record(history, record(50));
    assert_eq!(history.len(), 50);
    assert_eq!(history[0].id, "id-1");
    assert_eq!(history[49].id, "id-50");
}

#[test]
fn only_the_oldest_leaves() {
    let manager = HistoryManager::new("history.json");
    let long: Vec<DeploymentRecord> = (0..60).map(record).collect();
    let kept = manager.add_record(long, record(60));
    assert_eq!(kept.len(), 60);
    assert_eq!(kept[0].id, "id-1");
    assert_eq!(kept[59].id, "id-60");
}

#[test]
fn update_record_is_filled_in() {
    let made = DeploymentRecord::update_triggered("x".to_string(), 1700000000, 5);
    assert_eq!(made.id, "x");
    assert_eq!(made.timestamp, 1700000000);
    assert_eq!(made.timestamp_nanos, 5);
    assert_eq!(made.action, "update");
    assert_eq!(made.details, "Agent Update Triggered");
    assert_eq!(made.status, "in_progress");
    assert_eq!(made.image_id, None);
    assert_eq!(made.container_name.as_deref(), Some("mini-ops"));
}

#[test]
fn update_record_of_now_has_a_fresh_id() {
    let first = DeploymentRecord::update_triggered_now();
    let second = DeploymentRecord::update_triggered_now();
    assert_eq!(first.id.len(), 36);
    assert_ne!(first.id, second.id);
    assert!(first.timestamp > 1_600_000_000);
    assert_eq!(first.action, "update");
}
