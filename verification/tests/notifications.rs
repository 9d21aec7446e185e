use mini_ops::notifications::{
    resolve_server_name, Dispatch, NotificationService, COOLDOWN_NANOS, THROTTLE_NANOS,
};

const SECOND: u128 = 1_000_000_000;
const MINUTE: u128 = 60 * SECOND;

fn configured() -> NotificationService {
    NotificationService::with_server_name(
        Some("123:abc".to_string()),
        Some("-100".to_string()),
        "web-1".to_string(),
    )
}

fn delivered(dispatch: &Dispatch) -> bool {
    matches!(dispatch, Dispatch::Deliver(_))
}

#[test]
fn windows_are_thirty_minutes_and_three_seconds() {
    assert_eq!(COOLDOWN_NANOS, 30 * MINUTE);
    assert_eq!(THROTTLE_NANOS, 3 * SECOND);
}

#[test]
fn message_is_worded_for_the_transport() {
    let mut service = configured();
    match service.send_alert_at("disk full", 5 * SECOND) {
        Dispatch::Deliver(message) => {
            assert_eq!(message.url, "https://api.telegram.org/bot123:abc/sendMessage");
            assert_eq!(message.chat_id, "-100");
            assert_eq!(message.text, "🚨 *Mini-Ops Alert* 🚨\n[web-1]\n\ndisk full");
            assert_eq!(message.parse_mode, "Markdown");
        }
        other => panic!("expected a delivery, got {:?}", other),
    }
    assert_eq!(service.last_sent(), Some(5 * SECOND));
}

#[test]
fn envelope_has_marker_server_and_body_on_lines_of_their_own() {
    let mut service = configured();
    match service.send_alert_at("body", 0) {
        Dispatch::Deliver(message) => {
            let lines: Vec<&str> = message.text.lines().collect();
            assert_eq!(lines, vec!["🚨 *Mini-Ops Alert* 🚨", "[web-1]", "", "body"]);
        }
        other => panic!("expected a delivery, got {:?}", other),
    }
}

#[test]
fn identical_text_is_delivered_once_in_thirty_minutes() {
    let mut service = configured();
    let start = 100 * SECOND;
    assert!(delivered(&service.send_alert_at("cpu", start)));
    assert!(matches!(service.send_alert_at("cpu", start), Dispatch::Suppressed));
    assert!(matches!(service.send_alert_at("cpu", start + 29 * MINUTE), Dispatch::Suppressed));
    assert!(matches!(
        service.send_alert_at("cpu", start + 30 * MINUTE - 1),
        Dispatch::Suppressed
    ));
    assert_eq!(service.last_sent(), Some(start));
    assert!(delivered(&service.send_alert_at("cpu", start + 30 * MINUTE + SECOND)));
    assert_eq!(service.last_sent(), Some(start + 30 * MINUTE + SECOND));
}

#[test]
fn cooldown_ends_at_exactly_thirty_minutes() {
    let mut service = configured();
    assert!(delivered(&service.send_alert_at("cpu", 7)));
    assert!(delivered(&service.send_alert_at("cpu", 7 + 30 * MINUTE)));
}

#[test]
fn suppressed_alert_does_not_renew_the_cooldown() {
    let mut service = configured();
    assert!(delivered(&service.send_alert_at("cpu", 0)));
    assert!(matches!(service.send_alert_at("cpu", 29 * MINUTE), Dispatch::Suppressed));
    assert!(delivered(&service.send_alert_at("cpu", 31 * MINUTE)));
}

#[test]
fn different_texts_do_not_suppress_each_other() {
    let mut service = configured();
    assert!(delivered(&service.send_alert_at("cpu", 0)));
    assert!(delivered(&service.send_alert_at("disk", 1)));
    assert!(delivered(&service.send_alert_at("CPU", 2)));
}

#[test]
fn clock_that_goes_back_counts_as_no_time_passed() {
    let mut service = configured();
    assert!(delivered(&service.send_alert_at("cpu", 40 * MINUTE)));
    assert!(matches!(service.send_alert_at("cpu", 0), Dispatch::Suppressed));
}

#[test]
fn throttle_is_recorded_and_not_enforced_by_default() {
    let mut service = configured();
    assert!(delivered(&service.send_alert_at("a", 0)));
    assert!(delivered(&service.send_alert_at("b", SECOND)));
    assert_eq!(service.last_sent(), Some(SECOND));
}

#[test]
fn enforced_throttle_drops_what_comes_within_three_seconds() {
    let mut service = configured();
    service.set_throttle_enforced(true);
    assert!(delivered(&service.send_alert_at("a", 0)));
    assert!(matches!(service.send_alert_at("b", SECOND), Dispatch::Throttled));
    assert_eq!(service.last_sent(), Some(SECOND));
    assert!(matches!(service.send_alert_at("c", 4 * SECOND - 1), Dispatch::Throttled));
    assert!(delivered(&service.send_alert_at("d", 7 * SECOND - 1)));
    assert!(matches!(service.send_alert_at("b", 20 * SECOND), Dispatch::Suppressed));
}

#[test]
fn without_credentials_nothing_is_delivered_and_state_is_kept() {
    let mut service =
        NotificationService::with_server_name(Some("t".to_string()), None, "s".to_string());
    assert!(!service.is_configured());
    assert!(matches!(service.send_alert_at("cpu", 10), Dispatch::NotConfigured));
    assert_eq!(service.last_sent(), Some(10));
    assert!(matches!(service.send_alert_at("cpu", 20), Dispatch::Suppressed));
    let mut none = NotificationService::with_server_name(None, None, "s".to_string());
    assert!(matches!(none.send_alert_at("cpu", 10), Dispatch::NotConfigured));
}

#[test]
fn send_alert_reads_the_clock() {
    let mut service = configured();
    assert!(delivered(&service.send_alert("cpu")));
    assert!(matches!(service.send_alert("cpu"), Dispatch::Suppressed));
    assert!(service.last_sent().is_some());
}

#[test]
fn server_name_falls_back() {
    assert_eq!(resolve_server_name(Some("a".to_string()), Some("b".to_string())), "a");
    assert_eq!(resolve_server_name(None, Some("b".to_string())), "b");
    assert_eq!(resolve_server_name(None, None), "Unknown Server");
}

#[test]
fn new_takes_the_configured_name() {
    let service = NotificationService::new(None, None, Some("edge".to_string()));
    assert_eq!(service.server_name(), "edge");
    assert!(!service.is_configured());
    assert_eq!(service.last_sent(), None);
    let unnamed = NotificationService::new(Some("t".to_string()), Some("c".to_string()), None);
    assert!(unnamed.is_configured());
    assert!(!unnamed.server_name().is_empty());
}

#[test]
fn sweep_forgets_what_no_longer_matters() {
    let mut service = configured();
    assert!(delivered(&service.send_alert_at("old", 0)));
    assert!(delivered(&service.send_alert_at("new", 20 * MINUTE)));
    assert_eq!(service.remembered(), 2);
    service.sweep(30 * MINUTE);
    assert_eq!(service.remembered(), 1);
    assert_eq!(service.last_sent(), Some(20 * MINUTE));
    assert!(matches!(service.send_alert_at("new", 31 * MINUTE), Dispatch::Suppressed));
    assert!(delivered(&service.send_alert_at("old", 31 * MINUTE)));
    service.sweep(50 * MINUTE - 1);
    assert_eq!(service.remembered(), 2);
    service.sweep(50 * MINUTE);
    assert_eq!(service.remembered(), 1);
}
