use mini_ops::notifications::{Dispatch, NotificationService};
use mini_ops::ssh_alerts::{
    insert_failure, log_entry, login_alert, login_time, shown_time, LoginError, LoginStep,
    SshAlertsService, SshLoginEvent, SshLoginLog, StoreError, TrustedIp, RATE_LIMIT_NANOS,
};

const SECOND: u128 = 1_000_000_000;

fn event(ip: &str) -> SshLoginEvent {
    SshLoginEvent {
        user: "root".to_string(),
        ip: ip.to_string(),
        timestamp: 1700000000,
        method: "publickey".to_string(),
    }
}

fn gateway(secret: &str) -> SshAlertsService {
    let mut service = SshAlertsService::new();
    service.set_token(secret.to_string());
    service
}

#[test]
fn rate_limit_is_ten_seconds() {
    assert_eq!(RATE_LIMIT_NANOS, 10 * SECOND);
}

#[test]
fn gateway_without_a_secret_accepts_nothing() {
    let mut service = SshAlertsService::new();
    assert_eq!(service.authorize(""), Err(LoginError::TokenNotConfigured));
    assert_eq!(service.authorize("anything"), Err(LoginError::TokenNotConfigured));
    assert_eq!(
        service.handle_login_at(&event("1.2.3.4"), "", 0),
        Err(LoginError::TokenNotConfigured)
    );
}

#[test]
fn token_must_be_the_secret_exactly() {
    let mut service = gateway("S3cret-Token");
    assert_eq!(service.authorize("S3cret-Token"), Ok(()));
    for wrong in ["S3cret-Toke", "S3cret-Token ", "s3cret-token", "S3cret-Tokem", "", "X3cret-Token"] {
        assert_eq!(service.authorize(wrong), Err(LoginError::InvalidToken), "token {:?}", wrong);
        assert_eq!(
            service.handle_login_at(&event("1.2.3.4"), wrong, 0),
            Err(LoginError::InvalidToken)
        );
    }
    assert_eq!(
        service.handle_login_at(&event("1.2.3.4"), "S3cret-Token", 0),
        Ok(LoginStep::CheckAllowList)
    );
}

#[test]
fn rejected_token_leaves_no_trace() {
    let mut service = gateway("secret");
    assert_eq!(service.handle_login_at(&event("1.2.3.4"), "wrong", 5), Err(LoginError::InvalidToken));
    assert_eq!(
        service.handle_login_at(&event("1.2.3.4"), "secret", 6),
        Ok(LoginStep::CheckAllowList)
    );
}

#[test]
fn second_event_within_ten_seconds_is_dropped() {
    let mut service = gateway("secret");
    let start = 50 * SECOND;
    assert_eq!(
        service.handle_login_at(&event("1.2.3.4"), "secret", start),
        Ok(LoginStep::CheckAllowList)
    );
    assert_eq!(
        service.handle_login_at(&event("1.2.3.4"), "secret", start + 9 * SECOND),
        Ok(LoginStep::RateLimited)
    );
    assert_eq!(
        service.handle_login_at(&event("1.2.3.4"), "secret", start + 10 * SECOND - 1),
        Ok(LoginStep::RateLimited)
    );
    assert_eq!(
        service.handle_login_at(&event("1.2.3.4"), "secret", start + 10 * SECOND),
        Ok(LoginStep::CheckAllowList)
    );
    assert_eq!(
        service.handle_login_at(&event("1.2.3.4"), "secret", start + 11 * SECOND),
        Ok(LoginStep::RateLimited)
    );
}

#[test]
fn rate_limit_is_per_address() {
    let mut service = gateway("secret");
    assert_eq!(service.handle_login_at(&event("1.2.3.4"), "secret", 0), Ok(LoginStep::CheckAllowList));
    assert_eq!(service.handle_login_at(&event("1.2.3.5"), "secret", 1), Ok(LoginStep::CheckAllowList));
    assert_eq!(service.handle_login_at(&event("1.2.3.4"), "secret", 2), Ok(LoginStep::RateLimited));
}

#[test]
fn handle_login_reads_the_clock() {
    let mut service = gateway("secret");
    assert_eq!(service.handle_login(&event("1.2.3.4"), "secret"), Ok(LoginStep::CheckAllowList));
    assert_eq!(service.handle_login(&event("1.2.3.4"), "secret"), Ok(LoginStep::RateLimited));
    assert_eq!(service.handle_login(&event("1.2.3.4"), "nope"), Err(LoginError::InvalidToken));
}

#[test]
fn trusted_source_is_logged_without_notice() {
    let outcome = SshAlertsService::complete_login(&event("10.0.0.1"), Ok(1)).unwrap();
    assert!(!outcome.notified);
    assert_eq!(outcome.alert, None);
    let many = SshAlertsService::complete_login(&event("10.0.0.1"), Ok(3)).unwrap();
    assert!(!many.notified);
    assert_eq!(many.alert, None);
}

#[test]
fn unknown_source_raises_the_alert() {
    let outcome = SshAlertsService::complete_login(&event("1.2.3.4"), Ok(0)).unwrap();
    assert!(outcome.notified);
    assert_eq!(
        outcome.alert.as_deref(),
        Some(
            "🔐 *SSH Login Detected*\n\n*User:* `root`\n*IP:* `1.2.3.4`\n*Method:* `publickey`\n*Time:* `2023-11-14 22:13:20`"
        )
    );
    let negative = SshAlertsService::complete_login(&event("1.2.3.4"), Ok(-1)).unwrap();
    assert!(negative.notified);
}

#[test]
fn store_failure_ends_the_handling() {
    let failed = SshAlertsService::complete_login(&event("1.2.3.4"), Err(StoreError::Unavailable));
    assert_eq!(failed.err(), Some(LoginError::StoreUnavailable));
}

#[test]
fn login_time_is_written_in_utc() {
    assert_eq!(login_time(0), "1970-01-01 00:00:00");
    assert_eq!(login_time(1700000000), "2023-11-14 22:13:20");
    assert_eq!(login_time(-1), "1969-12-31 23:59:59");
    assert_eq!(login_time(951782400), "2000-02-29 00:00:00");
    assert_eq!(login_time(i64::MAX), "1970-01-01 00:00:00");
    assert_eq!(login_time(i64::MIN), "1970-01-01 00:00:00");
}

#[test]
fn login_alert_takes_the_time_as_given() {
    assert_eq!(
        login_alert(&event("::1"), "now"),
        "🔐 *SSH Login Detected*\n\n*User:* `root`\n*IP:* `::1`\n*Method:* `publickey`\n*Time:* `now`"
    );
}

#[test]
fn log_entry_copies_the_event() {
    let row: SshLoginLog = log_entry(7, &event("1.2.3.4"), true);
    assert_eq!(row.id, 7);
    assert_eq!(row.user, "root");
    assert_eq!(row.ip, "1.2.3.4");
    assert_eq!(row.timestamp, 1700000000);
    assert_eq!(row.method, "publickey");
    assert!(row.notified);
}

#[test]
fn insert_failures_are_told_apart() {
    assert_eq!(insert_failure(true), StoreError::DuplicateIp);
    assert_eq!(insert_failure(false), StoreError::Unavailable);
}

#[test]
fn issued_token_is_the_new_secret() {
    let mut service = SshAlertsService::new();
    let token = service.issue_token();
    assert_eq!(token.len(), 36);
    assert_eq!(service.authorize(&token), Ok(()));
    assert_eq!(service.authorize(""), Err(LoginError::InvalidToken));
    let next = service.issue_token();
    assert_ne!(next, token);
    assert_eq!(service.authorize(&token), Err(LoginError::InvalidToken));
}

#[test]
fn login_from_an_unknown_source_is_logged_and_announced() {
    let allow_list: Vec<TrustedIp> = Vec::new();
    let mut rows: Vec<SshLoginLog> = Vec::new();
    let mut calls: Vec<String> = Vec::new();
    let mut gateway = gateway("valid-token");
    let mut dispatcher = NotificationService::with_server_name(
        Some("bot".to_string()),
        Some("chat".to_string()),
        "host".to_string(),
    );
    let submitted = SshLoginEvent {
        user: "root".to_string(),
        ip: "1.2.3.4".to_string(),
        timestamp: 1700000000,
        method: "publickey".to_string(),
    };

    let step = gateway.handle_login_at(&submitted, "valid-token", 0);
    assert_eq!(step, Ok(LoginStep::CheckAllowList));
    let listed = allow_list.iter().filter(|entry| entry.ip == submitted.ip).count() as i64;
    let outcome = SshAlertsService::complete_login(&submitted, Ok(listed)).unwrap();
    rows.push(log_entry(1, &submitted, outcome.notified));
    if let Some(alert) = &outcome.alert {
        calls.push(alert.clone());
        assert!(matches!(dispatcher.send_alert_at(alert, 0), Dispatch::Deliver(_)));
    }

    assert_eq!(rows.len(), 1);
    assert!(rows[0].notified);
    assert_eq!(calls.len(), 1);
    assert!(calls[0].contains("1.2.3.4"));
    assert!(calls[0].contains("publickey"));
}

#[test]
fn login_from_a_trusted_source_is_logged_and_not_announced() {
    let allow_list = vec![TrustedIp {
        id: 1,
        ip: "10.0.0.1".to_string(),
        description: Some("office".to_string()),
        added_at: 1690000000,
    }];
    let mut rows: Vec<SshLoginLog> = Vec::new();
    let mut calls: Vec<String> = Vec::new();
    let mut gateway = gateway("valid-token");
    let submitted = event("10.0.0.1");

    assert_eq!(gateway.handle_login_at(&submitted, "valid-token", 0), Ok(LoginStep::CheckAllowList));
    let listed = allow_list.iter().filter(|entry| entry.ip == submitted.ip).count() as i64;
    let outcome = SshAlertsService::complete_login(&submitted, Ok(listed)).unwrap();
    rows.push(log_entry(1, &submitted, outcome.notified));
    if let Some(alert) = outcome.alert {
        calls.push(alert);
    }

    assert_eq!(rows.len(), 1);
    assert!(!rows[0].notified);
    assert!(calls.is_empty());
}

#[test]
fn two_logins_within_ten_seconds_leave_one_row() {
    let mut rows: Vec<SshLoginLog> = Vec::new();
    let mut calls: Vec<String> = Vec::new();
    let mut gateway = gateway("valid-token");
    for (n, at) in [0u128, 4 * SECOND, 10 * SECOND].into_iter().enumerate() {
        let submitted = event("1.2.3.4");
        match gateway.handle_login_at(&submitted, "valid-token", at) {
            Ok(LoginStep::RateLimited) => {}
            Ok(LoginStep::CheckAllowList) => {
                let outcome = SshAlertsService::complete_login(&submitted, Ok(0)).unwrap();
                rows.push(log_entry(n as i64, &submitted, outcome.notified));
                calls.extend(outcome.alert);
            }
            Err(error) => panic!("rejected: {:?}", error),
        }
        if n == 1 {
            assert_eq!(rows.len(), 1);
            assert!(calls.len() <= 1);
        }
    }
    assert_eq!(rows.len(), 2);
    assert_eq!(calls.len(), 2);
}

#[test]
fn sweep_forgets_addresses_that_are_free_again() {
    let mut service = gateway("secret");
    assert_eq!(service.handle_login_at(&event("1.2.3.4"), "secret", 0), Ok(LoginStep::CheckAllowList));
    assert_eq!(
        service.handle_login_at(&event("1.2.3.5"), "secret", 5 * SECOND),
        Ok(LoginStep::CheckAllowList)
    );
    assert_eq!(service.remembered(), 2);
    service.sweep(10 * SECOND);
    assert_eq!(service.remembered(), 1);
    assert_eq!(
        service.handle_login_at(&event("1.2.3.5"), "secret", 11 * SECOND),
        Ok(LoginStep::RateLimited)
    );
    assert_eq!(
        service.handle_login_at(&event("1.2.3.4"), "secret", 11 * SECOND),
        Ok(LoginStep::CheckAllowList)
    );
    assert_eq!(service.authorize("secret"), Ok(()));
}

#[test]
fn errors_in_words() {
    assert_eq!(LoginError::TokenNotConfigured.message(), "Internal token not configured");
    assert_eq!(LoginError::InvalidToken.message(), "Invalid internal token");
    assert_eq!(LoginError::StoreUnavailable.message(), "Allow-list lookup failed");
    assert!(LoginError::InvalidToken.is_auth_failure());
    assert!(LoginError::TokenNotConfigured.is_auth_failure());
    assert!(!LoginError::StoreUnavailable.is_auth_failure());
    assert_eq!(StoreError::DuplicateIp.message(), "IP address is already trusted");
    assert_eq!(StoreError::Unavailable.message(), "Store unavailable");
}

#[test]
fn time_that_cannot_be_written_is_shown_as_the_start_of_1970() {
    assert_eq!(shown_time(Some("2023-11-14 22:13:20".to_string())), "2023-11-14 22:13:20");
    assert_eq!(shown_time(None), "1970-01-01 00:00:00");
}
