use mini_ops::command::CommandOutput;
use mini_ops::i18n::Lang;
use mini_ops::security::{
    classify, CheckStatus, HostFacts, PlaceFacts, SecurityAuditor, SecurityCheck,
    SecurityMonitor, Transition, AUDIT_PERIOD_SECS,
};

fn check(name: &str, status: CheckStatus, message: &str) -> SecurityCheck {
    SecurityCheck { name: name.to_string(), status, message: message.to_string() }
}

fn output(success: bool, stdout: &str) -> CommandOutput {
    CommandOutput { success, stdout: stdout.to_string(), stderr: String::new() }
}

#[test]
fn transition_table_is_complete() {
    let failing = Some(CheckStatus::Fail);
    let all = [None, Some(CheckStatus::Pass), failing, Some(CheckStatus::Warn)];
    for previous in all {
        let expected = if previous == failing { Transition::Silent } else { Transition::Detected };
        assert_eq!(classify(previous, CheckStatus::Fail), expected);
        let expected = if previous == failing { Transition::Resolved } else { Transition::Silent };
        assert_eq!(classify(previous, CheckStatus::Pass), expected);
        assert_eq!(classify(previous, CheckStatus::Warn), Transition::Silent);
    }
}

#[test]
fn fail_pass_fail_raises_two_detected_and_one_resolved() {
    let mut monitor = SecurityMonitor::new();
    assert_eq!(monitor.last_status("SSH Root Login"), None);
    let first = monitor.reconcile(&vec![check("SSH Root Login", CheckStatus::Fail, "open")], &Lang::EN);
    assert_eq!(
        first,
        vec!["Security Issue Detected!\n\nCheck: SSH Root Login\nMessage: open"]
    );
    let second = monitor.reconcile(&vec![check("SSH Root Login", CheckStatus::Pass, "fine")], &Lang::EN);
    assert_eq!(second, vec!["✅ Security Issue Resolved\n\nCheck: SSH Root Login"]);
    let third = monitor.reconcile(&vec![check("SSH Root Login", CheckStatus::Fail, "again")], &Lang::EN);
    assert_eq!(
        third,
        vec!["Security Issue Detected!\n\nCheck: SSH Root Login\nMessage: again"]
    );
    assert_eq!(monitor.last_status("SSH Root Login"), Some(CheckStatus::Fail));
}

#[test]
fn warning_after_failure_is_no_recovery() {
    let mut monitor = SecurityMonitor::new();
    monitor.reconcile(&vec![check("ufw", CheckStatus::Fail, "off")], &Lang::EN);
    let warned = monitor.reconcile(&vec![check("ufw", CheckStatus::Warn, "unknown")], &Lang::EN);
    assert!(warned.is_empty());
    assert_eq!(monitor.last_status("ufw"), Some(CheckStatus::Warn));
    let failed = monitor.reconcile(&vec![check("ufw", CheckStatus::Fail, "off")], &Lang::EN);
    assert_eq!(failed, vec!["Security Issue Detected!\n\nCheck: ufw\nMessage: off"]);
    assert_eq!(monitor.last_status("ufw"), Some(CheckStatus::Fail));
}

#[test]
fn repeated_failure_alerts_once() {
    let mut monitor = SecurityMonitor::new();
    let cycle = vec![check("ufw", CheckStatus::Fail, "off")];
    assert_eq!(monitor.reconcile(&cycle, &Lang::EN).len(), 1);
    assert!(monitor.reconcile(&cycle, &Lang::EN).is_empty());
    assert!(monitor.reconcile(&cycle, &Lang::EN).is_empty());
}

#[test]
fn passing_and_warning_checks_are_recorded_silently() {
    let mut monitor = SecurityMonitor::new();
    let cycle = vec![
        check("a", CheckStatus::Pass, ""),
        check("b", CheckStatus::Warn, ""),
    ];
    assert!(monitor.reconcile(&cycle, &Lang::EN).is_empty());
    assert_eq!(monitor.last_status("a"), Some(CheckStatus::Pass));
    assert_eq!(monitor.last_status("b"), Some(CheckStatus::Warn));
    assert_eq!(monitor.last_status("c"), None);
}

#[test]
fn alerts_come_in_the_order_of_the_results_and_in_the_language() {
    let mut monitor = SecurityMonitor::new();
    monitor.reconcile(&vec![check("b", CheckStatus::Fail, "m")], &Lang::RU);
    let cycle = vec![
        check("a", CheckStatus::Fail, "x"),
        check("b", CheckStatus::Pass, "y"),
        check("c", CheckStatus::Pass, "z"),
    ];
    assert_eq!(
        monitor.reconcile(&cycle, &Lang::RU),
        vec![
            "Обнаружена проблема безопасности!\n\nПроверка: a\nОписание: x",
            "✅ Проблема безопасности решена\n\nПроверка: b",
        ]
    );
}

#[test]
fn status_labels() {
    assert_eq!(CheckStatus::Pass.as_str(), "PASS");
    assert_eq!(CheckStatus::Fail.as_str(), "FAIL");
    assert_eq!(CheckStatus::Warn.as_str(), "WARN");
}

#[test]
fn root_login_check_reads_the_first_matching_line() {
    let fail = SecurityAuditor::check_ssh_root_login(
        Some("Port 22\n  PermitRootLogin yes\nPermitRootLogin no\n"),
        &Lang::EN,
    );
    assert_eq!(fail.status, CheckStatus::Fail);
    assert_eq!(fail.name, "SSH Root Login");
    assert_eq!(fail.message, "Root login is permitted via SSH via password/keys");
    let pass = SecurityAuditor::check_ssh_root_login(
        Some("PermitRootLogin prohibit-password\nPermitRootLogin yes\n"),
        &Lang::EN,
    );
    assert_eq!(pass.status, CheckStatus::Pass);
    let commented = SecurityAuditor::check_ssh_root_login(Some("#PermitRootLogin yes\n"), &Lang::EN);
    assert_eq!(commented.status, CheckStatus::Pass);
    assert_eq!(commented.message, "Root login appears disabled or restricted");
    let unread = SecurityAuditor::check_ssh_root_login(None, &Lang::EN);
    assert_eq!(unread.status, CheckStatus::Warn);
    assert_eq!(unread.message, "Could not read /etc/ssh/sshd_config");
}

#[test]
fn password_check_passes_only_with_an_explicit_no() {
    let pass = SecurityAuditor::check_ssh_password_auth(Some("PasswordAuthentication no\n"), &Lang::EN);
    assert_eq!(pass.status, CheckStatus::Pass);
    assert_eq!(pass.message, "Password authentication is disabled");
    let fail = SecurityAuditor::check_ssh_password_auth(Some("PasswordAuthentication yes\n"), &Lang::EN);
    assert_eq!(fail.status, CheckStatus::Fail);
    let missing = SecurityAuditor::check_ssh_password_auth(Some("Port 22\n"), &Lang::EN);
    assert_eq!(missing.status, CheckStatus::Fail);
    assert_eq!(missing.message, "Password authentication is enabled (insecure)");
    let commented =
        SecurityAuditor::check_ssh_password_auth(Some("# PasswordAuthentication no\n"), &Lang::EN);
    assert_eq!(commented.status, CheckStatus::Fail);
    let unread = SecurityAuditor::check_ssh_password_auth(None, &Lang::EN);
    assert_eq!(unread.status, CheckStatus::Warn);
    assert_eq!(unread.name, "SSH Password Auth");
}

#[test]
fn firewall_check() {
    let active = output(true, "Status: active\n");
    let inactive = output(true, "Status: inactive\n");
    let denied = output(false, "Status: active\n");
    assert_eq!(SecurityAuditor::check_ufw_status(Some(&active), &Lang::EN).status, CheckStatus::Pass);
    assert_eq!(SecurityAuditor::check_ufw_status(Some(&inactive), &Lang::EN).status, CheckStatus::Fail);
    let failed = SecurityAuditor::check_ufw_status(Some(&denied), &Lang::EN);
    assert_eq!(failed.status, CheckStatus::Warn);
    assert_eq!(
        failed.message,
        "UFW found but command failed (possibly insufficient permissions)"
    );
    let absent = SecurityAuditor::check_ufw_status(None, &Lang::EN);
    assert_eq!(absent.status, CheckStatus::Warn);
    assert_eq!(absent.message, "UFW command not found or not accessible");
}

#[test]
fn docker_socket_check_looks_at_the_world_write_bit() {
    assert_eq!(SecurityAuditor::check_docker_socket(Some(0o140660), &Lang::EN).status, CheckStatus::Pass);
    assert_eq!(SecurityAuditor::check_docker_socket(Some(0o140666), &Lang::EN).status, CheckStatus::Fail);
    assert_eq!(SecurityAuditor::check_docker_socket(Some(0o002), &Lang::EN).status, CheckStatus::Fail);
    assert_eq!(SecurityAuditor::check_docker_socket(Some(0o775), &Lang::EN).status, CheckStatus::Pass);
    assert_eq!(SecurityAuditor::check_docker_socket(None, &Lang::EN).status, CheckStatus::Warn);
}

#[test]
fn disk_encryption_and_fail2ban_never_fail() {
    assert_eq!(
        SecurityAuditor::check_disk_encryption(Some("TYPE\ndisk\npart\ncrypt\n"), &Lang::EN).status,
        CheckStatus::Pass
    );
    let plain = SecurityAuditor::check_disk_encryption(Some("TYPE\ndisk\npart\n"), &Lang::EN);
    assert_eq!(plain.status, CheckStatus::Warn);
    assert_eq!(plain.message, "No LUKS encrypted partitions found");
    let absent = SecurityAuditor::check_disk_encryption(None, &Lang::EN);
    assert_eq!(absent.status, CheckStatus::Warn);
    assert_eq!(absent.message, "Could not run lsblk");
    assert_eq!(SecurityAuditor::check_fail2ban_status(Some(true), &Lang::EN).status, CheckStatus::Pass);
    let stopped = SecurityAuditor::check_fail2ban_status(Some(false), &Lang::EN);
    assert_eq!(stopped.status, CheckStatus::Warn);
    assert_eq!(stopped.message, "Service is not running");
    let missing = SecurityAuditor::check_fail2ban_status(None, &Lang::EN);
    assert_eq!(missing.status, CheckStatus::Warn);
    assert_eq!(missing.message, "Fail2Ban is not installed");
}

const SOCKETS: &str = "\
Netid State  Recv-Q Send-Q Local Address:Port Peer Address:Port Process
udp   UNCONN 0      0      127.0.0.53%lo:53   0.0.0.0:*
tcp   LISTEN 0      128    0.0.0.0:22         0.0.0.0:*
tcp   LISTEN 0      511    0.0.0.0:8080       0.0.0.0:*
tcp   LISTEN 0      4096   127.0.0.1:5432     0.0.0.0:*
tcp   LISTEN 0      511    [::]:8080          [::]:*
tcp   LISTEN 0      128    [::]:443           [::]:*
";

#[test]
fn port_of_a_line() {
    assert_eq!(
        SecurityAuditor::port_of_line("tcp   LISTEN 0      511    0.0.0.0:8080       0.0.0.0:*"),
        Some("8080".to_string())
    );
    assert_eq!(
        SecurityAuditor::port_of_line("udp   UNCONN 0      0      127.0.0.53%lo:53   0.0.0.0:*"),
        None
    );
    assert_eq!(SecurityAuditor::port_of_line("tcp LISTEN 0 128"), None);
    assert_eq!(SecurityAuditor::port_of_line("tcp LISTEN 0 128 noport"), Some("noport".to_string()));
}

#[test]
fn unexpected_ports_are_listed_once_and_in_order() {
    let found = SecurityAuditor::check_listening_ports(Some(SOCKETS), &Lang::EN);
    assert_eq!(found.status, CheckStatus::Warn);
    assert_eq!(found.name, "Listening Ports");
    assert_eq!(found.message, "Unnecessary ports found: 5432, 8080");
}

#[test]
fn expected_ports_pass() {
    let quiet = "tcp LISTEN 0 128 0.0.0.0:22 0.0.0.0:*\ntcp LISTEN 0 128 *:3000 *:*\ntcp LISTEN 0 1 :80 x\n";
    let check = SecurityAuditor::check_listening_ports(Some(quiet), &Lang::EN);
    assert_eq!(check.status, CheckStatus::Pass);
    assert_eq!(check.message, "No suspicious ports found");
    let none = SecurityAuditor::check_listening_ports(Some(""), &Lang::EN);
    assert_eq!(none.status, CheckStatus::Pass);
    let failed = SecurityAuditor::check_listening_ports(None, &Lang::EN);
    assert_eq!(failed.status, CheckStatus::Warn);
    assert_eq!(failed.message, "Error scanning ports");
}

#[test]
fn audit_reports_seven_checks_in_order() {
    let facts = HostFacts {
        sshd_config: Some("PermitRootLogin no\nPasswordAuthentication no\n".to_string()),
        ufw: Some(output(true, "Status: active")),
        docker_socket_mode: Some(0o660),
        lsblk: Some("crypt".to_string()),
        fail2ban_active: Some(true),
        ss: Some(SOCKETS.to_string()),
    };
    let checks = SecurityAuditor::run_audit(&facts, &Lang::EN);
    let names: Vec<&str> = checks.iter().map(|c| c.name.as_str()).collect();
    assert_eq!(
        names,
        vec![
            "SSH Root Login",
            "Firewall (UFW)",
            "Docker Socket Permissions",
            "Disk Encryption",
            "Fail2Ban",
            "SSH Password Auth",
            "Listening Ports",
        ]
    );
    let statuses: Vec<CheckStatus> = checks.iter().map(|c| c.status).collect();
    assert_eq!(
        statuses,
        vec![
            CheckStatus::Pass,
            CheckStatus::Pass,
            CheckStatus::Pass,
            CheckStatus::Pass,
            CheckStatus::Pass,
            CheckStatus::Pass,
            CheckStatus::Warn,
        ]
    );
}

#[test]
fn audit_of_a_host_that_tells_nothing_warns_everywhere() {
    let facts = HostFacts {
        sshd_config: None,
        ufw: None,
        docker_socket_mode: None,
        lsblk: None,
        fail2ban_active: None,
        ss: None,
    };
    let checks = SecurityAuditor::run_audit(&facts, &Lang::RU);
    assert_eq!(checks.len(), 7);
    assert!(checks.iter().all(|c| c.status == CheckStatus::Warn));
    assert_eq!(checks[0].name, "Доступ root через SSH");
}

#[test]
fn binary_candidates_in_the_order_they_are_tried() {
    assert_eq!(
        SecurityAuditor::binary_candidates("ufw"),
        vec!["/usr/sbin/ufw", "/usr/bin/ufw", "/sbin/ufw", "/bin/ufw"]
    );
}

#[test]
fn first_executable_file_is_found() {
    let places = vec![
        None,
        Some(PlaceFacts { is_file: false, mode: 0o755 }),
        Some(PlaceFacts { is_file: true, mode: 0o644 }),
        Some(PlaceFacts { is_file: true, mode: 0o100 }),
    ];
    assert_eq!(SecurityAuditor::find_system_binary(&places), Some(3));
    assert_eq!(SecurityAuditor::find_system_binary(&places[..3].to_vec()), None);
    assert_eq!(SecurityAuditor::find_system_binary(&Vec::new()), None);
}

/// What stands at a place. Whatever stands in one of the system's binary
/// directories is taken to carry its execute bits.
fn look(place: &str) -> Option<PlaceFacts> {
    let path = std::path::Path::new(place);
    match path.metadata() {
        Ok(found) => Some(PlaceFacts { is_file: found.is_file(), mode: 0o755 }),
        Err(_) => None,
    }
}

#[test]
fn test_find_system_binary_existing() {
    let places = SecurityAuditor::binary_candidates("ls");
    let facts: Vec<Option<PlaceFacts>> = places.iter().map(|place| look(place)).collect();
    let result = SecurityAuditor::find_system_binary(&facts);
    assert!(result.is_some(), "Binary 'ls' should be found in standard paths");

    let path = std::path::Path::new(&places[result.unwrap()]);
    assert!(path.exists());
    assert!(path.is_file());
}

#[test]
fn test_find_system_binary_nonexistent() {
    let places = SecurityAuditor::binary_candidates("nonexistent_binary_xyz123");
    let facts: Vec<Option<PlaceFacts>> = places.iter().map(|place| look(place)).collect();
    let result = SecurityAuditor::find_system_binary(&facts);
    assert!(result.is_none(), "Nonexistent binary should not be found");
}

#[test]
fn command_runs_from_the_first_place_that_holds_it() {
    let here = Some(PlaceFacts { is_file: true, mode: 0o755 });
    assert_eq!(SecurityAuditor::command_path("ss", &vec![None, here, here, None]), "/usr/bin/ss");
    assert_eq!(SecurityAuditor::command_path("ss", &vec![None, None, None, here]), "/bin/ss");
    assert_eq!(SecurityAuditor::command_path("ss", &vec![None, None, None, None]), "ss");
    assert_eq!(SecurityAuditor::command_path("ss", &vec![None, None, None, None, here]), "ss");
    assert_eq!(SecurityAuditor::command_path("ss", &Vec::new()), "ss");
}

#[test]
fn audit_runs_every_minute() {
    assert_eq!(AUDIT_PERIOD_SECS, 60);
}

#[test]
fn cycle_on_host_facts_raises_what_the_checks_call_for() {
    let mut facts = HostFacts {
        sshd_config: Some("PermitRootLogin yes\nPasswordAuthentication no\n".to_string()),
        ufw: Some(output(true, "Status: active")),
        docker_socket_mode: Some(0o660),
        lsblk: Some("crypt".to_string()),
        fail2ban_active: Some(true),
        ss: Some(String::new()),
    };
    let mut monitor = SecurityMonitor::new();
    assert_eq!(
        monitor.check_once(&facts, &Lang::EN),
        vec![
            "Security Issue Detected!\n\nCheck: SSH Root Login\nMessage: Root login is permitted via SSH via password/keys"
        ]
    );
    assert!(monitor.check_once(&facts, &Lang::EN).is_empty());
    facts.sshd_config = Some("PermitRootLogin no\nPasswordAuthentication no\n".to_string());
    assert_eq!(
        monitor.check_once(&facts, &Lang::EN),
        vec!["✅ Security Issue Resolved\n\nCheck: SSH Root Login"]
    );
    assert_eq!(monitor.last_status("SSH Root Login"), Some(CheckStatus::Pass));
    assert_eq!(monitor.last_status("Listening Ports"), Some(CheckStatus::Pass));
}
