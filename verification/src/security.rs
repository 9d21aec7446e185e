//! The security audit: named checks with a status, and the monitor that
//! follows each check from one audit cycle to the next and words an alert
//! when a check starts to fail or recovers.

use crate::command::CommandOutput;
use crate::i18n::{t, wording, Lang};
use crate::text::{
    after_last, contains, is_prefix, join, joined, lines, lines_of, occurs, same, sort_unique,
    sorted_set, starts_with, str_of, tail_after, text_of, trim, trimmed, words, words_of,
};
use vstd::hash_map::StringHashMap;
use vstd::prelude::*;

verus! {

/// The seconds from one audit cycle to the next.
pub const AUDIT_PERIOD_SECS: u64 = 60;

/// How a check ended.
#[derive(Clone, Copy, Debug, PartialEq, Eq, Structural)]
pub enum CheckStatus {
    Pass,
    Fail,
    Warn,
}

impl CheckStatus {
    /// The status as it is written in reports.
    pub open spec fn label(self) -> Seq<char> {
        match self {
            CheckStatus::Pass => "PASS"@,
            CheckStatus::Fail => "FAIL"@,
            CheckStatus::Warn => "WARN"@,
        }
    }

    /// The status as it is written in reports: `PASS`, `FAIL` or `WARN`.
    pub fn as_str(&self) -> (label: &'static str)
        ensures
            label@ == self.label(),
    {
        match self {
            CheckStatus::Pass => "PASS",
            CheckStatus::Fail => "FAIL",
            CheckStatus::Warn => "WARN",
        }
    }
}

/// The result of one check in one audit cycle. The name identifies the check
/// from cycle to cycle.
#[derive(Clone, Debug)]
pub struct SecurityCheck {
    pub name: String,
    pub status: CheckStatus,
    pub message: String,
}

/// A check result as plain values.
pub struct CheckView {
    pub name: Seq<char>,
    pub status: CheckStatus,
    pub message: Seq<char>,
}

impl View for SecurityCheck {
    type V = CheckView;

    open spec fn view(&self) -> CheckView {
        CheckView { name: self.name@, status: self.status, message: self.message@ }
    }
}

/// The results of a cycle as plain values.
pub open spec fn views(checks: Seq<SecurityCheck>) -> Seq<CheckView> {
    checks.map_values(|c: SecurityCheck| c@)
}

/// What was read from the host for one audit.
#[derive(Clone, Debug)]
pub struct HostFacts {
    /// The text of `/etc/ssh/sshd_config`; `None` where it cannot be read.
    pub sshd_config: Option<String>,
    /// What `ufw status` gave; `None` where it cannot be started.
    pub ufw: Option<CommandOutput>,
    /// The permission bits of `/var/run/docker.sock`; `None` where the
    /// socket cannot be examined.
    pub docker_socket_mode: Option<u32>,
    /// The output of `lsblk -o TYPE`; `None` where it cannot be started.
    pub lsblk: Option<String>,
    /// Whether `systemctl is-active fail2ban` ended with success; `None`
    /// where it cannot be started.
    pub fail2ban_active: Option<bool>,
    /// The output of `ss -tulpn`; `None` where it cannot be started.
    pub ss: Option<String>,
}

/// A check result with its name and its message taken from the catalogue.
pub open spec fn reported(
    name_key: Seq<char>,
    status: CheckStatus,
    message_key: Seq<char>,
    lang: Lang,
) -> CheckView {
    CheckView {
        name: wording(name_key, lang),
        status,
        message: wording(message_key, lang),
    }
}

/// The first line whose text, trimmed, begins with `keyword`.
pub open spec fn first_line_with(lines: Seq<Seq<char>>, keyword: Seq<char>) -> Option<Seq<char>>
    decreases lines.len(),
{
    if lines.len() == 0 {
        None
    } else if is_prefix(keyword, trimmed(lines[0])) {
        Some(lines[0])
    } else {
        first_line_with(lines.drop_first(), keyword)
    }
}

/// Root login over SSH: the first `PermitRootLogin` line of the
/// configuration decides. With `yes` in it the check fails; without, or with
/// no such line, it passes. A configuration that cannot be read is a warning.
pub open spec fn ssh_root_login(config: Option<Seq<char>>, lang: Lang) -> CheckView {
    match config {
        None => reported("audit.ssh_root.name"@, CheckStatus::Warn, "audit.ssh_config.warn"@, lang),
        Some(text) => match first_line_with(lines_of(text), "PermitRootLogin"@) {
            Some(line) => if occurs("yes"@, line) {
                reported("audit.ssh_root.name"@, CheckStatus::Fail, "audit.ssh_root.fail"@, lang)
            } else {
                reported("audit.ssh_root.name"@, CheckStatus::Pass, "audit.ssh_root.pass"@, lang)
            },
            None => reported(
                "audit.ssh_root.name"@,
                CheckStatus::Pass,
                "audit.ssh_root.pass"@,
                lang,
            ),
        },
    }
}

/// Password login over SSH: the first `PasswordAuthentication` line of the
/// configuration decides. With `no` in it the check passes; without, or with
/// no such line, it fails. A configuration that cannot be read is a warning.
pub open spec fn ssh_password_auth(config: Option<Seq<char>>, lang: Lang) -> CheckView {
    match config {
        None => reported(
            "audit.ssh_passwd.name"@,
            CheckStatus::Warn,
            "audit.ssh_config.warn"@,
            lang,
        ),
        Some(text) => match first_line_with(lines_of(text), "PasswordAuthentication"@) {
            Some(line) => if occurs("no"@, line) {
                reported(
                    "audit.ssh_passwd.name"@,
                    CheckStatus::Pass,
                    "audit.ssh_passwd.pass"@,
                    lang,
                )
            } else {
                reported(
                    "audit.ssh_passwd.name"@,
                    CheckStatus::Fail,
                    "audit.ssh_passwd.fail"@,
                    lang,
                )
            },
            None => reported(
                "audit.ssh_passwd.name"@,
                CheckStatus::Fail,
                "audit.ssh_passwd.fail"@,
                lang,
            ),
        },
    }
}

/// The firewall: active where the command succeeds and reports
/// `Status: active`, inactive where it succeeds without; a command that
/// fails or cannot be started is a warning.
pub open spec fn ufw_status(output: Option<(bool, Seq<char>)>, lang: Lang) -> CheckView {
    match output {
        None => reported("audit.ufw.name"@, CheckStatus::Warn, "audit.ufw.warn"@, lang),
        Some((success, stdout)) => if !success {
            reported("audit.ufw.name"@, CheckStatus::Warn, "audit.ufw.error"@, lang)
        } else if occurs("Status: active"@, stdout) {
            reported("audit.ufw.name"@, CheckStatus::Pass, "audit.ufw.pass"@, lang)
        } else {
            reported("audit.ufw.name"@, CheckStatus::Fail, "audit.ufw.fail"@, lang)
        },
    }
}

/// The Docker socket: it fails where anyone may write to it, which is the
/// bit `0o002` of its mode. A socket that cannot be examined is a warning.
pub open spec fn docker_socket(mode: Option<u32>, lang: Lang) -> CheckView {
    match mode {
        None => reported(
            "audit.docker_sock.name"@,
            CheckStatus::Warn,
            "audit.docker_sock.warn"@,
            lang,
        ),
        Some(bits) => if bits & 0o002 != 0 {
            reported(
                "audit.docker_sock.name"@,
                CheckStatus::Fail,
                "audit.docker_sock.fail"@,
                lang,
            )
        } else {
            reported(
                "audit.docker_sock.name"@,
                CheckStatus::Pass,
                "audit.docker_sock.pass"@,
                lang,
            )
        },
    }
}

/// Disk encryption: it passes where the list of block devices names a
/// `crypt` device. Anything else is a warning.
pub open spec fn disk_encryption(listing: Option<Seq<char>>, lang: Lang) -> CheckView {
    match listing {
        None => reported("audit.disk_enc.name"@, CheckStatus::Warn, "audit.disk_enc.error"@, lang),
        Some(text) => if occurs("crypt"@, text) {
            reported("audit.disk_enc.name"@, CheckStatus::Pass, "audit.disk_enc.pass"@, lang)
        } else {
            reported("audit.disk_enc.name"@, CheckStatus::Warn, "audit.disk_enc.warn"@, lang)
        },
    }
}

/// Fail2Ban: it passes where the service is active. Anything else is a
/// warning.
pub open spec fn fail2ban_status(active: Option<bool>, lang: Lang) -> CheckView {
    match active {
        None => reported(
            "audit.fail2ban.name"@,
            CheckStatus::Warn,
            "audit.fail2ban.missing"@,
            lang,
        ),
        Some(is_active) => if is_active {
            reported("audit.fail2ban.name"@, CheckStatus::Pass, "audit.fail2ban.pass"@, lang)
        } else {
            reported("audit.fail2ban.name"@, CheckStatus::Warn, "audit.fail2ban.warn"@, lang)
        },
    }
}

/// The port on which a line of the socket list says something listens:
/// what follows the last colon of the fifth word of a line with `LISTEN` in
/// it. A line without `LISTEN` or with fewer words names none.
pub open spec fn listening_port(line: Seq<char>) -> Option<Seq<char>> {
    if occurs("LISTEN"@, line) && words_of(line).len() > 4 {
        Some(after_last(words_of(line)[4], ':'))
    } else {
        None
    }
}

/// The ports that the agent's host is meant to listen on.
pub open spec fn is_expected_port(port: Seq<char>) -> bool {
    port == "22"@ || port == "80"@ || port == "443"@ || port == "3000"@
}

/// The ports that the lines name and that are not expected, in the order of
/// the lines, a port as often as it is named.
pub open spec fn unexpected_ports(lines: Seq<Seq<char>>) -> Seq<Seq<char>>
    decreases lines.len(),
{
    if lines.len() == 0 {
        Seq::empty()
    } else {
        let earlier = unexpected_ports(lines.drop_last());
        match listening_port(lines.last()) {
            Some(port) => if is_expected_port(port) {
                earlier
            } else {
                earlier.push(port)
            },
            None => earlier,
        }
    }
}

/// Listening ports: the check passes where the socket list names no port but
/// the expected ones. Otherwise it warns and lists the others, each once, in
/// the order of a dictionary. A list that cannot be had is a warning too.
pub open spec fn listening_ports(listing: Option<Seq<char>>, lang: Lang) -> CheckView {
    match listing {
        None => reported("audit.ports.name"@, CheckStatus::Warn, "audit.ports.error"@, lang),
        Some(text) => {
            let found = unexpected_ports(lines_of(text));
            if found.len() == 0 {
                reported("audit.ports.name"@, CheckStatus::Pass, "audit.ports.pass"@, lang)
            } else {
                CheckView {
                    name: wording("audit.ports.name"@, lang),
                    status: CheckStatus::Warn,
                    message: wording("audit.ports.warn"@, lang) + ": "@ + joined(
                        sorted_set(found),
                        ", "@,
                    ),
                }
            }
        },
    }
}

/// The results of one audit, in the order in which they are reported.
pub open spec fn audit_of(facts: HostFacts, lang: Lang) -> Seq<CheckView> {
    seq![
        ssh_root_login(text_of(facts.sshd_config), lang),
        ufw_status(ran(facts.ufw), lang),
        docker_socket(facts.docker_socket_mode, lang),
        disk_encryption(text_of(facts.lsblk), lang),
        fail2ban_status(facts.fail2ban_active, lang),
        ssh_password_auth(text_of(facts.sshd_config), lang),
        listening_ports(text_of(facts.ss), lang),
    ]
}

/// Where a system binary may stand, in the order in which the places are
/// tried.
pub open spec fn binary_places(name: Seq<char>) -> Seq<Seq<char>> {
    seq!["/usr/sbin/"@ + name, "/usr/bin/"@ + name, "/sbin/"@ + name, "/bin/"@ + name]
}

/// What is known of a place where a binary may stand.
#[derive(Clone, Copy, Debug, PartialEq, Eq, Structural)]
pub struct PlaceFacts {
    /// Whether a regular file stands there.
    pub is_file: bool,
    /// The permission bits of what stands there.
    pub mode: u32,
}

/// Whether a place holds a file that someone may execute.
pub open spec fn is_executable(place: Option<PlaceFacts>) -> bool {
    place matches Some(facts) && facts.is_file && facts.mode & 0o111 != 0
}

/// The path under which a system binary is run: the first of its places
/// that holds an executable file, or its bare name, for the shell's search
/// path, where none does.
pub open spec fn run_path(name: Seq<char>, places: Seq<Option<PlaceFacts>>) -> Seq<char> {
    if exists|i: int| 0 <= i < places.len() && i < 4 && is_executable(#[trigger] places[i]) {
        let first = choose|i: int|
            0 <= i < places.len() && i < 4 && is_executable(#[trigger] places[i]) && forall|j: int|
                0 <= j < i ==> !is_executable(#[trigger] places[j]);
        binary_places(name)[first]
    } else {
        name
    }
}

/// What counts of a command's output for the firewall check.
pub open spec fn ran(output: Option<CommandOutput>) -> Option<(bool, Seq<char>)> {
    match output {
        Some(o) => Some((o.success, o.stdout@)),
        None => None,
    }
}

/// A check result with its name and its message taken from the catalogue.
pub fn report(name_key: &str, status: CheckStatus, message_key: &str, lang: &Lang) -> (check:
    SecurityCheck)
    ensures
        check@ == reported(name_key@, status, message_key@, *lang),
{
    SecurityCheck { name: t(name_key, lang), status, message: t(message_key, lang) }
}

/// The position of the first line whose text, trimmed, begins with
/// `keyword`.
pub fn find_line_with(lines: &Vec<String>, keyword: &str) -> (at: Option<usize>)
    ensures
        match at {
            Some(i) => i < lines.len() && first_line_with(lines.deep_view(), keyword@) == Some(
                lines[i as int]@,
            ),
            None => first_line_with(lines.deep_view(), keyword@) is None,
        },
{
    let ghost all = lines.deep_view();
    let mut i: usize = 0;
    assert(all.skip(0) =~= all);
    while i < lines.len()
        invariant
            i <= lines.len(),
            all == lines.deep_view(),
            first_line_with(all.skip(i as int), keyword@) == first_line_with(all, keyword@),
        decreases lines.len() - i,
    {
        let ghost rest = all.skip(i as int);
        assert(rest[0] == lines[i as int]@);
        assert(rest.drop_first() =~= all.skip(i + 1));
        if starts_with(trim(lines[i].as_str()), keyword) {
            return Some(i);
        }
        i += 1;
    }
    None
}

/// The checks of the audit. Each takes what was read from the host and
/// gives its verdict; the reading itself is the caller's.
pub struct SecurityAuditor;

impl SecurityAuditor {
    /// Whether root may log in over SSH.
    pub fn check_ssh_root_login(config: Option<&str>, lang: &Lang) -> (check: SecurityCheck)
        ensures
            check@ == ssh_root_login(str_of(config), *lang),
    {
        match config {
            None => report("audit.ssh_root.name", CheckStatus::Warn, "audit.ssh_config.warn", lang),
            Some(text) => {
                let all = lines(text);
                match find_line_with(&all, "PermitRootLogin") {
                    Some(i) => if contains(all[i].as_str(), "yes") {
                        report(
                            "audit.ssh_root.name",
                            CheckStatus::Fail,
                            "audit.ssh_root.fail",
                            lang,
                        )
                    } else {
                        report(
                            "audit.ssh_root.name",
                            CheckStatus::Pass,
                            "audit.ssh_root.pass",
                            lang,
                        )
                    },
                    None => report(
                        "audit.ssh_root.name",
                        CheckStatus::Pass,
                        "audit.ssh_root.pass",
                        lang,
                    ),
                }
            },
        }
    }

    /// Whether the firewall is active.
    pub fn check_ufw_status(output: Option<&CommandOutput>, lang: &Lang) -> (check: SecurityCheck)
        ensures
            check@ == ufw_status(
                match output {
                    Some(o) => Some((o.success, o.stdout@)),
                    None => None,
                },
                *lang,
            ),
    {
        match output {
            None => report("audit.ufw.name", CheckStatus::Warn, "audit.ufw.warn", lang),
            Some(o) => if !o.success {
                report("audit.ufw.name", CheckStatus::Warn, "audit.ufw.error", lang)
            } else if contains(o.stdout.as_str(), "Status: active") {
                report("audit.ufw.name", CheckStatus::Pass, "audit.ufw.pass", lang)
            } else {
                report("audit.ufw.name", CheckStatus::Fail, "audit.ufw.fail", lang)
            },
        }
    }

    /// Whether the Docker socket is closed to the world.
    pub fn check_docker_socket(mode: Option<u32>, lang: &Lang) -> (check: SecurityCheck)
        ensures
            check@ == docker_socket(mode, *lang),
    {
        match mode {
            None => report(
                "audit.docker_sock.name",
                CheckStatus::Warn,
                "audit.docker_sock.warn",
                lang,
            ),
            Some(bits) => if bits & 0o002 != 0 {
                report("audit.docker_sock.name", CheckStatus::Fail, "audit.docker_sock.fail", lang)
            } else {
                report("audit.docker_sock.name", CheckStatus::Pass, "audit.docker_sock.pass", lang)
            },
        }
    }

    /// Whether an encrypted block device is present.
    pub fn check_disk_encryption(listing: Option<&str>, lang: &Lang) -> (check: SecurityCheck)
        ensures
            check@ == disk_encryption(str_of(listing), *lang),
    {
        match listing {
            None => report("audit.disk_enc.name", CheckStatus::Warn, "audit.disk_enc.error", lang),
            Some(text) => if contains(text, "crypt") {
                report("audit.disk_enc.name", CheckStatus::Pass, "audit.disk_enc.pass", lang)
            } else {
                report("audit.disk_enc.name", CheckStatus::Warn, "audit.disk_enc.warn", lang)
            },
        }
    }

    /// Whether Fail2Ban is running.
    pub fn check_fail2ban_status(active: Option<bool>, lang: &Lang) -> (check: SecurityCheck)
        ensures
            check@ == fail2ban_status(active, *lang),
    {
        match active {
            None => report("audit.fail2ban.name", CheckStatus::Warn, "audit.fail2ban.missing", lang),
            Some(is_active) => if is_active {
                report("audit.fail2ban.name", CheckStatus::Pass, "audit.fail2ban.pass", lang)
            } else {
                report("audit.fail2ban.name", CheckStatus::Warn, "audit.fail2ban.warn", lang)
            },
        }
    }

    /// Whether login by password over SSH is switched off.
    pub fn check_ssh_password_auth(config: Option<&str>, lang: &Lang) -> (check: SecurityCheck)
        ensures
            check@ == ssh_password_auth(str_of(config), *lang),
    {
        match config {
            None => report(
                "audit.ssh_passwd.name",
                CheckStatus::Warn,
                "audit.ssh_config.warn",
                lang,
            ),
            Some(text) => {
                let all = lines(text);
                match find_line_with(&all, "PasswordAuthentication") {
                    Some(i) => if contains(all[i].as_str(), "no") {
                        report(
                            "audit.ssh_passwd.name",
                            CheckStatus::Pass,
                            "audit.ssh_passwd.pass",
                            lang,
                        )
                    } else {
                        report(
                            "audit.ssh_passwd.name",
                            CheckStatus::Fail,
                            "audit.ssh_passwd.fail",
                            lang,
                        )
                    },
                    None => report(
                        "audit.ssh_passwd.name",
                        CheckStatus::Fail,
                        "audit.ssh_passwd.fail",
                        lang,
                    ),
                }
            },
        }
    }

    /// The port that a line of the socket list names, if it names one.
    pub fn port_of_line(line: &str) -> (port: Option<String>)
        ensures
            text_of(port) == listening_port(line@),
    {
        if !contains(line, "LISTEN") {
            return None;
        }
        let parts = words(line);
        if parts.len() > 4 {
            assert(parts.deep_view()[4] == parts[4]@);
            Some(tail_after(parts[4].as_str(), ':').to_owned())
        } else {
            None
        }
    }

    /// Whether a port is one of those the host is meant to listen on.
    pub fn is_expected(port: &str) -> (expected: bool)
        ensures
            expected == is_expected_port(port@),
    {
        same(port, "22") || same(port, "80") || same(port, "443") || same(port, "3000")
    }

    /// Whether anything listens on a port that is not expected.
    pub fn check_listening_ports(listing: Option<&str>, lang: &Lang) -> (check: SecurityCheck)
        ensures
            check@ == listening_ports(str_of(listing), *lang),
    {
        match listing {
            None => report("audit.ports.name", CheckStatus::Warn, "audit.ports.error", lang),
            Some(text) => {
                let all = lines(text);
                let ghost rows = all.deep_view();
                let mut found: Vec<String> = Vec::new();
                let mut i: usize = 0;
                assert(rows.take(0) =~= Seq::<Seq<char>>::empty());
                assert(found.deep_view() =~= Seq::<Seq<char>>::empty());
                while i < all.len()
                    invariant
                        i <= all.len(),
                        rows == all.deep_view(),
                        found.deep_view() == unexpected_ports(rows.take(i as int)),
                    decreases all.len() - i,
                {
                    let ghost next = rows.take(i + 1);
                    assert(next.drop_last() =~= rows.take(i as int));
                    assert(next.last() == all[i as int]@);
                    let ghost earlier = found.deep_view();
                    match Self::port_of_line(all[i].as_str()) {
                        Some(port) => if !Self::is_expected(port.as_str()) {
                            found.push(port);
                            assert(found.deep_view() =~= earlier.push(port@));
                        },
                        None => {},
                    }
                    i += 1;
                }
                assert(rows.take(all.len() as int) =~= rows);
                if found.len() == 0 {
                    report("audit.ports.name", CheckStatus::Pass, "audit.ports.pass", lang)
                } else {
                    let ports = sort_unique(&found);
                    let mut message = t("audit.ports.warn", lang);
                    message.append(": ");
                    message.append(join(&ports, ", ").as_str());
                    SecurityCheck {
                        name: t("audit.ports.name", lang),
                        status: CheckStatus::Warn,
                        message,
                    }
                }
            },
        }
    }

    /// The audit: every check on what was read from the host, in the order
    /// in which the checks are reported.
    pub fn run_audit(facts: &HostFacts, lang: &Lang) -> (checks: Vec<SecurityCheck>)
        ensures
            views(checks@) == audit_of(*facts, *lang),
    {
        let config: Option<&str> = match &facts.sshd_config {
            Some(text) => Some(text.as_str()),
            None => None,
        };
        let lsblk: Option<&str> = match &facts.lsblk {
            Some(text) => Some(text.as_str()),
            None => None,
        };
        let ss: Option<&str> = match &facts.ss {
            Some(text) => Some(text.as_str()),
            None => None,
        };
        let ufw: Option<&CommandOutput> = match &facts.ufw {
            Some(output) => Some(output),
            None => None,
        };
        let mut checks: Vec<SecurityCheck> = Vec::new();
        checks.push(Self::check_ssh_root_login(config, lang));
        checks.push(Self::check_ufw_status(ufw, lang));
        checks.push(Self::check_docker_socket(facts.docker_socket_mode, lang));
        checks.push(Self::check_disk_encryption(lsblk, lang));
        checks.push(Self::check_fail2ban_status(facts.fail2ban_active, lang));
        checks.push(Self::check_ssh_password_auth(config, lang));
        checks.push(Self::check_listening_ports(ss, lang));
        assert(views(checks@) =~= audit_of(*facts, *lang));
        checks
    }

    /// The places where a system binary is looked for, in this order.
    pub fn binary_candidates(name: &str) -> (places: Vec<String>)
        ensures
            places.deep_view() == binary_places(name@),
    {
        let mut places: Vec<String> = Vec::new();
        let mut first = "/usr/sbin/".to_owned();
        first.append(name);
        let mut second = "/usr/bin/".to_owned();
        second.append(name);
        let mut third = "/sbin/".to_owned();
        third.append(name);
        let mut fourth = "/bin/".to_owned();
        fourth.append(name);
        places.push(first);
        places.push(second);
        places.push(third);
        places.push(fourth);
        assert(places.deep_view() =~= binary_places(name@));
        places
    }

    /// The path under which the system binary `name` is run, given what is
    /// known of its places, in the order of `binary_candidates`.
    pub fn command_path(name: &str, places: &Vec<Option<PlaceFacts>>) -> (path: String)
        ensures
            path@ == run_path(name@, places@),
    {
        let candidates = Self::binary_candidates(name);
        let mut i: usize = 0;
        assert(candidates.deep_view().len() == 4);
        while i < places.len() && i < 4
            invariant
                i <= places.len(),
                i <= 4,
                candidates.len() == 4,
                candidates.deep_view() == binary_places(name@),
                forall|j: int| 0 <= j < i ==> !is_executable(#[trigger] places[j]),
            decreases places.len() - i,
        {
            let found = match places[i] {
                Some(facts) => facts.is_file && facts.mode & 0o111 != 0,
                None => false,
            };
            if found {
                proof {
                    let first = choose|k: int|
                        0 <= k < places.len() && k < 4 && is_executable(#[trigger] places[k])
                            && forall|j: int| 0 <= j < k ==> !is_executable(#[trigger] places[j]);
                    assert(is_executable(places[i as int]));
                    assert(first == i);
                    assert(candidates.deep_view()[i as int] == candidates[i as int]@);
                }
                return candidates[i].clone();
            }
            i += 1;
        }
        name.to_owned()
    }

    /// The first of the places that holds a regular file with an execute
    /// bit; `None` where no place does. A place of which nothing is known
    /// holds nothing.
    pub fn find_system_binary(places: &Vec<Option<PlaceFacts>>) -> (at: Option<usize>)
        ensures
            match at {
                Some(i) => i < places.len() && is_executable(places[i as int]) && forall|j: int|
                    0 <= j < i ==> !is_executable(#[trigger] places[j]),
                None => forall|j: int| 0 <= j < places.len() ==> !is_executable(#[trigger] places[j]),
            },
    {
        let mut i: usize = 0;
        while i < places.len()
            invariant
                i <= places.len(),
                forall|j: int| 0 <= j < i ==> !is_executable(#[trigger] places[j]),
            decreases places.len() - i,
        {
            match places[i] {
                Some(facts) => if facts.is_file && facts.mode & 0o111 != 0 {
                    return Some(i);
                },
                None => {},
            }
            i += 1;
        }
        None
    }
}

/// What the step of a check from one cycle to the next calls for.
#[derive(Clone, Copy, Debug, PartialEq, Eq, Structural)]
pub enum Transition {
    /// The check fails now and did not fail before: a problem is reported.
    Detected,
    /// The check passes now and failed before: the problem is reported solved.
    Resolved,
    /// Nothing is reported.
    Silent,
}

/// The transition table. `previous` is `None` for a check never seen.
pub open spec fn transition(previous: Option<CheckStatus>, current: CheckStatus) -> Transition {
    if current == CheckStatus::Fail && previous != Some(CheckStatus::Fail) {
        Transition::Detected
    } else if current == CheckStatus::Pass && previous == Some(CheckStatus::Fail) {
        Transition::Resolved
    } else {
        Transition::Silent
    }
}

/// The alert for a check that started to fail.
pub open spec fn detected_text(name: Seq<char>, message: Seq<char>, lang: Lang) -> Seq<char> {
    wording("security.detected"@, lang) + "\n\n"@ + wording("security.check"@, lang)
        + ": "@ + name + "\n"@ + wording("security.message"@, lang) + ": "@ + message
}

/// The alert for a check that recovered.
pub open spec fn resolved_text(name: Seq<char>, lang: Lang) -> Seq<char> {
    wording("security.resolved"@, lang) + "\n\n"@ + wording("security.check"@, lang)
        + ": "@ + name
}

/// The alert, if any, that a check result calls for after `previous`.
pub open spec fn alert_for(previous: Option<CheckStatus>, check: CheckView, lang: Lang) -> Option<
    Seq<char>,
> {
    match transition(previous, check.status) {
        Transition::Detected => Some(detected_text(check.name, check.message, lang)),
        Transition::Resolved => Some(resolved_text(check.name, lang)),
        Transition::Silent => None,
    }
}

/// The status last seen of a check; `None` if it was never seen.
pub open spec fn observed(states: Map<Seq<char>, CheckStatus>, name: Seq<char>) -> Option<
    CheckStatus,
> {
    if states.contains_key(name) {
        Some(states[name])
    } else {
        None
    }
}

/// The statuses on record after the results of a cycle were taken in, one
/// after the other.
pub open spec fn states_after(states: Map<Seq<char>, CheckStatus>, checks: Seq<CheckView>) -> Map<
    Seq<char>,
    CheckStatus,
>
    decreases checks.len(),
{
    if checks.len() == 0 {
        states
    } else {
        states_after(states, checks.drop_last()).insert(checks.last().name, checks.last().status)
    }
}

/// The alerts of a cycle, in the order of its results. Each result is held
/// against the status on record when its turn comes.
pub open spec fn alerts_of(
    states: Map<Seq<char>, CheckStatus>,
    checks: Seq<CheckView>,
    lang: Lang,
) -> Seq<Seq<char>>
    decreases checks.len(),
{
    if checks.len() == 0 {
        Seq::empty()
    } else {
        let earlier = alerts_of(states, checks.drop_last(), lang);
        let before = states_after(states, checks.drop_last());
        match alert_for(observed(before, checks.last().name), checks.last(), lang) {
            Some(alert) => earlier.push(alert),
            None => earlier,
        }
    }
}

/// The transition table, computed.
pub fn classify(previous: Option<CheckStatus>, current: CheckStatus) -> (step: Transition)
    ensures
        step == transition(previous, current),
{
    let failed_before = match previous {
        Some(CheckStatus::Fail) => true,
        _ => false,
    };
    match current {
        CheckStatus::Fail => if failed_before {
            Transition::Silent
        } else {
            Transition::Detected
        },
        CheckStatus::Pass => if failed_before {
            Transition::Resolved
        } else {
            Transition::Silent
        },
        CheckStatus::Warn => Transition::Silent,
    }
}

/// Words the alert for a check that started to fail.
pub fn detected_alert(check: &SecurityCheck, lang: &Lang) -> (alert: String)
    ensures
        alert@ == detected_text(check.name@, check.message@, *lang),
{
    let mut alert = t("security.detected", lang);
    alert.append("\n\n");
    alert.append(t("security.check", lang).as_str());
    alert.append(": ");
    alert.append(check.name.as_str());
    alert.append("\n");
    alert.append(t("security.message", lang).as_str());
    alert.append(": ");
    alert.append(check.message.as_str());
    alert
}

/// Words the alert for a check that recovered.
pub fn resolved_alert(check: &SecurityCheck, lang: &Lang) -> (alert: String)
    ensures
        alert@ == resolved_text(check.name@, *lang),
{
    let mut alert = t("security.resolved", lang);
    alert.append("\n\n");
    alert.append(t("security.check", lang).as_str());
    alert.append(": ");
    alert.append(check.name.as_str());
    alert
}

/// Follows every check from cycle to cycle.
pub struct SecurityMonitor {
    last_states: StringHashMap<CheckStatus>,
}

impl SecurityMonitor {
    /// The status on record for each check seen so far.
    pub closed spec fn states(&self) -> Map<Seq<char>, CheckStatus> {
        self.last_states@
    }

    /// A monitor that has seen no check yet.
    pub fn new() -> (monitor: Self)
        ensures
            monitor.states() == Map::<Seq<char>, CheckStatus>::empty(),
    {
        SecurityMonitor { last_states: StringHashMap::new() }
    }

    /// The status on record for a check; `None` if it was never seen.
    pub fn last_status(&self, name: &str) -> (status: Option<CheckStatus>)
        ensures
            status == observed(self.states(), name@),
    {
        match self.last_states.get(name) {
            Some(status) => Some(*status),
            None => None,
        }
    }

    /// One audit cycle on what was read from the host: runs the checks and
    /// takes their results in. Returns the alerts that the cycle calls for.
    pub fn check_once(&mut self, facts: &HostFacts, lang: &Lang) -> (alerts: Vec<String>)
        ensures
            final(self).states() == states_after(old(self).states(), audit_of(*facts, *lang)),
            alerts.deep_view() == alerts_of(old(self).states(), audit_of(*facts, *lang), *lang),
    {
        let checks = SecurityAuditor::run_audit(facts, lang);
        self.reconcile(&checks, lang)
    }

    /// Takes in the results of one audit cycle: returns the alerts that the
    /// transitions call for, in the order of the results, and records the new
    /// status of every check in the cycle, whether it raised an alert or not.
    pub fn reconcile(&mut self, checks: &Vec<SecurityCheck>, lang: &Lang) -> (alerts: Vec<String>)
        ensures
            final(self).states() == states_after(old(self).states(), views(checks@)),
            alerts.deep_view() == alerts_of(old(self).states(), views(checks@), *lang),
    {
        let ghost start = self.states();
        let mut alerts: Vec<String> = Vec::new();
        let mut i: usize = 0;
        assert(views(checks@.take(0)) =~= Seq::<CheckView>::empty());
        assert(alerts.deep_view() =~= Seq::<Seq<char>>::empty());
        while i < checks.len()
            invariant
                i <= checks.len(),
                self.states() == states_after(start, views(checks@.take(i as int))),
                alerts.deep_view() == alerts_of(start, views(checks@.take(i as int)), *lang),
            decreases checks.len() - i,
        {
            let check = &checks[i];
            let ghost done = views(checks@.take(i as int));
            let ghost next = views(checks@.take(i + 1));
            assert(next.drop_last() =~= done);
            assert(next.last() == check@);
            let ghost earlier = alerts.deep_view();
            let previous = self.last_status(check.name.as_str());
            match classify(previous, check.status) {
                Transition::Detected => {
                    let alert = detected_alert(check, lang);
                    alerts.push(alert);
                    assert(alerts.deep_view() =~= earlier.push(alert@));
                },
                Transition::Resolved => {
                    let alert = resolved_alert(check, lang);
                    alerts.push(alert);
                    assert(alerts.deep_view() =~= earlier.push(alert@));
                },
                Transition::Silent => {},
            }
            self.last_states.insert(check.name.clone(), check.status);
            i += 1;
        }
        assert(checks@.take(checks.len() as int) =~= checks@);
        alerts
    }
}

/// No two results of the cycle bear the same name.
pub open spec fn distinct_names(checks: Seq<CheckView>) -> bool {
    forall|i: int, j: int| 0 <= i < j < checks.len() ==> checks[i].name != checks[j].name
}

/// A cycle of one result records that result and raises the alert that the
/// result calls for after the status on record.
pub proof fn lemma_single_check(states: Map<Seq<char>, CheckStatus>, check: CheckView, lang: Lang)
    ensures
        states_after(states, seq![check]) == states.insert(check.name, check.status),
        alerts_of(states, seq![check], lang) == match alert_for(
            observed(states, check.name),
            check,
            lang,
        ) {
            Some(alert) => seq![alert],
            None => Seq::<Seq<char>>::empty(),
        },
{
    let cycle = seq![check];
    assert(cycle.drop_last() =~= Seq::<CheckView>::empty());
    assert(cycle.last() == check);
    assert(states_after(states, cycle.drop_last()) == states);
    assert(alerts_of(states, cycle.drop_last(), lang) =~= Seq::<Seq<char>>::empty());
    assert(Seq::<Seq<char>>::empty().push(detected_text(check.name, check.message, lang))
        =~= seq![detected_text(check.name, check.message, lang)]);
    assert(Seq::<Seq<char>>::empty().push(resolved_text(check.name, lang)) =~= seq![
        resolved_text(check.name, lang),
    ]);
}

/// A check that was never seen and then fails, passes and fails again, one
/// cycle each, raises a "detected" alert, a "resolved" alert and a second
/// "detected" alert, and nothing else; afterwards it is on record as failing.
pub proof fn law_fail_pass_fail(
    states: Map<Seq<char>, CheckStatus>,
    name: Seq<char>,
    first: Seq<char>,
    second: Seq<char>,
    third: Seq<char>,
    lang: Lang,
)
    requires
        observed(states, name) is None,
    ensures
        ({
            let c1 = CheckView { name, status: CheckStatus::Fail, message: first };
            let c2 = CheckView { name, status: CheckStatus::Pass, message: second };
            let c3 = CheckView { name, status: CheckStatus::Fail, message: third };
            let s1 = states_after(states, seq![c1]);
            let s2 = states_after(s1, seq![c2]);
            let s3 = states_after(s2, seq![c3]);
            &&& alerts_of(states, seq![c1], lang) == seq![detected_text(name, first, lang)]
            &&& alerts_of(s1, seq![c2], lang) == seq![resolved_text(name, lang)]
            &&& alerts_of(s2, seq![c3], lang) == seq![detected_text(name, third, lang)]
            &&& observed(s3, name) == Some(CheckStatus::Fail)
        }),
{
    let c1 = CheckView { name, status: CheckStatus::Fail, message: first };
    let c2 = CheckView { name, status: CheckStatus::Pass, message: second };
    let c3 = CheckView { name, status: CheckStatus::Fail, message: third };
    lemma_single_check(states, c1, lang);
    let s1 = states_after(states, seq![c1]);
    lemma_single_check(s1, c2, lang);
    let s2 = states_after(s1, seq![c2]);
    lemma_single_check(s2, c3, lang);
}

/// A warning is no recovery: a failing check that turns to a warning raises
/// no alert, and is on record with the warning. If it fails again in the next
/// cycle, that is a new failure and raises a "detected" alert; a "resolved"
/// alert is raised at neither step.
pub proof fn law_warn_is_not_pass(
    states: Map<Seq<char>, CheckStatus>,
    name: Seq<char>,
    first: Seq<char>,
    second: Seq<char>,
    lang: Lang,
)
    requires
        observed(states, name) == Some(CheckStatus::Fail),
    ensures
        ({
            let c1 = CheckView { name, status: CheckStatus::Warn, message: first };
            let c2 = CheckView { name, status: CheckStatus::Fail, message: second };
            let s1 = states_after(states, seq![c1]);
            let s2 = states_after(s1, seq![c2]);
            &&& alerts_of(states, seq![c1], lang) == Seq::<Seq<char>>::empty()
            &&& observed(s1, name) == Some(CheckStatus::Warn)
            &&& alerts_of(s1, seq![c2], lang) == seq![detected_text(name, second, lang)]
            &&& observed(s2, name) == Some(CheckStatus::Fail)
        }),
{
    let c1 = CheckView { name, status: CheckStatus::Warn, message: first };
    let c2 = CheckView { name, status: CheckStatus::Fail, message: second };
    lemma_single_check(states, c1, lang);
    let s1 = states_after(states, seq![c1]);
    lemma_single_check(s1, c2, lang);
}

/// A check that keeps failing raises its alert once: as long as it is on
/// record as failing, a further failure is silent.
pub proof fn law_repeated_failure_is_silent(
    states: Map<Seq<char>, CheckStatus>,
    check: CheckView,
    lang: Lang,
)
    requires
        observed(states, check.name) == Some(CheckStatus::Fail),
        check.status == CheckStatus::Fail,
    ensures
        alerts_of(states, seq![check], lang) == Seq::<Seq<char>>::empty(),
        observed(states_after(states, seq![check]), check.name) == Some(CheckStatus::Fail),
{
    lemma_single_check(states, check, lang);
}

/// The names that a cycle does not mention keep the status they had.
pub proof fn lemma_other_names_keep_status(
    states: Map<Seq<char>, CheckStatus>,
    checks: Seq<CheckView>,
    name: Seq<char>,
)
    requires
        forall|i: int| 0 <= i < checks.len() ==> checks[i].name != name,
    ensures
        observed(states_after(states, checks), name) == observed(states, name),
    decreases checks.len(),
{
    if checks.len() > 0 {
        lemma_other_names_keep_status(states, checks.drop_last(), name);
    }
}

/// Where no two results of a cycle bear the same name, each result is held
/// against the status that its check had before the cycle, and after the
/// cycle every check of it is on record with its new status.
pub proof fn law_checks_are_independent(
    states: Map<Seq<char>, CheckStatus>,
    checks: Seq<CheckView>,
    i: int,
)
    requires
        distinct_names(checks),
        0 <= i < checks.len(),
    ensures
        observed(states_after(states, checks.take(i)), checks[i].name) == observed(
            states,
            checks[i].name,
        ),
        observed(states_after(states, checks), checks[i].name) == Some(checks[i].status),
    decreases checks.len(),
{
    lemma_other_names_keep_status(states, checks.take(i), checks[i].name);
    if i == checks.len() - 1 {
    } else {
        let shorter = checks.drop_last();
        assert(shorter.take(i) =~= checks.take(i));
        law_checks_are_independent(states, shorter, i);
    }
}

/// The alert that the `i`-th result of a cycle calls for when its turn
/// comes: the results before it are on record by then.
pub open spec fn alert_at(
    states: Map<Seq<char>, CheckStatus>,
    checks: Seq<CheckView>,
    i: int,
    lang: Lang,
) -> Option<Seq<char>> {
    alert_for(observed(states_after(states, checks.take(i)), checks[i].name), checks[i], lang)
}

/// The alerts of a cycle are those of its results, one result after the
/// other: the last result adds its alert, if it calls for one, to those of
/// the results before it.
pub proof fn law_alerts_go_by_result(
    states: Map<Seq<char>, CheckStatus>,
    checks: Seq<CheckView>,
    lang: Lang,
)
    requires
        checks.len() > 0,
    ensures
        alerts_of(states, checks, lang) == match alert_at(states, checks, checks.len() - 1, lang) {
            Some(alert) => alerts_of(states, checks.drop_last(), lang).push(alert),
            None => alerts_of(states, checks.drop_last(), lang),
        },
{
    assert(checks.take(checks.len() - 1) =~= checks.drop_last());
}

/// In cycles of the whole audit, as in cycles of one result: a check that
/// was never seen and then fails, passes and fails again, in three cycles
/// that each name it once among other checks, raises a "detected" alert, a
/// "resolved" alert and a second "detected" alert, and is on record as
/// failing afterwards.
pub proof fn law_fail_pass_fail_among_others(
    states: Map<Seq<char>, CheckStatus>,
    first: Seq<CheckView>,
    second: Seq<CheckView>,
    third: Seq<CheckView>,
    i: int,
    j: int,
    k: int,
    lang: Lang,
)
    requires
        distinct_names(first),
        distinct_names(second),
        distinct_names(third),
        0 <= i < first.len(),
        0 <= j < second.len(),
        0 <= k < third.len(),
        second[j].name == first[i].name,
        third[k].name == first[i].name,
        observed(states, first[i].name) is None,
        first[i].status == CheckStatus::Fail,
        second[j].status == CheckStatus::Pass,
        third[k].status == CheckStatus::Fail,
    ensures
        ({
            let name = first[i].name;
            let s1 = states_after(states, first);
            let s2 = states_after(s1, second);
            let s3 = states_after(s2, third);
            &&& alert_at(states, first, i, lang) == Some(
                detected_text(name, first[i].message, lang),
            )
            &&& alert_at(s1, second, j, lang) == Some(resolved_text(name, lang))
            &&& alert_at(s2, third, k, lang) == Some(detected_text(name, third[k].message, lang))
            &&& observed(s3, name) == Some(CheckStatus::Fail)
        }),
{
    let s1 = states_after(states, first);
    let s2 = states_after(s1, second);
    law_checks_are_independent(states, first, i);
    law_checks_are_independent(s1, second, j);
    law_checks_are_independent(s2, third, k);
}

/// In cycles of the whole audit: a failing check that turns to a warning
/// raises no alert at that step, whatever the other checks do, and a new
/// failure after the warning raises a "detected" alert.
pub proof fn law_warn_is_not_pass_among_others(
    states: Map<Seq<char>, CheckStatus>,
    first: Seq<CheckView>,
    second: Seq<CheckView>,
    i: int,
    j: int,
    lang: Lang,
)
    requires
        distinct_names(first),
        distinct_names(second),
        0 <= i < first.len(),
        0 <= j < second.len(),
        second[j].name == first[i].name,
        observed(states, first[i].name) == Some(CheckStatus::Fail),
        first[i].status == CheckStatus::Warn,
        second[j].status == CheckStatus::Fail,
    ensures
        ({
            let name = first[i].name;
            let s1 = states_after(states, first);
            &&& alert_at(states, first, i, lang) is None
            &&& observed(s1, name) == Some(CheckStatus::Warn)
            &&& alert_at(s1, second, j, lang) == Some(
                detected_text(name, second[j].message, lang),
            )
        }),
{
    let s1 = states_after(states, first);
    law_checks_are_independent(states, first, i);
    law_checks_are_independent(s1, second, j);
}

} // verus!
