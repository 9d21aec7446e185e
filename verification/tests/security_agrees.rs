use mini_ops::i18n::Lang;
use mini_ops::security::{CheckStatus, SecurityAuditor};

/// A run of numbers that looks random and is the same on every run.
struct Dice(u64);

impl Dice {
    fn roll(&mut self, sides: usize) -> usize {
        self.0 = self.0.wrapping_mul(6364136223846793005).wrapping_add(1442695040888963407);
        (self.0 >> 33) as usize % sides
    }

    fn pick<'a>(&mut self, from: &[&'a str]) -> &'a str {
        from[self.roll(from.len())]
    }
}

fn config(dice: &mut Dice) -> String {
    let starts = ["", " ", "\t", "#", "# ", "  #"];
    let keys = ["PermitRootLogin", "PasswordAuthentication", "Port", "permitrootlogin", "X11Forwarding"];
    let values = [" yes", " no", " prohibit-password", "", " yes # no", "\tno", " without-password"];
    let ends = ["\n", "\r\n", "\n\n", ""];
    let mut text = String::new();
    for _ in 0..dice.roll(6) {
        text.push_str(dice.pick(&starts));
        text.push_str(dice.pick(&keys));
        text.push_str(dice.pick(&values));
        text.push_str(dice.pick(&ends));
    }
    text
}

#[test]
fn ssh_checks_agree_with_a_plain_reading_of_the_config() {
    let mut dice = Dice(3);
    for _ in 0..3000 {
        let text = config(&mut dice);

        let root = text.lines().find(|l| l.trim().starts_with("PermitRootLogin"));
        let expected = match root {
            Some(line) if line.contains("yes") => CheckStatus::Fail,
            _ => CheckStatus::Pass,
        };
        assert_eq!(
            SecurityAuditor::check_ssh_root_login(Some(&text), &Lang::EN).status,
            expected,
            "config {:?}",
            text
        );

        let password = text.lines().find(|l| {
            let trim = l.trim();
            trim.starts_with("PasswordAuthentication") && !trim.starts_with("#")
        });
        let expected = match password {
            Some(line) if line.contains("no") => CheckStatus::Pass,
            _ => CheckStatus::Fail,
        };
        assert_eq!(
            SecurityAuditor::check_ssh_password_auth(Some(&text), &Lang::EN).status,
            expected,
            "config {:?}",
            text
        );
    }
}

fn sockets(dice: &mut Dice) -> String {
    let kinds = ["tcp", "udp", "tcp6"];
    let states = ["LISTEN", "UNCONN", "ESTAB", "LISTENING"];
    let hosts = ["0.0.0.0", "127.0.0.1", "[::]", "*", "", "[::1]"];
    let ports = ["22", "80", "443", "3000", "8080", "5432", "53", "", "30000", "9"];
    let gaps = [" ", "   ", "\t"];
    let mut text = String::new();
    for _ in 0..dice.roll(8) {
        text.push_str(dice.pick(&kinds));
        text.push_str(dice.pick(&gaps));
        text.push_str(dice.pick(&states));
        for column in 0..dice.roll(5) {
            text.push_str(dice.pick(&gaps));
            if column < 2 {
                text.push_str(dice.pick(&["0", "128", "4096"]));
            } else {
                text.push_str(dice.pick(&hosts));
                if dice.roll(5) > 0 {
                    text.push(':');
                    text.push_str(dice.pick(&ports));
                }
            }
        }
        text.push_str(dice.pick(&["\n", "\r\n", " \n"]));
    }
    text
}

#[test]
fn ports_check_agrees_with_a_plain_reading_of_the_list() {
    let allowed = ["22", "80", "443", "3000"];
    let mut dice = Dice(5);
    for _ in 0..3000 {
        let text = sockets(&mut dice);

        let mut suspicious = Vec::new();
        for line in text.lines() {
            if line.contains("LISTEN") {
                if let Some(local_part) = line.split_whitespace().nth(4) {
                    if let Some(port) = local_part.split(':').last() {
                        if !allowed.contains(&port) {
                            suspicious.push(port.to_string());
                        }
                    }
                }
            }
        }
        suspicious.sort();
        suspicious.dedup();

        let check = SecurityAuditor::check_listening_ports(Some(&text), &Lang::EN);
        if suspicious.is_empty() {
            assert_eq!(check.status, CheckStatus::Pass, "list {:?}", text);
            assert_eq!(check.message, "No suspicious ports found");
        } else {
            assert_eq!(check.status, CheckStatus::Warn, "list {:?}", text);
            assert_eq!(
                check.message,
                format!("Unnecessary ports found: {}", suspicious.join(", ")),
                "list {:?}",
                text
            );
        }
    }
}
