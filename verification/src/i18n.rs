//! The agent's message catalogue in English and Russian.

use crate::text::{contains, occurs, replace, replaced, same, str_of};
use vstd::prelude::*;

verus! {

/// The languages the agent speaks.
#[derive(Clone, Copy, Debug, PartialEq, Eq, Structural)]
pub enum Lang {
    EN,
    RU,
}

/// The English text of a message key; an unknown key stands for itself.
pub open spec fn english(key: Seq<char>) -> Seq<char> {
    if key == "alert.critical_cpu"@ {
        "Critical CPU usage: {val}%"@
    } else if key == "alert.low_disk"@ {
        "Low disk space: {val}% used"@
    } else if key == "alert.test"@ {
        "This is a test notification from Mini-Ops agent!"@
    } else if key == "security.detected"@ {
        "Security Issue Detected!"@
    } else if key == "security.resolved"@ {
        "✅ Security Issue Resolved"@
    } else if key == "security.check"@ {
        "Check"@
    } else if key == "security.message"@ {
        "Message"@
    } else if key == "audit.ssh_root.name"@ {
        "SSH Root Login"@
    } else if key == "audit.ssh_root.fail"@ {
        "Root login is permitted via SSH via password/keys"@
    } else if key == "audit.ssh_root.pass"@ {
        "Root login appears disabled or restricted"@
    } else if key == "audit.ssh_config.warn"@ {
        "Could not read /etc/ssh/sshd_config"@
    } else if key == "audit.ufw.name"@ {
        "Firewall (UFW)"@
    } else if key == "audit.ufw.pass"@ {
        "UFW is active"@
    } else if key == "audit.ufw.fail"@ {
        "UFW is inactive"@
    } else if key == "audit.ufw.warn"@ {
        "UFW command not found or not accessible"@
    } else if key == "audit.ufw.error"@ {
        "UFW found but command failed (possibly insufficient permissions)"@
    } else if key == "audit.docker_sock.name"@ {
        "Docker Socket Permissions"@
    } else if key == "audit.docker_sock.fail"@ {
        "Docker socket is world-writable (dangerous!)"@
    } else if key == "audit.docker_sock.pass"@ {
        "Permissions look safe"@
    } else if key == "audit.docker_sock.warn"@ {
        "Could not verify /var/run/docker.sock"@
    } else if key == "audit.disk_enc.name"@ {
        "Disk Encryption"@
    } else if key == "audit.disk_enc.pass"@ {
        "Found encrypted partitions"@
    } else if key == "audit.disk_enc.warn"@ {
        "No LUKS encrypted partitions found"@
    } else if key == "audit.disk_enc.error"@ {
        "Could not run lsblk"@
    } else if key == "audit.fail2ban.name"@ {
        "Fail2Ban"@
    } else if key == "audit.fail2ban.pass"@ {
        "Service is active"@
    } else if key == "audit.fail2ban.warn"@ {
        "Service is not running"@
    } else if key == "audit.fail2ban.missing"@ {
        "Fail2Ban is not installed"@
    } else if key == "audit.ssh_passwd.name"@ {
        "SSH Password Auth"@
    } else if key == "audit.ssh_passwd.pass"@ {
        "Password authentication is disabled"@
    } else if key == "audit.ssh_passwd.fail"@ {
        "Password authentication is enabled (insecure)"@
    } else if key == "audit.ports.name"@ {
        "Listening Ports"@
    } else if key == "audit.ports.pass"@ {
        "No suspicious ports found"@
    } else if key == "audit.ports.warn"@ {
        "Unnecessary ports found"@
    } else if key == "audit.ports.error"@ {
        "Error scanning ports"@
    } else {
        key
    }
}

/// The Russian text of a message key; an unknown key stands for itself.
pub open spec fn russian(key: Seq<char>) -> Seq<char> {
    if key == "alert.critical_cpu"@ {
        "Критическая нагрузка CPU: {val}%"@
    } else if key == "alert.low_disk"@ {
        "Мало места на диске: {val}% занято"@
    } else if key == "alert.test"@ {
        "Это тестовое уведомление от агента Mini-Ops!"@
    } else if key == "security.detected"@ {
        "Обнаружена проблема безопасности!"@
    } else if key == "security.resolved"@ {
        "✅ Проблема безопасности решена"@
    } else if key == "security.check"@ {
        "Проверка"@
    } else if key == "security.message"@ {
        "Описание"@
    } else if key == "audit.ssh_root.name"@ {
        "Доступ root через SSH"@
    } else if key == "audit.ssh_root.fail"@ {
        "Root-доступ разрешен по паролю/ключам (небезопасно)"@
    } else if key == "audit.ssh_root.pass"@ {
        "Доступ для root ограничен или отключен"@
    } else if key == "audit.ssh_config.warn"@ {
        "Не удалось прочитать конфиг sshd"@
    } else if key == "audit.ufw.name"@ {
        "Файрвол (UFW)"@
    } else if key == "audit.ufw.pass"@ {
        "UFW активен"@
    } else if key == "audit.ufw.fail"@ {
        "UFW отключен"@
    } else if key == "audit.ufw.warn"@ {
        "UFW не найден или недоступен"@
    } else if key == "audit.ufw.error"@ {
        "UFW найден, но команда не выполнена (возможно, недостаточно прав)"@
    } else if key == "audit.docker_sock.name"@ {
        "Права на Docker Socket"@
    } else if key == "audit.docker_sock.fail"@ {
        "Socket доступен всем на запись (опасно!)"@
    } else if key == "audit.docker_sock.pass"@ {
        "Права доступа выглядят безопасно"@
    } else if key == "audit.docker_sock.warn"@ {
        "Не удалось проверить /var/run/docker.sock"@
    } else if key == "audit.disk_enc.name"@ {
        "Шифрование диска"@
    } else if key == "audit.disk_enc.pass"@ {
        "Найдены зашифрованные разделы"@
    } else if key == "audit.disk_enc.warn"@ {
        "Зашифрованные разделы LUKS не найдены"@
    } else if key == "audit.disk_enc.error"@ {
        "Не удалось запустить lsblk"@
    } else if key == "audit.fail2ban.name"@ {
        "Fail2Ban"@
    } else if key == "audit.fail2ban.pass"@ {
        "Сервис активен"@
    } else if key == "audit.fail2ban.warn"@ {
        "Сервис не запущен"@
    } else if key == "audit.fail2ban.missing"@ {
        "Fail2Ban не установлен"@
    } else if key == "audit.ssh_passwd.name"@ {
        "SSH Password Auth"@
    } else if key == "audit.ssh_passwd.pass"@ {
        "Вход по паролю отключен"@
    } else if key == "audit.ssh_passwd.fail"@ {
        "Вход по паролю включен (небезопасно)"@
    } else if key == "audit.ports.name"@ {
        "Открытые порты"@
    } else if key == "audit.ports.pass"@ {
        "Подозрительных портов не найдено"@
    } else if key == "audit.ports.warn"@ {
        "Найдены лишние порты"@
    } else if key == "audit.ports.error"@ {
        "Ошибка сканирования портов"@
    } else {
        key
    }
}

/// The text of a message key in a language.
pub open spec fn wording(key: Seq<char>, lang: Lang) -> Seq<char> {
    match lang {
        Lang::RU => russian(key),
        Lang::EN => english(key),
    }
}

/// Looks a key up in the English table.
fn t_en(key: &str) -> (text: String)
    ensures
        text@ == english(key@),
{
    if same(key, "alert.critical_cpu") {
        "Critical CPU usage: {val}%".to_owned()
    } else if same(key, "alert.low_disk") {
        "Low disk space: {val}% used".to_owned()
    } else if same(key, "alert.test") {
        "This is a test notification from Mini-Ops agent!".to_owned()
    } else if same(key, "security.detected") {
        "Security Issue Detected!".to_owned()
    } else if same(key, "security.resolved") {
        "✅ Security Issue Resolved".to_owned()
    } else if same(key, "security.check") {
        "Check".to_owned()
    } else if same(key, "security.message") {
        "Message".to_owned()
    } else if same(key, "audit.ssh_root.name") {
        "SSH Root Login".to_owned()
    } else if same(key, "audit.ssh_root.fail") {
        "Root login is permitted via SSH via password/keys".to_owned()
    } else if same(key, "audit.ssh_root.pass") {
        "Root login appears disabled or restricted".to_owned()
    } else if same(key, "audit.ssh_config.warn") {
        "Could not read /etc/ssh/sshd_config".to_owned()
    } else if same(key, "audit.ufw.name") {
        "Firewall (UFW)".to_owned()
    } else if same(key, "audit.ufw.pass") {
        "UFW is active".to_owned()
    } else if same(key, "audit.ufw.fail") {
        "UFW is inactive".to_owned()
    } else if same(key, "audit.ufw.warn") {
        "UFW command not found or not accessible".to_owned()
    } else if same(key, "audit.ufw.error") {
        "UFW found but command failed (possibly insufficient permissions)".to_owned()
    } else if same(key, "audit.docker_sock.name") {
        "Docker Socket Permissions".to_owned()
    } else if same(key, "audit.docker_sock.fail") {
        "Docker socket is world-writable (dangerous!)".to_owned()
    } else if same(key, "audit.docker_sock.pass") {
        "Permissions look safe".to_owned()
    } else if same(key, "audit.docker_sock.warn") {
        "Could not verify /var/run/docker.sock".to_owned()
    } else if same(key, "audit.disk_enc.name") {
        "Disk Encryption".to_owned()
    } else if same(key, "audit.disk_enc.pass") {
        "Found encrypted partitions".to_owned()
    } else if same(key, "audit.disk_enc.warn") {
        "No LUKS encrypted partitions found".to_owned()
    } else if same(key, "audit.disk_enc.error") {
        "Could not run lsblk".to_owned()
    } else if same(key, "audit.fail2ban.name") {
        "Fail2Ban".to_owned()
    } else if same(key, "audit.fail2ban.pass") {
        "Service is active".to_owned()
    } else if same(key, "audit.fail2ban.warn") {
        "Service is not running".to_owned()
    } else if same(key, "audit.fail2ban.missing") {
        "Fail2Ban is not installed".to_owned()
    } else if same(key, "audit.ssh_passwd.name") {
        "SSH Password Auth".to_owned()
    } else if same(key, "audit.ssh_passwd.pass") {
        "Password authentication is disabled".to_owned()
    } else if same(key, "audit.ssh_passwd.fail") {
        "Password authentication is enabled (insecure)".to_owned()
    } else if same(key, "audit.ports.name") {
        "Listening Ports".to_owned()
    } else if same(key, "audit.ports.pass") {
        "No suspicious ports found".to_owned()
    } else if same(key, "audit.ports.warn") {
        "Unnecessary ports found".to_owned()
    } else if same(key, "audit.ports.error") {
        "Error scanning ports".to_owned()
    } else {
        key.to_owned()
    }
}

/// Looks a key up in the Russian table.
fn t_ru(key: &str) -> (text: String)
    ensures
        text@ == russian(key@),
{
    if same(key, "alert.critical_cpu") {
        "Критическая нагрузка CPU: {val}%".to_owned()
    } else if same(key, "alert.low_disk") {
        "Мало места на диске: {val}% занято".to_owned()
    } else if same(key, "alert.test") {
        "Это тестовое уведомление от агента Mini-Ops!".to_owned()
    } else if same(key, "security.detected") {
        "Обнаружена проблема безопасности!".to_owned()
    } else if same(key, "security.resolved") {
        "✅ Проблема безопасности решена".to_owned()
    } else if same(key, "security.check") {
        "Проверка".to_owned()
    } else if same(key, "security.message") {
        "Описание".to_owned()
    } else if same(key, "audit.ssh_root.name") {
        "Доступ root через SSH".to_owned()
    } else if same(key, "audit.ssh_root.fail") {
        "Root-доступ разрешен по паролю/ключам (небезопасно)".to_owned()
    } else if same(key, "audit.ssh_root.pass") {
        "Доступ для root ограничен или отключен".to_owned()
    } else if same(key, "audit.ssh_config.warn") {
        "Не удалось прочитать конфиг sshd".to_owned()
    } else if same(key, "audit.ufw.name") {
        "Файрвол (UFW)".to_owned()
    } else if same(key, "audit.ufw.pass") {
        "UFW активен".to_owned()
    } else if same(key, "audit.ufw.fail") {
        "UFW отключен".to_owned()
    } else if same(key, "audit.ufw.warn") {
        "UFW не найден или недоступен".to_owned()
    } else if same(key, "audit.ufw.error") {
        "UFW найден, но команда не выполнена (возможно, недостаточно прав)".to_owned()
    } else if same(key, "audit.docker_sock.name") {
        "Права на Docker Socket".to_owned()
    } else if same(key, "audit.docker_sock.fail") {
        "Socket доступен всем на запись (опасно!)".to_owned()
    } else if same(key, "audit.docker_sock.pass") {
        "Права доступа выглядят безопасно".to_owned()
    } else if same(key, "audit.docker_sock.warn") {
        "Не удалось проверить /var/run/docker.sock".to_owned()
    } else if same(key, "audit.disk_enc.name") {
        "Шифрование диска".to_owned()
    } else if same(key, "audit.disk_enc.pass") {
        "Найдены зашифрованные разделы".to_owned()
    } else if same(key, "audit.disk_enc.warn") {
        "Зашифрованные разделы LUKS не найдены".to_owned()
    } else if same(key, "audit.disk_enc.error") {
        "Не удалось запустить lsblk".to_owned()
    } else if same(key, "audit.fail2ban.name") {
        "Fail2Ban".to_owned()
    } else if same(key, "audit.fail2ban.pass") {
        "Сервис активен".to_owned()
    } else if same(key, "audit.fail2ban.warn") {
        "Сервис не запущен".to_owned()
    } else if same(key, "audit.fail2ban.missing") {
        "Fail2Ban не установлен".to_owned()
    } else if same(key, "audit.ssh_passwd.name") {
        "SSH Password Auth".to_owned()
    } else if same(key, "audit.ssh_passwd.pass") {
        "Вход по паролю отключен".to_owned()
    } else if same(key, "audit.ssh_passwd.fail") {
        "Вход по паролю включен (небезопасно)".to_owned()
    } else if same(key, "audit.ports.name") {
        "Открытые порты".to_owned()
    } else if same(key, "audit.ports.pass") {
        "Подозрительных портов не найдено".to_owned()
    } else if same(key, "audit.ports.warn") {
        "Найдены лишние порты".to_owned()
    } else if same(key, "audit.ports.error") {
        "Ошибка сканирования портов".to_owned()
    } else {
        key.to_owned()
    }
}

/// `s` in lower case, as `str::to_lowercase` gives it.
pub uninterp spec fn lowercase(s: Seq<char>) -> Seq<char>;

/// The language for a request, from the `Accept-Language` header and the
/// agent's configured language, both in lower case: Russian where the header
/// has `ru` in it, English where it has `en`, else Russian where `ru` is
/// configured, else English.
pub open spec fn lang_of(accept: Option<Seq<char>>, configured: Option<Seq<char>>) -> Lang {
    if accept matches Some(header) && occurs("ru"@, header) {
        Lang::RU
    } else if accept matches Some(header) && occurs("en"@, header) {
        Lang::EN
    } else if configured == Some("ru"@) {
        Lang::RU
    } else {
        Lang::EN
    }
}

/// An optional text in lower case.
pub open spec fn lowercase_of(value: Option<&str>) -> Option<Seq<char>> {
    match value {
        Some(text) => Some(lowercase(text@)),
        None => None,
    }
}

/// A text in lower case, by std's `str::to_lowercase`, which goes by the
/// Unicode tables and is a function of the text alone.
#[verifier::external_body]
fn to_lowercase(s: &str) -> (out: String)
    ensures
        out@ == lowercase(s@),
{
    s.to_lowercase()
}

impl Lang {
    /// The language for a request, from the `Accept-Language` header and
    /// the agent's configured language, both already in lower case.
    pub fn from_lowercase(accept: Option<&str>, configured: Option<&str>) -> (lang: Lang)
        ensures
            lang == lang_of(str_of(accept), str_of(configured)),
    {
        match accept {
            Some(header) => {
                if contains(header, "ru") {
                    return Lang::RU;
                } else if contains(header, "en") {
                    return Lang::EN;
                }
            },
            None => {},
        }
        match configured {
            Some(name) => if same(name, "ru") {
                Lang::RU
            } else {
                Lang::EN
            },
            None => Lang::EN,
        }
    }

    /// The language for a request, from the `Accept-Language` header, where
    /// the request has one that reads as text, and the agent's configured
    /// language, where one is configured. Upper and lower case count alike.
    pub fn from_headers(accept_language: Option<&str>, configured: Option<&str>) -> (lang: Lang)
        ensures
            lang == lang_of(lowercase_of(accept_language), lowercase_of(configured)),
    {
        let accept: Option<String> = match accept_language {
            Some(text) => Some(to_lowercase(text)),
            None => None,
        };
        let agent: Option<String> = match configured {
            Some(text) => Some(to_lowercase(text)),
            None => None,
        };
        Self::from_lowercase(
            match &accept {
                Some(text) => Some(text.as_str()),
                None => None,
            },
            match &agent {
                Some(text) => Some(text.as_str()),
                None => None,
            },
        )
    }
}

/// The text of `key` in `lang`. A key the catalogue does not know is
/// returned as it is.
pub fn t(key: &str, lang: &Lang) -> (text: String)
    ensures
        text@ == wording(key@, *lang),
{
    match lang {
        Lang::RU => t_ru(key),
        Lang::EN => t_en(key),
    }
}

/// The text of `key` in `lang` with each `{val}` in it replaced by `val`.
pub fn t_val(key: &str, lang: &Lang, val: &str) -> (text: String)
    ensures
        text@ == replaced(wording(key@, *lang), "{val}"@, val@),
{
    let template = t(key, lang);
    replace(template.as_str(), "{val}", val)
}

} // verus!
