use mini_ops::i18n::{t, t_val, Lang};

#[test]
fn known_key_has_its_text() {
    assert_eq!(t("security.check", &Lang::EN), "Check");
    assert_eq!(t("security.check", &Lang::RU), "Проверка");
    assert_eq!(t("security.resolved", &Lang::EN), "✅ Security Issue Resolved");
    assert_eq!(t("audit.ufw.name", &Lang::RU), "Файрвол (UFW)");
}

#[test]
fn unknown_key_stands_for_itself() {
    assert_eq!(t("no.such.key", &Lang::EN), "no.such.key");
    assert_eq!(t("no.such.key", &Lang::RU), "no.such.key");
    assert_eq!(t("", &Lang::EN), "");
}

#[test]
fn value_is_filled_in() {
    assert_eq!(t_val("alert.critical_cpu", &Lang::EN, "97.5"), "Critical CPU usage: 97.5%");
    assert_eq!(t_val("alert.low_disk", &Lang::RU, "91.0"), "Мало места на диске: 91.0% занято");
}

#[test]
fn value_is_ignored_where_the_text_has_no_place_for_it() {
    assert_eq!(t_val("security.check", &Lang::EN, "x"), "Check");
    assert_eq!(t_val("a {val} b {val}", &Lang::EN, "7"), "a 7 b 7");
}

#[test]
fn header_decides_the_language() {
    assert_eq!(Lang::from_headers(Some("ru-RU,ru;q=0.9"), None), Lang::RU);
    assert_eq!(Lang::from_headers(Some("en-US,en;q=0.9"), Some("ru")), Lang::EN);
    assert_eq!(Lang::from_headers(Some("EN-us, RU"), None), Lang::RU);
}

#[test]
fn header_in_capitals_counts() {
    assert_eq!(Lang::from_headers(Some("RU"), None), Lang::RU);
    assert_eq!(Lang::from_lowercase(Some("RU"), None), Lang::EN);
}

#[test]
fn configured_language_is_the_fallback() {
    assert_eq!(Lang::from_headers(None, Some("RU")), Lang::RU);
    assert_eq!(Lang::from_headers(Some("de"), Some("ru")), Lang::RU);
    assert_eq!(Lang::from_headers(Some("de"), Some("russian")), Lang::EN);
    assert_eq!(Lang::from_headers(None, None), Lang::EN);
}
