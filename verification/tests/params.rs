use gpapi::params::build_prelogin_params;
use gpapi::strutil::str_eq;
use gpapi::strutil::str_eq_ignore_case;

fn pairs(entries: &[(&str, &str)]) -> Vec<(String, String)> {
    entries.iter().map(|(k, v)| (k.to_string(), v.to_string())).collect()
}

fn value_of<'a>(assembled: &'a [(String, String)], key: &str) -> Option<&'a str> {
    assembled.iter().find(|(k, _)| k == key).map(|(_, v)| v.as_str())
}

#[test]
fn assembles_exactly_the_eight_required_keys() {
    let config = pairs(&[
        ("clientVer", "4100"),
        ("clientos", "Linux"),
        ("os-version", "Ubuntu 24.04"),
        ("host-id", "deadbeef"),
        ("ipv6-support", "yes"),
        ("extra", "dropped"),
        ("user-agent", "dropped too"),
    ]);
    let assembled = build_prelogin_params(&config);
    assert_eq!(assembled.len(), 8);
    assert_eq!(value_of(&assembled, "tmp"), Some("tmp"));
    assert_eq!(value_of(&assembled, "clientVer"), Some("4100"));
    assert_eq!(value_of(&assembled, "clientos"), Some("Linux"));
    assert_eq!(value_of(&assembled, "os-version"), Some("Ubuntu 24.04"));
    assert_eq!(value_of(&assembled, "host-id"), Some("deadbeef"));
    assert_eq!(value_of(&assembled, "ipv6-support"), Some("yes"));
    assert_eq!(value_of(&assembled, "default-browser"), Some("1"));
    assert_eq!(value_of(&assembled, "cas-support"), Some("yes"));
    assert_eq!(value_of(&assembled, "extra"), None);
}

#[test]
fn fixed_values_win_over_conflicting_configuration() {
    let config = pairs(&[
        ("tmp", "attacker"),
        ("default-browser", "0"),
        ("cas-support", "no"),
        ("clientos", "Windows"),
    ]);
    let assembled = build_prelogin_params(&config);
    assert_eq!(value_of(&assembled, "tmp"), Some("tmp"));
    assert_eq!(value_of(&assembled, "default-browser"), Some("1"));
    assert_eq!(value_of(&assembled, "cas-support"), Some("yes"));
    assert_eq!(value_of(&assembled, "clientos"), Some("Windows"));
}

#[test]
fn absent_optional_keys_vanish() {
    let config = pairs(&[("clientVer", "4100")]);
    let assembled = build_prelogin_params(&config);
    assert_eq!(assembled.len(), 4);
    assert_eq!(value_of(&assembled, "clientos"), None);
    assert_eq!(value_of(&assembled, "os-version"), None);
    assert_eq!(value_of(&assembled, "host-id"), None);
    assert_eq!(value_of(&assembled, "ipv6-support"), None);
}

#[test]
fn later_entry_for_a_key_wins() {
    let config = pairs(&[("clientos", "Linux"), ("clientos", "Mac")]);
    let assembled = build_prelogin_params(&config);
    assert_eq!(value_of(&assembled, "clientos"), Some("Mac"));
}

#[test]
fn empty_configuration_keeps_the_fixed_three() {
    let assembled = build_prelogin_params(&Vec::new());
    assert_eq!(assembled.len(), 3);
    assert_eq!(value_of(&assembled, "tmp"), Some("tmp"));
    assert_eq!(value_of(&assembled, "default-browser"), Some("1"));
    assert_eq!(value_of(&assembled, "cas-support"), Some("yes"));
}

#[test]
fn string_equality_helpers() {
    assert!(str_eq("clientos", "clientos"));
    assert!(!str_eq("clientos", "clientOS"));
    assert!(!str_eq("clientos", "clientos "));
    assert!(str_eq_ignore_case("SUCCESS", "Success"));
    assert!(str_eq_ignore_case("yes", "YES"));
    assert!(!str_eq_ignore_case("yes", "no"));
    assert!(!str_eq_ignore_case("yes", "yess"));
}
