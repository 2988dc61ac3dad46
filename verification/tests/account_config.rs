use chatbridge::errors::ErrorKind;
use chatbridge::registry::Registry;

fn one_account() -> (Registry, u32) {
    let mut r = Registry::new();
    let a = r.add_account().unwrap();
    (r, a)
}

#[test]
fn set_and_get_known_key() {
    let (mut r, a) = one_account();
    assert_eq!(r.set_config(a, "addr", Some("a@example.org".to_string())), Ok(false));
    assert_eq!(r.get_config(a, "addr"), Ok(Some("a@example.org".to_string())));
    // the last write wins
    assert_eq!(r.set_config(a, "addr", Some("b@example.org".to_string())), Ok(false));
    assert_eq!(r.get_config(a, "addr"), Ok(Some("b@example.org".to_string())));
    // other keys are untouched
    assert_eq!(r.get_config(a, "mail_pw"), Ok(None));
}

#[test]
fn clearing_a_key_removes_its_value() {
    let (mut r, a) = one_account();
    r.set_config(a, "displayname", Some("Bob".to_string())).unwrap();
    assert_eq!(r.get_config(a, "displayname"), Ok(Some("Bob".to_string())));
    assert_eq!(r.set_config(a, "displayname", None), Ok(false));
    assert_eq!(r.get_config(a, "displayname"), Ok(None));
}

#[test]
fn unknown_key_is_rejected_without_effect() {
    let (mut r, a) = one_account();
    assert_eq!(
        r.set_config(a, "no_such_key", Some("x".to_string())),
        Err(ErrorKind::UnknownConfigKey)
    );
    assert_eq!(r.get_config(a, "no_such_key"), Err(ErrorKind::UnknownConfigKey));
}

#[test]
fn ui_namespace_is_opaque_passthrough() {
    let (mut r, a) = one_account();
    // any key under the reserved prefix is stored without validation
    assert_eq!(r.set_config(a, "ui.desktop.theme", Some("dark".to_string())), Ok(false));
    assert_eq!(r.get_config(a, "ui.desktop.theme"), Ok(Some("dark".to_string())));
    assert_eq!(r.get_config(a, "ui.other"), Ok(None));
    // the bare prefix is itself a UI key; two characters are not
    assert_eq!(r.set_config(a, "ui.", Some("v".to_string())), Ok(false));
    assert_eq!(r.get_config(a, "ui"), Err(ErrorKind::UnknownConfigKey));
}

#[test]
fn mailbox_watch_keys_demand_io_restart() {
    let (mut r, a) = one_account();
    assert_eq!(r.set_config(a, "sentbox_watch", Some("1".to_string())), Ok(true));
    assert_eq!(r.set_config(a, "mvbox_move", Some("0".to_string())), Ok(true));
    assert_eq!(r.set_config(a, "only_fetch_mvbox", None), Ok(true));
    assert_eq!(r.set_config(a, "addr", Some("x@y.example".to_string())), Ok(false));
}

#[test]
fn batch_set_applies_all_pairs_in_order() {
    let (mut r, a) = one_account();
    let pairs = vec![
        ("addr".to_string(), Some("a@example.org".to_string())),
        ("mail_pw".to_string(), Some("pw1".to_string())),
        ("addr".to_string(), Some("late@example.org".to_string())),
        ("ui.theme".to_string(), Some("light".to_string())),
    ];
    assert_eq!(r.batch_set_config(a, &pairs).unwrap(), false);
    assert_eq!(r.get_config(a, "addr"), Ok(Some("late@example.org".to_string())));
    assert_eq!(r.get_config(a, "mail_pw"), Ok(Some("pw1".to_string())));
    assert_eq!(r.get_config(a, "ui.theme"), Ok(Some("light".to_string())));
}

#[test]
fn batch_set_reports_restart_when_a_watch_key_moved() {
    let (mut r, a) = one_account();
    let pairs = vec![
        ("addr".to_string(), Some("a@example.org".to_string())),
        ("mvbox_move".to_string(), Some("1".to_string())),
    ];
    assert_eq!(r.batch_set_config(a, &pairs).unwrap(), true);
}

#[test]
fn batch_set_aborts_on_first_unknown_key_keeping_prefix() {
    let (mut r, a) = one_account();
    let pairs = vec![
        ("addr".to_string(), Some("kept@example.org".to_string())),
        ("bogus_key".to_string(), Some("x".to_string())),
        ("mail_pw".to_string(), Some("never-applied".to_string())),
    ];
    let err = r.batch_set_config(a, &pairs).unwrap_err();
    assert_eq!(err.kind, ErrorKind::UnknownConfigKey);
    // the failure names the offending key as context
    assert_eq!(err.message, "bogus_key");
    // the prefix before it stays applied, the rest was never touched
    assert_eq!(r.get_config(a, "addr"), Ok(Some("kept@example.org".to_string())));
    assert_eq!(r.get_config(a, "mail_pw"), Ok(None));
}

#[test]
fn the_key_table_is_exactly_the_known_names() {
    let known = [
        "addr",
        "mail_server",
        "mail_user",
        "mail_pw",
        "mail_port",
        "send_server",
        "send_user",
        "send_pw",
        "send_port",
        "displayname",
        "selfstatus",
        "selfavatar",
        "bcc_self",
        "e2ee_enabled",
        "mdns_enabled",
        "sentbox_watch",
        "mvbox_move",
        "only_fetch_mvbox",
        "socks5_enabled",
    ];
    for key in known {
        assert!(chatbridge::config::parse_key(key).is_some(), "{key} must be known");
    }
    assert!(chatbridge::config::parse_key("Addr").is_none());
    assert!(chatbridge::config::parse_key("addr ").is_none());
    assert!(chatbridge::config::parse_key("ui.addr").is_none());
    assert!(chatbridge::config::is_ui_key("ui.addr"));
    assert!(!chatbridge::config::is_ui_key("addr"));
}

#[test]
fn batch_get_collects_one_result_per_key() {
    let (mut r, a) = one_account();
    r.set_config(a, "addr", Some("a@example.org".to_string())).unwrap();
    let keys = vec!["addr".to_string(), "bogus_key".to_string(), "mail_pw".to_string()];
    let out = r.batch_get_config(a, &keys).unwrap();
    assert_eq!(out.len(), 3);
    assert_eq!(out[0].0, "addr");
    assert_eq!(out[0].1, Ok(Some("a@example.org".to_string())));
    // an unknown key yields its own embedded error entry, not an abort
    assert_eq!(out[1].0, "bogus_key");
    assert_eq!(out[1].1, Err(ErrorKind::UnknownConfigKey));
    assert_eq!(out[2].0, "mail_pw");
    assert_eq!(out[2].1, Ok(None));
}
