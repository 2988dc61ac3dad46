use chatbridge::errors::ErrorKind;
use chatbridge::registry::Registry;

#[test]
fn created_account_is_listed() {
    let mut r = Registry::new();
    assert_eq!(r.get_all_account_ids(), Vec::<u32>::new());
    let a = r.add_account().unwrap();
    assert!(r.get_all_account_ids().contains(&a));
    let b = r.add_account().unwrap();
    assert_eq!(r.get_all_account_ids(), vec![a, b]);
    assert_ne!(a, b);
}

#[test]
fn removed_account_is_gone_and_rejected() {
    let mut r = Registry::new();
    let a = r.add_account().unwrap();
    let b = r.add_account().unwrap();
    assert_eq!(r.remove_account(a), Ok(()));
    assert!(!r.get_all_account_ids().contains(&a));
    assert_eq!(r.get_all_account_ids(), vec![b]);
    // every later call naming the dead identifier is refused
    assert_eq!(r.remove_account(a), Err(ErrorKind::AccountNotFound));
    assert_eq!(r.is_configured(a), Err(ErrorKind::AccountNotFound));
    assert_eq!(r.get_config(a, "addr"), Err(ErrorKind::AccountNotFound));
    assert_eq!(r.select_account(a), Err(ErrorKind::AccountNotFound));
    assert_eq!(r.stop_ongoing_process(a), Err(ErrorKind::AccountNotFound));
    assert_eq!(r.configure_begin(a), Err(ErrorKind::AccountNotFound));
}

#[test]
fn identifiers_are_never_reused() {
    let mut r = Registry::new();
    let a = r.add_account().unwrap();
    let b = r.add_account().unwrap();
    r.remove_account(b).unwrap();
    let c = r.add_account().unwrap();
    assert_ne!(c, a);
    assert_ne!(c, b);
    r.remove_account(a).unwrap();
    let d = r.add_account().unwrap();
    assert_ne!(d, a);
    assert_eq!(r.get_all_account_ids(), vec![c, d]);
}

#[test]
fn fresh_account_starts_blank() {
    let mut r = Registry::new();
    let a = r.add_account().unwrap();
    assert_eq!(r.is_configured(a), Ok(false));
    assert_eq!(r.is_io_running(a), Ok(false));
    assert_eq!(r.is_stop_requested(a), Ok(false));
    assert_eq!(r.get_config(a, "addr"), Ok(None));
}

#[test]
fn selection_follows_the_account_set() {
    let mut r = Registry::new();
    assert_eq!(r.get_selected_account_id(), None);
    let a = r.add_account().unwrap();
    let b = r.add_account().unwrap();
    assert_eq!(r.select_account(a), Ok(()));
    assert_eq!(r.get_selected_account_id(), Some(a));
    assert_eq!(r.select_account(b), Ok(()));
    assert_eq!(r.get_selected_account_id(), Some(b));
    // removing the selected account clears the selection
    r.remove_account(b).unwrap();
    assert_eq!(r.get_selected_account_id(), None);
    // removing another account keeps it
    r.select_account(a).unwrap();
    let c = r.add_account().unwrap();
    r.remove_account(c).unwrap();
    assert_eq!(r.get_selected_account_id(), Some(a));
}

#[test]
fn account_listing_reflects_each_account() {
    let mut r = Registry::new();
    let a = r.add_account().unwrap();
    let b = r.add_account().unwrap();
    r.set_config(a, "addr", Some("a@example.org".to_string())).unwrap();
    r.set_config(a, "displayname", Some("Alice".to_string())).unwrap();

    let info = r.get_account_info(a).unwrap();
    assert_eq!(info.id, a);
    assert_eq!(info.configured, false);
    assert_eq!(info.addr, Some("a@example.org".to_string()));
    assert_eq!(info.display_name, Some("Alice".to_string()));

    let all = r.get_all_accounts();
    assert_eq!(all.len(), 2);
    assert_eq!(all[0].id, a);
    assert_eq!(all[0].addr, Some("a@example.org".to_string()));
    assert_eq!(all[1].id, b);
    assert_eq!(all[1].addr, None);

    r.remove_account(a).unwrap();
    assert_eq!(r.get_account_info(a).unwrap_err(), ErrorKind::AccountNotFound);
}

#[test]
fn provider_lookup_params_combine_domain_and_proxy() {
    let mut r = Registry::new();
    let a = r.add_account().unwrap();
    assert_eq!(
        r.provider_lookup_params(a, "user@example.org"),
        Ok(("example.org".to_string(), false))
    );
    r.set_config(a, "socks5_enabled", Some("1".to_string())).unwrap();
    assert_eq!(
        r.provider_lookup_params(a, "user@example.org"),
        Ok(("example.org".to_string(), true))
    );
    r.set_config(a, "socks5_enabled", Some("0".to_string())).unwrap();
    assert_eq!(
        r.provider_lookup_params(a, "example.org"),
        Ok(("example.org".to_string(), false))
    );
}

#[test]
fn account_work_leaves_registry_reads_alone() {
    let mut r = Registry::new();
    let a = r.add_account().unwrap();
    let b = r.add_account().unwrap();
    r.select_account(b).unwrap();
    let listed_before = r.get_all_account_ids();

    // a long operation on `a` is in flight: between its begin and finish
    // steps a registry read sees exactly the same accounts and selection
    r.configure_begin(a).unwrap();
    assert_eq!(r.get_all_account_ids(), listed_before);
    assert_eq!(r.get_selected_account_id(), Some(b));
    assert_eq!(r.is_configured(b), Ok(false));
    let outcome = chatbridge::account::CoreOutcome::Failed("auth failed".to_string());
    let _ = r.configure_finish(a, outcome);
    assert_eq!(r.get_all_account_ids(), listed_before);
    assert_eq!(r.get_selected_account_id(), Some(b));
}
