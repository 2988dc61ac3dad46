use chatbridge::account::CoreOutcome;
use chatbridge::errors::ErrorKind;
use chatbridge::registry::Registry;

fn one_account() -> (Registry, u32) {
    let mut r = Registry::new();
    let a = r.add_account().unwrap();
    (r, a)
}

#[test]
fn failing_configure_on_fresh_account_leaves_io_stopped() {
    let (mut r, a) = one_account();
    r.configure_begin(a).unwrap();
    let err = r
        .configure_finish(a, CoreOutcome::Failed("bad credentials".to_string()))
        .unwrap_err();
    assert_eq!(err.kind, ErrorKind::CoreOperationFailed);
    assert_eq!(err.message, "bad credentials");
    assert_eq!(r.is_configured(a), Ok(false));
    assert_eq!(r.is_io_running(a), Ok(false));
}

#[test]
fn successful_configure_starts_io() {
    let (mut r, a) = one_account();
    r.configure_begin(a).unwrap();
    assert_eq!(r.is_io_running(a), Ok(false));
    r.configure_finish(a, CoreOutcome::Done).unwrap();
    assert_eq!(r.is_configured(a), Ok(true));
    assert_eq!(r.is_io_running(a), Ok(true));
}

#[test]
fn failing_reconfigure_restarts_io_of_configured_account() {
    let (mut r, a) = one_account();
    r.configure_begin(a).unwrap();
    r.configure_finish(a, CoreOutcome::Done).unwrap();

    // a later attempt fails: the account already worked once, so it is
    // brought back online rather than left stranded
    r.configure_begin(a).unwrap();
    assert_eq!(r.is_io_running(a), Ok(false));
    let err = r
        .configure_finish(a, CoreOutcome::Failed("server moved".to_string()))
        .unwrap_err();
    assert_eq!(err.kind, ErrorKind::CoreOperationFailed);
    assert_eq!(r.is_configured(a), Ok(true));
    assert_eq!(r.is_io_running(a), Ok(true));
}

#[test]
fn cancelled_configure_is_distinct_from_failure() {
    let (mut r, a) = one_account();
    r.configure_begin(a).unwrap();
    r.stop_ongoing_process(a).unwrap();
    assert_eq!(r.is_stop_requested(a), Ok(true));
    let err = r
        .configure_finish(a, CoreOutcome::Interrupted("stopped by user".to_string()))
        .unwrap_err();
    assert_eq!(err.kind, ErrorKind::Cancelled);
    assert_eq!(err.message, "stopped by user");
    assert_eq!(r.is_configured(a), Ok(false));
    assert_eq!(r.is_io_running(a), Ok(false));
}

#[test]
fn configure_begin_rearms_the_cancellation_flag() {
    let (mut r, a) = one_account();
    r.stop_ongoing_process(a).unwrap();
    assert_eq!(r.is_stop_requested(a), Ok(true));
    r.configure_begin(a).unwrap();
    assert_eq!(r.is_stop_requested(a), Ok(false));
}

#[test]
fn example_scenario_invalid_credentials() {
    // create account, set the address, try to configure with credentials
    // the core rejects: the failure is passed through, I/O stays stopped,
    // the account stays unconfigured
    let mut r = Registry::new();
    let a = r.add_account().unwrap();
    r.set_config(a, "addr", Some("a@example.org".to_string())).unwrap();
    assert_eq!(r.is_configured(a), Ok(false));

    r.configure_begin(a).unwrap();
    let err = r
        .configure_finish(a, CoreOutcome::Failed("invalid credentials".to_string()))
        .unwrap_err();
    assert_eq!(err.kind, ErrorKind::CoreOperationFailed);
    assert_eq!(err.message, "invalid credentials");
    assert_eq!(r.is_io_running(a), Ok(false));
    assert_eq!(r.is_configured(a), Ok(false));
    // the configuration set before the attempt is still there
    assert_eq!(r.get_config(a, "addr"), Ok(Some("a@example.org".to_string())));
}
