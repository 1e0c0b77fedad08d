use terminal_rendezvous::coordinator::{
    start, step, AcquisitionError, Action, Config, CoordState, Event, ACQUISITION_DEADLINE_SECS,
};
use terminal_rendezvous::handle::Platform;
use terminal_rendezvous::identity::{parse_decimal_u32, trim_line};
use terminal_rendezvous::request::port_decimal;

fn config(clear: Option<Vec<String>>) -> Config {
    Config {
        terminal_kind: "integrated".to_string(),
        title: "debug session".to_string(),
        clear_sequence: clear,
        executable: "/usr/bin/debugger".to_string(),
        platform: Platform::DevicePaths,
    }
}

#[test]
fn start_without_clear_binds_first() {
    let cfg = config(None);
    let (state, action) = start(&cfg);
    assert_eq!(state, CoordState::BindPending);
    assert!(matches!(action, Action::BindListener));
}

#[test]
fn start_with_clear_sends_clear_first() {
    let cfg = config(Some(vec!["clear".to_string()]));
    let (state, action) = start(&cfg);
    assert_eq!(state, CoordState::ClearPending);
    match action {
        Action::SendClear(req) => {
            assert_eq!(req.args, vec!["clear".to_string()]);
            assert_eq!(req.kind, "integrated");
            assert_eq!(req.title, "debug session");
            assert_eq!(req.cwd, "");
            assert!(req.env.is_none());
        },
        _ => panic!("expected a clear request"),
    }
}

#[test]
fn clear_failure_aborts_without_binding() {
    let cfg = config(Some(vec!["clear".to_string()]));
    let (state, _) = start(&cfg);
    let (state, action) = step(&cfg, state, Event::ClearFailed);
    assert_eq!(state, CoordState::Finished);
    assert!(matches!(action, Action::Fail(AcquisitionError::ClearCommandFailed)));
}

#[test]
fn clear_success_goes_on_to_bind() {
    let cfg = config(Some(vec!["clear".to_string()]));
    let (state, _) = start(&cfg);
    let (state, action) = step(&cfg, state, Event::ClearDone);
    assert_eq!(state, CoordState::BindPending);
    assert!(matches!(action, Action::BindListener));
}

#[test]
fn bind_failure_is_local_bind_failed_not_timeout() {
    let cfg = config(None);
    let (state, _) = start(&cfg);
    let (state, action) = step(&cfg, state, Event::BindFailed);
    assert_eq!(state, CoordState::Finished);
    assert!(matches!(action, Action::Fail(AcquisitionError::LocalBindFailed)));
}

#[test]
fn bound_listener_dispatches_agent_command_line() {
    let cfg = config(None);
    let (state, _) = start(&cfg);
    let (state, action) = step(&cfg, state, Event::Bound(38401));
    assert_eq!(state, CoordState::Rendezvous);
    match action {
        Action::DispatchRun(req) => {
            assert_eq!(
                req.args,
                vec![
                    "/usr/bin/debugger".to_string(),
                    "terminal-agent".to_string(),
                    "--connect=38401".to_string(),
                ]
            );
            assert_eq!(req.kind, "integrated");
            assert_eq!(req.title, "debug session");
            assert_eq!(req.cwd, "");
            assert!(req.env.is_none());
        },
        _ => panic!("expected a run dispatch"),
    }
}

#[test]
fn deadline_in_every_pending_state_is_timeout() {
    let cfg = config(Some(vec!["clear".to_string()]));
    for s in [
        CoordState::ClearPending,
        CoordState::BindPending,
        CoordState::Rendezvous,
        CoordState::Draining,
    ] {
        let (state, action) = step(&cfg, s, Event::DeadlineExpired);
        assert_eq!(state, CoordState::Finished);
        assert!(matches!(action, Action::Fail(AcquisitionError::Timeout)));
    }
}

#[test]
fn io_failure_while_accepting_or_reading_is_io_failure() {
    let cfg = config(None);
    let (state, action) = step(&cfg, CoordState::Rendezvous, Event::IoFailed);
    assert_eq!(state, CoordState::Finished);
    assert!(matches!(action, Action::Fail(AcquisitionError::IoFailure)));
}

#[test]
fn empty_helper_line_is_no_success_and_then_times_out() {
    let cfg = config(None);
    let (state, action) = step(&cfg, CoordState::Rendezvous, Event::HelperLine(String::new()));
    assert_eq!(state, CoordState::Draining);
    assert!(matches!(action, Action::AwaitDeadline));
    let (state, action) = step(&cfg, state, Event::DeadlineExpired);
    assert_eq!(state, CoordState::Finished);
    assert!(matches!(action, Action::Fail(AcquisitionError::Timeout)));
}

#[test]
fn helper_line_with_newline_succeeds_trimmed() {
    let cfg = config(None);
    let (state, action) = step(
        &cfg,
        CoordState::Rendezvous,
        Event::HelperLine("/dev/pts/7\n".to_string()),
    );
    assert_eq!(state, CoordState::Finished);
    match action {
        Action::Succeed(identity) => assert_eq!(identity, "/dev/pts/7"),
        _ => panic!("expected success"),
    }
}

#[test]
fn acquisition_deadline_is_five_minutes() {
    assert_eq!(ACQUISITION_DEADLINE_SECS, 300);
}

#[test]
fn trim_strips_both_ends_only() {
    assert_eq!(trim_line("  /dev/pts/7 \r\n"), "/dev/pts/7");
    assert_eq!(trim_line("/dev/pts/7"), "/dev/pts/7");
    assert_eq!(trim_line("\n"), "");
    assert_eq!(trim_line(""), "");
    assert_eq!(trim_line("a b\tc\n"), "a b\tc");
    assert_eq!(trim_line("\t 1234\n"), "1234");
}

#[test]
fn parse_pid_accepts_exactly_decimal_u32() {
    assert_eq!(parse_decimal_u32("123"), Some(123));
    assert_eq!(parse_decimal_u32("0"), Some(0));
    assert_eq!(parse_decimal_u32("007"), Some(7));
    assert_eq!(parse_decimal_u32("4294967295"), Some(u32::MAX));
    assert_eq!(parse_decimal_u32("4294967296"), None);
    assert_eq!(parse_decimal_u32("99999999999999999999"), None);
    assert_eq!(parse_decimal_u32(""), None);
    assert_eq!(parse_decimal_u32("12a"), None);
    assert_eq!(parse_decimal_u32("-5"), None);
    assert_eq!(parse_decimal_u32("/dev/pts/7"), None);
}

#[test]
fn port_decimal_formats_exactly() {
    assert_eq!(port_decimal(0), "0");
    assert_eq!(port_decimal(7), "7");
    assert_eq!(port_decimal(38401), "38401");
    assert_eq!(port_decimal(65535), "65535");
}

#[test]
fn formatted_port_parses_back() {
    for p in [0u16, 1, 9, 10, 80, 1024, 38401, 65535] {
        assert_eq!(parse_decimal_u32(&port_decimal(p)), Some(p as u32));
    }
}
