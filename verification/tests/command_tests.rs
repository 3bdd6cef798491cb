use scxctl::command::{
    contains_name, ensure_can_start, ensure_can_switch, parse_current, plan_start, resolve_mode,
    sched_is_running, strip_all, validate_sched, CmdError,
};
use scxctl::sched::{Mode, Sched};

fn daemon_list() -> Vec<String> {
    vec![
        String::from("scx_bpfland"),
        String::from("scx_rusty"),
        String::from("scx_lavd"),
    ]
}

#[test]
fn running_state_from_reported_name() {
    assert!(!sched_is_running(&String::from("unknown")));
    assert!(sched_is_running(&String::from("scx_rusty")));
    assert!(sched_is_running(&String::from("")));
}

#[test]
fn start_allowed_only_while_idle() {
    assert!(ensure_can_start(&String::from("unknown")).is_ok());
    let e = ensure_can_start(&String::from("scx_rusty")).unwrap_err();
    assert!(matches!(e, CmdError::AlreadyRunning));
    assert_eq!(
        e.message(),
        "Scx scheduler already running. Use 'switch' instead of 'start'"
    );
}

#[test]
fn switch_allowed_only_while_running() {
    assert!(ensure_can_switch(&String::from("scx_rusty")).is_ok());
    let e = ensure_can_switch(&String::from("unknown")).unwrap_err();
    assert!(matches!(e, CmdError::NotRunning));
    assert_eq!(
        e.message(),
        "No scx scheduler running. Use 'start' instead of 'switch'"
    );
}

#[test]
fn current_scheduler_parses_or_reports() {
    assert_eq!(parse_current(&String::from("scx_lavd")).unwrap(), Sched::Lavd);
    let e = parse_current(&String::from("scx_mystery")).unwrap_err();
    assert_eq!(e.message(), "Failed to parse current scheduler 'scx_mystery'");
}

#[test]
fn strip_all_strips_each_name() {
    let stripped = strip_all(&daemon_list());
    assert_eq!(stripped, vec!["bpfland", "rusty", "lavd"]);
}

#[test]
fn contains_name_finds_exact_entries() {
    let list = daemon_list();
    assert!(contains_name(&list, &String::from("scx_rusty")));
    assert!(!contains_name(&list, &String::from("rusty")));
    assert!(!contains_name(&Vec::new(), &String::from("rusty")));
}

#[test]
fn validate_accepts_raw_name() {
    let s = validate_sched(&String::from("scx_rusty"), &daemon_list()).unwrap();
    assert_eq!(s, Sched::Rusty);
}

#[test]
fn validate_accepts_stripped_name() {
    let s = validate_sched(&String::from("bpfland"), &daemon_list()).unwrap();
    assert_eq!(s, Sched::Bpfland);
}

#[test]
fn validate_rejects_unlisted_name() {
    let e = validate_sched(&String::from("flash"), &daemon_list()).unwrap_err();
    assert_eq!(
        e.message(),
        "Invalid scheduler 'flash'. Supported schedulers: [\"bpfland\", \"rusty\", \"lavd\"]"
    );
}

#[test]
fn validate_reports_listed_but_unknown_name() {
    let list = vec![String::from("scx_custom")];
    let e = validate_sched(&String::from("custom"), &list).unwrap_err();
    assert!(matches!(e, CmdError::UnknownScheduler { .. }));
    assert_eq!(e.message(), "Failed to parse scheduler 'custom'");
}

#[test]
fn resolve_mode_prefers_request() {
    assert_eq!(resolve_mode(Some(Mode::Gaming), Mode::Auto), Mode::Gaming);
    assert_eq!(resolve_mode(None, Mode::Server), Mode::Server);
}

#[test]
fn plan_start_defaults_to_auto_mode() {
    let p = plan_start(&String::from("rusty"), None, None, &daemon_list()).unwrap();
    assert_eq!(p.sched, Sched::Rusty);
    assert_eq!(p.mode, Mode::Auto);
    assert!(p.args.is_none());
}

#[test]
fn plan_start_keeps_requested_mode_and_args() {
    let args = vec![String::from("--slice-us"), String::from("5000")];
    let p = plan_start(
        &String::from("scx_lavd"),
        Some(Mode::PowerSave),
        Some(args.clone()),
        &daemon_list(),
    )
    .unwrap();
    assert_eq!(p.sched, Sched::Lavd);
    assert_eq!(p.mode, Mode::PowerSave);
    assert_eq!(p.args, Some(args));
}

#[test]
fn plan_start_rejects_invalid_name() {
    let e = plan_start(&String::from("tickless"), None, None, &daemon_list()).unwrap_err();
    assert!(matches!(e, CmdError::InvalidScheduler { .. }));
}
