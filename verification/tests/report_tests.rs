use scxctl::command::SchedRequest;
use scxctl::report::{
    idle_line, list_line, restarted_line, running_args_line, running_mode_line, started_line,
    stopped_line, switched_line,
};
use scxctl::sched::{Mode, Sched};
use scxctl::text::{format_quoted_list, join_space};

#[test]
fn idle_line_exact() {
    assert_eq!(idle_line(), "no scx scheduler running");
}

#[test]
fn running_mode_line_exact() {
    assert_eq!(
        running_mode_line(&Sched::Bpfland, &Mode::Auto),
        "running Bpfland in Auto mode"
    );
    assert_eq!(
        running_mode_line(&Sched::P2dq, &Mode::LowLatency),
        "running P2DQ in LowLatency mode"
    );
}

#[test]
fn running_args_line_exact() {
    let args = vec![String::from("--verbose"), String::from("--foo=1")];
    assert_eq!(
        running_args_line(&Sched::Rusty, &args),
        "running Rusty with arguments \"--verbose --foo=1\""
    );
}

#[test]
fn running_args_line_empty_args() {
    assert_eq!(
        running_args_line(&Sched::Rusty, &Vec::new()),
        "running Rusty with arguments \"\""
    );
}

#[test]
fn list_line_exact() {
    let raw = vec![String::from("scx_bpfland"), String::from("scx_rusty")];
    assert_eq!(
        list_line(&raw),
        "supported schedulers: [\"bpfland\", \"rusty\"]"
    );
}

#[test]
fn list_line_empty() {
    assert_eq!(list_line(&Vec::new()), "supported schedulers: []");
}

#[test]
fn started_line_with_mode() {
    let p = SchedRequest { sched: Sched::Lavd, mode: Mode::Gaming, args: None };
    assert_eq!(started_line(&p), "started Lavd in Gaming mode");
}

#[test]
fn started_line_with_args() {
    let p = SchedRequest {
        sched: Sched::Lavd,
        mode: Mode::Auto,
        args: Some(vec![String::from("-v")]),
    };
    assert_eq!(started_line(&p), "started Lavd with arguments \"-v\"");
}

#[test]
fn switched_line_with_mode() {
    let p = SchedRequest { sched: Sched::Flash, mode: Mode::Server, args: None };
    assert_eq!(switched_line(&p), "switched to Flash in Server mode");
}

#[test]
fn switched_line_with_args() {
    let p = SchedRequest {
        sched: Sched::Flash,
        mode: Mode::Auto,
        args: Some(vec![String::from("-a"), String::from("-b")]),
    };
    assert_eq!(switched_line(&p), "switched to Flash with arguments \"-a -b\"");
}

#[test]
fn stop_and_restart_lines() {
    assert_eq!(stopped_line(), "stopped");
    assert_eq!(restarted_line(), "restarted");
}

#[test]
fn join_space_examples() {
    assert_eq!(join_space(&Vec::new()), "");
    assert_eq!(join_space(&vec![String::from("one")]), "one");
    assert_eq!(
        join_space(&vec![String::from("a"), String::from("b"), String::from("c")]),
        "a b c"
    );
}

#[test]
fn format_quoted_list_examples() {
    assert_eq!(format_quoted_list(&Vec::new()), "[]");
    assert_eq!(format_quoted_list(&vec![String::from("x")]), "[\"x\"]");
    assert_eq!(
        format_quoted_list(&vec![String::from("x"), String::from("y")]),
        "[\"x\", \"y\"]"
    );
}
