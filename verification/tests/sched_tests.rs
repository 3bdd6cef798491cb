use scxctl::sched::{full_name, mode_display, parse_mode, parse_sched, sched_display, Mode, Sched};

const ALL_SCHEDS: [Sched; 14] = [
    Sched::Bpfland,
    Sched::Rusty,
    Sched::Lavd,
    Sched::Flash,
    Sched::P2dq,
    Sched::Tickless,
    Sched::Rustland,
    Sched::Cosmos,
    Sched::Beerland,
    Sched::Cake,
    Sched::Pandemonium,
    Sched::Flow,
    Sched::Forge,
    Sched::Mlfq,
];

#[test]
fn full_names_are_prefixed() {
    for s in ALL_SCHEDS {
        assert!(full_name(&s).starts_with("scx_"));
    }
}

#[test]
fn parse_inverts_full_name() {
    for s in ALL_SCHEDS {
        assert_eq!(parse_sched(full_name(&s).as_str()), Some(s));
    }
}

#[test]
fn parse_known_names() {
    assert_eq!(parse_sched("scx_bpfland"), Some(Sched::Bpfland));
    assert_eq!(parse_sched("scx_rusty"), Some(Sched::Rusty));
    assert_eq!(parse_sched("scx_mlfq"), Some(Sched::Mlfq));
}

#[test]
fn parse_rejects_unknown_names() {
    assert_eq!(parse_sched("rusty"), None);
    assert_eq!(parse_sched("scx_nosuch"), None);
    assert_eq!(parse_sched(""), None);
    assert_eq!(parse_sched("SCX_RUSTY"), None);
}

#[test]
fn display_names_exact() {
    assert_eq!(sched_display(&Sched::Bpfland), "Bpfland");
    assert_eq!(sched_display(&Sched::P2dq), "P2DQ");
    assert_eq!(sched_display(&Sched::Mlfq), "MLFQ");
    assert_eq!(sched_display(&Sched::Rustland), "Rustland");
}

#[test]
fn mode_display_exact() {
    assert_eq!(mode_display(&Mode::Auto), "Auto");
    assert_eq!(mode_display(&Mode::Gaming), "Gaming");
    assert_eq!(mode_display(&Mode::PowerSave), "PowerSave");
    assert_eq!(mode_display(&Mode::LowLatency), "LowLatency");
    assert_eq!(mode_display(&Mode::Server), "Server");
}

#[test]
fn mode_parse_labels() {
    assert_eq!(parse_mode("auto"), Some(Mode::Auto));
    assert_eq!(parse_mode("gaming"), Some(Mode::Gaming));
    assert_eq!(parse_mode("powersave"), Some(Mode::PowerSave));
    assert_eq!(parse_mode("lowlatency"), Some(Mode::LowLatency));
    assert_eq!(parse_mode("server"), Some(Mode::Server));
    assert_eq!(parse_mode("fast"), None);
    assert_eq!(parse_mode(""), None);
}
