//! The schedulers and scheduler modes that the loader daemon knows.
//!
//! The daemon identifies a scheduler by its full name (`scx_bpfland`, ...)
//! and a mode by a small label. The client holds both as plain enums, with
//! the exact tables that relate a value to its full name, its display name,
//! and the label it is parsed from.

use vstd::prelude::*;
use crate::text::str_eq;

verus! {

/// A scheduler the loader daemon can run.
#[derive(Clone, Copy, Debug, PartialEq, Eq, Structural)]
pub enum Sched {
    Bpfland,
    Rusty,
    Lavd,
    Flash,
    P2dq,
    Tickless,
    Rustland,
    Cosmos,
    Beerland,
    Cake,
    Pandemonium,
    Flow,
    Forge,
    Mlfq,
}

/// A mode a scheduler can be started in.
#[derive(Clone, Copy, Debug, PartialEq, Eq, Structural)]
pub enum Mode {
    Auto,
    Gaming,
    PowerSave,
    LowLatency,
    Server,
}

/// The full, prefixed name of a scheduler, as the daemon reports it.
pub open spec fn spec_full_name(s: Sched) -> Seq<char> {
    match s {
        Sched::Bpfland => "scx_bpfland"@,
        Sched::Rusty => "scx_rusty"@,
        Sched::Lavd => "scx_lavd"@,
        Sched::Flash => "scx_flash"@,
        Sched::P2dq => "scx_p2dq"@,
        Sched::Tickless => "scx_tickless"@,
        Sched::Rustland => "scx_rustland"@,
        Sched::Cosmos => "scx_cosmos"@,
        Sched::Beerland => "scx_beerland"@,
        Sched::Cake => "scx_cake"@,
        Sched::Pandemonium => "scx_pandemonium"@,
        Sched::Flow => "scx_flow"@,
        Sched::Forge => "scx_forge"@,
        Sched::Mlfq => "scx_mlfq"@,
    }
}

/// The name a scheduler is displayed under in status lines.
pub open spec fn spec_sched_display(s: Sched) -> Seq<char> {
    match s {
        Sched::Bpfland => "Bpfland"@,
        Sched::Rusty => "Rusty"@,
        Sched::Lavd => "Lavd"@,
        Sched::Flash => "Flash"@,
        Sched::P2dq => "P2DQ"@,
        Sched::Tickless => "Tickless"@,
        Sched::Rustland => "Rustland"@,
        Sched::Cosmos => "Cosmos"@,
        Sched::Beerland => "Beerland"@,
        Sched::Cake => "Cake"@,
        Sched::Pandemonium => "Pandemonium"@,
        Sched::Flow => "Flow"@,
        Sched::Forge => "Forge"@,
        Sched::Mlfq => "MLFQ"@,
    }
}

/// The scheduler a full name stands for, if any.
pub open spec fn spec_parse_sched(name: Seq<char>) -> Option<Sched> {
    if name == "scx_bpfland"@ {
        Some(Sched::Bpfland)
    } else if name == "scx_rusty"@ {
        Some(Sched::Rusty)
    } else if name == "scx_lavd"@ {
        Some(Sched::Lavd)
    } else if name == "scx_flash"@ {
        Some(Sched::Flash)
    } else if name == "scx_p2dq"@ {
        Some(Sched::P2dq)
    } else if name == "scx_tickless"@ {
        Some(Sched::Tickless)
    } else if name == "scx_rustland"@ {
        Some(Sched::Rustland)
    } else if name == "scx_cosmos"@ {
        Some(Sched::Cosmos)
    } else if name == "scx_beerland"@ {
        Some(Sched::Beerland)
    } else if name == "scx_cake"@ {
        Some(Sched::Cake)
    } else if name == "scx_pandemonium"@ {
        Some(Sched::Pandemonium)
    } else if name == "scx_flow"@ {
        Some(Sched::Flow)
    } else if name == "scx_forge"@ {
        Some(Sched::Forge)
    } else if name == "scx_mlfq"@ {
        Some(Sched::Mlfq)
    } else {
        None
    }
}

/// The full, prefixed name of a scheduler.
pub fn full_name(s: &Sched) -> (r: String)
    ensures
        r@ == spec_full_name(*s),
{
    match s {
        Sched::Bpfland => String::from_str("scx_bpfland"),
        Sched::Rusty => String::from_str("scx_rusty"),
        Sched::Lavd => String::from_str("scx_lavd"),
        Sched::Flash => String::from_str("scx_flash"),
        Sched::P2dq => String::from_str("scx_p2dq"),
        Sched::Tickless => String::from_str("scx_tickless"),
        Sched::Rustland => String::from_str("scx_rustland"),
        Sched::Cosmos => String::from_str("scx_cosmos"),
        Sched::Beerland => String::from_str("scx_beerland"),
        Sched::Cake => String::from_str("scx_cake"),
        Sched::Pandemonium => String::from_str("scx_pandemonium"),
        Sched::Flow => String::from_str("scx_flow"),
        Sched::Forge => String::from_str("scx_forge"),
        Sched::Mlfq => String::from_str("scx_mlfq"),
    }
}

/// The display name of a scheduler.
pub fn sched_display(s: &Sched) -> (r: String)
    ensures
        r@ == spec_sched_display(*s),
{
    match s {
        Sched::Bpfland => String::from_str("Bpfland"),
        Sched::Rusty => String::from_str("Rusty"),
        Sched::Lavd => String::from_str("Lavd"),
        Sched::Flash => String::from_str("Flash"),
        Sched::P2dq => String::from_str("P2DQ"),
        Sched::Tickless => String::from_str("Tickless"),
        Sched::Rustland => String::from_str("Rustland"),
        Sched::Cosmos => String::from_str("Cosmos"),
        Sched::Beerland => String::from_str("Beerland"),
        Sched::Cake => String::from_str("Cake"),
        Sched::Pandemonium => String::from_str("Pandemonium"),
        Sched::Flow => String::from_str("Flow"),
        Sched::Forge => String::from_str("Forge"),
        Sched::Mlfq => String::from_str("MLFQ"),
    }
}

/// Parses a full, prefixed scheduler name.
pub fn parse_sched(name: &str) -> (r: Option<Sched>)
    ensures
        r == spec_parse_sched(name@),
{
    if str_eq(name, "scx_bpfland") {
        Some(Sched::Bpfland)
    } else if str_eq(name, "scx_rusty") {
        Some(Sched::Rusty)
    } else if str_eq(name, "scx_lavd") {
        Some(Sched::Lavd)
    } else if str_eq(name, "scx_flash") {
        Some(Sched::Flash)
    } else if str_eq(name, "scx_p2dq") {
        Some(Sched::P2dq)
    } else if str_eq(name, "scx_tickless") {
        Some(Sched::Tickless)
    } else if str_eq(name, "scx_rustland") {
        Some(Sched::Rustland)
    } else if str_eq(name, "scx_cosmos") {
        Some(Sched::Cosmos)
    } else if str_eq(name, "scx_beerland") {
        Some(Sched::Beerland)
    } else if str_eq(name, "scx_cake") {
        Some(Sched::Cake)
    } else if str_eq(name, "scx_pandemonium") {
        Some(Sched::Pandemonium)
    } else if str_eq(name, "scx_flow") {
        Some(Sched::Flow)
    } else if str_eq(name, "scx_forge") {
        Some(Sched::Forge)
    } else if str_eq(name, "scx_mlfq") {
        Some(Sched::Mlfq)
    } else {
        None
    }
}

/// The name a mode is displayed under in status lines.
pub open spec fn spec_mode_display(m: Mode) -> Seq<char> {
    match m {
        Mode::Auto => "Auto"@,
        Mode::Gaming => "Gaming"@,
        Mode::PowerSave => "PowerSave"@,
        Mode::LowLatency => "LowLatency"@,
        Mode::Server => "Server"@,
    }
}

/// The label a mode is requested under on the command line.
pub open spec fn spec_parse_mode(label: Seq<char>) -> Option<Mode> {
    if label == "auto"@ {
        Some(Mode::Auto)
    } else if label == "gaming"@ {
        Some(Mode::Gaming)
    } else if label == "powersave"@ {
        Some(Mode::PowerSave)
    } else if label == "lowlatency"@ {
        Some(Mode::LowLatency)
    } else if label == "server"@ {
        Some(Mode::Server)
    } else {
        None
    }
}

/// The display name of a mode.
pub fn mode_display(m: &Mode) -> (r: String)
    ensures
        r@ == spec_mode_display(*m),
{
    match m {
        Mode::Auto => String::from_str("Auto"),
        Mode::Gaming => String::from_str("Gaming"),
        Mode::PowerSave => String::from_str("PowerSave"),
        Mode::LowLatency => String::from_str("LowLatency"),
        Mode::Server => String::from_str("Server"),
    }
}

/// Parses a mode label.
pub fn parse_mode(label: &str) -> (r: Option<Mode>)
    ensures
        r == spec_parse_mode(label@),
{
    if str_eq(label, "auto") {
        Some(Mode::Auto)
    } else if str_eq(label, "gaming") {
        Some(Mode::Gaming)
    } else if str_eq(label, "powersave") {
        Some(Mode::PowerSave)
    } else if str_eq(label, "lowlatency") {
        Some(Mode::LowLatency)
    } else if str_eq(label, "server") {
        Some(Mode::Server)
    } else {
        None
    }
}

/// Parsing a scheduler's own full name gives that scheduler back: the name
/// table and the parse table agree.
pub proof fn lemma_parse_full_name(s: Sched)
    ensures
        spec_parse_sched(spec_full_name(s)) == Some(s),
{
    reveal_strlit("scx_bpfland");
    reveal_strlit("scx_rusty");
    reveal_strlit("scx_lavd");
    reveal_strlit("scx_flash");
    reveal_strlit("scx_p2dq");
    reveal_strlit("scx_tickless");
    reveal_strlit("scx_rustland");
    reveal_strlit("scx_cosmos");
    reveal_strlit("scx_beerland");
    reveal_strlit("scx_cake");
    reveal_strlit("scx_pandemonium");
    reveal_strlit("scx_flow");
    reveal_strlit("scx_forge");
    reveal_strlit("scx_mlfq");
    assert(("scx_bpfland"@).len() == 11);
    assert(("scx_rusty"@).len() == 9);
    assert(("scx_lavd"@).len() == 8);
    assert(("scx_flash"@).len() == 9);
    assert(("scx_p2dq"@).len() == 8);
    assert(("scx_tickless"@).len() == 12);
    assert(("scx_rustland"@).len() == 12);
    assert(("scx_cosmos"@).len() == 10);
    assert(("scx_beerland"@).len() == 12);
    assert(("scx_cake"@).len() == 8);
    assert(("scx_pandemonium"@).len() == 15);
    assert(("scx_flow"@).len() == 8);
    assert(("scx_forge"@).len() == 9);
    assert(("scx_mlfq"@).len() == 8);
    assert(("scx_lavd"@)[4] == 'l');
    assert(("scx_p2dq"@)[4] == 'p');
    assert(("scx_cake"@)[4] == 'c');
    assert(("scx_flow"@)[4] == 'f');
    assert(("scx_mlfq"@)[4] == 'm');
    assert(("scx_rusty"@)[4] == 'r');
    assert(("scx_flash"@)[4] == 'f');
    assert(("scx_forge"@)[4] == 'f');
    assert(("scx_flash"@)[5] == 'l');
    assert(("scx_forge"@)[5] == 'o');
    assert(("scx_tickless"@)[4] == 't');
    assert(("scx_rustland"@)[4] == 'r');
    assert(("scx_beerland"@)[4] == 'b');
}

/// Only prefixed names parse as schedulers: whatever a known scheduler is
/// reported under starts with the fixed prefix.
pub proof fn lemma_parsed_name_has_prefix(name: Seq<char>)
    ensures
        spec_parse_sched(name) is Some ==> crate::prefix::has_scx_prefix(name),
{
    if spec_parse_sched(name) is Some {
        let s = spec_parse_sched(name)->Some_0;
        lemma_full_name_has_prefix(s);
        lemma_parse_full_name(s);
    }
}

/// Every full scheduler name carries the fixed prefix.
pub proof fn lemma_full_name_has_prefix(s: Sched)
    ensures
        crate::prefix::has_scx_prefix(spec_full_name(s)),
{
    reveal_strlit("scx_bpfland");
    reveal_strlit("scx_rusty");
    reveal_strlit("scx_lavd");
    reveal_strlit("scx_flash");
    reveal_strlit("scx_p2dq");
    reveal_strlit("scx_tickless");
    reveal_strlit("scx_rustland");
    reveal_strlit("scx_cosmos");
    reveal_strlit("scx_beerland");
    reveal_strlit("scx_cake");
    reveal_strlit("scx_pandemonium");
    reveal_strlit("scx_flow");
    reveal_strlit("scx_forge");
    reveal_strlit("scx_mlfq");
}

} // verus!
