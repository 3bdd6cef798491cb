//! The decision rules of the subcommands: when a scheduler may be started
//! or switched, which requested names are accepted, and the exact reason
//! given when a request is refused.

use vstd::prelude::*;
use crate::prefix::{with_scx_prefix, without_scx_prefix};
use crate::prefix::{ensure_scx_prefix, remove_scx_prefix};
use crate::sched::{Mode, Sched, parse_sched, spec_parse_sched};
use crate::text::str_eq;

verus! {

/// The name the daemon reports while no scheduler of its own is loaded.
pub open spec fn spec_idle_name() -> Seq<char> {
    "unknown"@
}

/// Why a subcommand refused to issue its remote call.
#[derive(Clone, Debug)]
pub enum CmdError {
    /// `start` was asked for while a scheduler is already running.
    AlreadyRunning,
    /// `switch` was asked for while no scheduler is running.
    NotRunning,
    /// The requested name is in neither the daemon-reported list nor that
    /// list with prefixes stripped; the stripped list is kept for the
    /// message.
    InvalidScheduler { sched: String, supported: Vec<String> },
    /// The requested name passed the list check but is no scheduler this
    /// client knows.
    UnknownScheduler { name: String },
    /// The daemon reported a running scheduler this client does not know.
    UnknownCurrent { current: String },
}

/// Whether the daemon-reported name means a scheduler is running.
pub fn sched_is_running(current: &String) -> (r: bool)
    ensures
        r == (current@ != spec_idle_name()),
{
    !str_eq(current.as_str(), "unknown")
}

/// `start` is allowed exactly while nothing is running.
pub fn ensure_can_start(current: &String) -> (r: Result<(), CmdError>)
    ensures
        match r {
            Ok(u) => current@ == spec_idle_name(),
            Err(e) => current@ != spec_idle_name() && e matches CmdError::AlreadyRunning,
        },
{
    if sched_is_running(current) {
        Err(CmdError::AlreadyRunning)
    } else {
        Ok(())
    }
}

/// `switch` is allowed exactly while something is running.
pub fn ensure_can_switch(current: &String) -> (r: Result<(), CmdError>)
    ensures
        match r {
            Ok(u) => current@ != spec_idle_name(),
            Err(e) => current@ == spec_idle_name() && e matches CmdError::NotRunning,
        },
{
    if sched_is_running(current) {
        Ok(())
    } else {
        Err(CmdError::NotRunning)
    }
}

/// The daemon-reported running scheduler, as a value of this client.
pub fn parse_current(current: &String) -> (r: Result<Sched, CmdError>)
    ensures
        match r {
            Ok(s) => spec_parse_sched(current@) == Some(s),
            Err(e) => spec_parse_sched(current@) is None && (e matches CmdError::UnknownCurrent {
                current: c,
            } && c@ == current@),
        },
{
    match parse_sched(current.as_str()) {
        Some(s) => Ok(s),
        None => Err(CmdError::UnknownCurrent { current: current.clone() }),
    }
}

/// The reported names with the fixed prefix stripped from each.
pub open spec fn spec_stripped(raw: Seq<Seq<char>>) -> Seq<Seq<char>> {
    raw.map_values(|n: Seq<char>| without_scx_prefix(n))
}

/// A requested name is accepted when the daemon-reported list holds it,
/// either as reported or with the prefix stripped.
pub open spec fn spec_name_accepted(sched: Seq<char>, raw: Seq<Seq<char>>) -> bool {
    spec_stripped(raw).contains(sched) || raw.contains(sched)
}

/// Strips the prefix from every reported name.
pub fn strip_all(raw: &Vec<String>) -> (r: Vec<String>)
    ensures
        r.deep_view() == spec_stripped(raw.deep_view()),
{
    let ghost all = raw.deep_view();
    let mut r: Vec<String> = Vec::new();
    let mut i: usize = 0;
    while i < raw.len()
        invariant
            i <= raw.len(),
            all == raw.deep_view(),
            all.len() == raw.len(),
            forall|k: int| 0 <= k < all.len() ==> all[k] == raw[k]@,
            r.deep_view() == spec_stripped(all).subrange(0, i as int),
        decreases raw.len() - i,
    {
        let s = remove_scx_prefix(&raw[i]);
        let ghost prev = r.deep_view();
        r.push(s);
        proof {
            let cur = spec_stripped(all).subrange(0, i + 1 as int);
            assert(prev.len() == i as int);
            assert(r@.len() == i + 1);
            assert(r.deep_view()[i as int] == s@);
            assert forall|k: int| 0 <= k < i as int implies r.deep_view()[k] == cur[k] by {
                assert(r.deep_view()[k] == r@[k].deep_view());
                assert(prev[k] == spec_stripped(all).subrange(0, i as int)[k]);
            }
            assert(r.deep_view() =~= cur);
        }
        i = i + 1;
    }
    proof {
        assert(spec_stripped(all).subrange(0, all.len() as int) =~= spec_stripped(all));
    }
    r
}

/// Whether the list holds a string with these characters.
pub fn contains_name(list: &Vec<String>, name: &String) -> (r: bool)
    ensures
        r == list.deep_view().contains(name@),
{
    let mut i: usize = 0;
    while i < list.len()
        invariant
            i <= list.len(),
            forall|k: int| 0 <= k < i ==> list.deep_view()[k] != name@,
        decreases list.len() - i,
    {
        if str_eq(list[i].as_str(), name.as_str()) {
            proof {
                assert(list.deep_view()[i as int] == name@);
            }
            return true;
        }
        i = i + 1;
    }
    false
}

/// Accepts a requested scheduler name against the daemon-reported list and
/// resolves it, prefixed, to a scheduler this client knows; says exactly
/// which of the two checks failed otherwise.
pub fn validate_sched(sched: &String, raw_supported: &Vec<String>) -> (r: Result<Sched, CmdError>)
    ensures
        match r {
            Ok(s) => spec_name_accepted(sched@, raw_supported.deep_view())
                && spec_parse_sched(with_scx_prefix(sched@)) == Some(s),
            Err(e) => match e {
                CmdError::InvalidScheduler { sched: s2, supported } => !spec_name_accepted(
                    sched@,
                    raw_supported.deep_view(),
                ) && s2@ == sched@ && supported.deep_view() == spec_stripped(
                    raw_supported.deep_view(),
                ),
                CmdError::UnknownScheduler { name } => spec_name_accepted(
                    sched@,
                    raw_supported.deep_view(),
                ) && spec_parse_sched(with_scx_prefix(sched@)) is None && name@ == sched@,
                _ => false,
            },
        },
{
    let supported = strip_all(raw_supported);
    let in_stripped = contains_name(&supported, sched);
    let in_raw = contains_name(raw_supported, sched);
    if !in_stripped && !in_raw {
        return Err(CmdError::InvalidScheduler { sched: sched.clone(), supported });
    }
    let full = ensure_scx_prefix(sched.clone());
    match parse_sched(full.as_str()) {
        Some(s) => Ok(s),
        None => Err(CmdError::UnknownScheduler { name: sched.clone() }),
    }
}

/// What a `start` or `switch` will ask the daemon to do: a scheduler, the
/// mode to run it in, and explicit arguments where the mode is to be
/// ignored.
#[derive(Clone, Debug)]
pub struct SchedRequest {
    pub sched: Sched,
    pub mode: Mode,
    pub args: Option<Vec<String>>,
}

/// The mode to use: the requested one, or the fallback where none was
/// requested.
pub fn resolve_mode(mode: Option<Mode>, fallback: Mode) -> (r: Mode)
    ensures
        r == (match mode {
            Some(m) => m,
            None => fallback,
        }),
{
    match mode {
        Some(m) => m,
        None => fallback,
    }
}

/// Builds the request of a `start`: the name must be accepted and known,
/// and a missing mode defaults to `Auto`.
pub fn plan_start(
    sched_name: &String,
    mode: Option<Mode>,
    args: Option<Vec<String>>,
    raw_supported: &Vec<String>,
) -> (r: Result<SchedRequest, CmdError>)
    ensures
        match r {
            Ok(p) => spec_name_accepted(sched_name@, raw_supported.deep_view())
                && spec_parse_sched(with_scx_prefix(sched_name@)) == Some(p.sched) && p.mode == (
            match mode {
                Some(m) => m,
                None => Mode::Auto,
            }) && p.args == args,
            Err(e) => match e {
                CmdError::InvalidScheduler { sched: s2, supported } => !spec_name_accepted(
                    sched_name@,
                    raw_supported.deep_view(),
                ) && s2@ == sched_name@ && supported.deep_view() == spec_stripped(
                    raw_supported.deep_view(),
                ),
                CmdError::UnknownScheduler { name } => spec_name_accepted(
                    sched_name@,
                    raw_supported.deep_view(),
                ) && spec_parse_sched(with_scx_prefix(sched_name@)) is None && name@ == sched_name@,
                _ => false,
            },
        },
{
    let sched = match validate_sched(sched_name, raw_supported) {
        Ok(s) => s,
        Err(e) => {
            return Err(e);
        },
    };
    let mode = resolve_mode(mode, Mode::Auto);
    Ok(SchedRequest { sched, mode, args })
}

} // verus!
