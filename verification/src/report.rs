//! The exact text of every line the client prints: status lines of `get`,
//! the list of supported schedulers, the confirmation of each action, and
//! the message of each refusal.

use vstd::prelude::*;
use crate::command::{CmdError, SchedRequest, spec_stripped};
use crate::sched::{Mode, Sched, mode_display, sched_display, spec_mode_display, spec_sched_display};
use crate::text::{format_quoted_list, join_space, spec_join_space, spec_quoted_list};

verus! {

/// The line of `get` while nothing is running.
pub open spec fn spec_idle_line() -> Seq<char> {
    "no scx scheduler running"@
}

/// The line of `get` for a scheduler running in a mode.
pub open spec fn spec_running_mode_line(s: Sched, m: Mode) -> Seq<char> {
    "running "@ + spec_sched_display(s) + " in "@ + spec_mode_display(m) + " mode"@
}

/// The line of `get` for a scheduler running with explicit arguments.
pub open spec fn spec_running_args_line(s: Sched, args: Seq<Seq<char>>) -> Seq<char> {
    "running "@ + spec_sched_display(s) + " with arguments \""@ + spec_join_space(args) + "\""@
}

/// The line of `list`.
pub open spec fn spec_list_line(raw: Seq<Seq<char>>) -> Seq<char> {
    "supported schedulers: "@ + spec_quoted_list(spec_stripped(raw))
}

/// The confirmation of a `start`.
pub open spec fn spec_started_line(p: SchedRequest) -> Seq<char> {
    match p.args {
        Some(args) => "started "@ + spec_sched_display(p.sched) + " with arguments \""@
            + spec_join_space(args.deep_view()) + "\""@,
        None => "started "@ + spec_sched_display(p.sched) + " in "@ + spec_mode_display(p.mode)
            + " mode"@,
    }
}

/// The confirmation of a `switch`.
pub open spec fn spec_switched_line(p: SchedRequest) -> Seq<char> {
    match p.args {
        Some(args) => "switched to "@ + spec_sched_display(p.sched) + " with arguments \""@
            + spec_join_space(args.deep_view()) + "\""@,
        None => "switched to "@ + spec_sched_display(p.sched) + " in "@ + spec_mode_display(p.mode)
            + " mode"@,
    }
}

/// The message of each refusal.
pub open spec fn spec_error_message(e: CmdError) -> Seq<char> {
    match e {
        CmdError::AlreadyRunning => "Scx scheduler already running. Use 'switch' instead of 'start'"@,
        CmdError::NotRunning => "No scx scheduler running. Use 'start' instead of 'switch'"@,
        CmdError::InvalidScheduler { sched, supported } => "Invalid scheduler '"@ + sched@
            + "'. Supported schedulers: "@ + spec_quoted_list(supported.deep_view()),
        CmdError::UnknownScheduler { name } => "Failed to parse scheduler '"@ + name@ + "'"@,
        CmdError::UnknownCurrent { current } => "Failed to parse current scheduler '"@ + current@
            + "'"@,
    }
}

/// The line of `get` while nothing is running.
pub fn idle_line() -> (r: String)
    ensures
        r@ == spec_idle_line(),
{
    String::from_str("no scx scheduler running")
}

/// The line of `get` for a scheduler running in a mode.
pub fn running_mode_line(s: &Sched, m: &Mode) -> (r: String)
    ensures
        r@ == spec_running_mode_line(*s, *m),
{
    let mut r = String::from_str("running ");
    r.append(sched_display(s).as_str());
    r.append(" in ");
    r.append(mode_display(m).as_str());
    r.append(" mode");
    r
}

/// The line of `get` for a scheduler running with explicit arguments.
pub fn running_args_line(s: &Sched, args: &Vec<String>) -> (r: String)
    ensures
        r@ == spec_running_args_line(*s, args.deep_view()),
{
    let mut r = String::from_str("running ");
    r.append(sched_display(s).as_str());
    r.append(" with arguments \"");
    r.append(join_space(args).as_str());
    r.append("\"");
    r
}

/// The line of `list`: the reported names, each stripped of its prefix.
pub fn list_line(raw_supported: &Vec<String>) -> (r: String)
    ensures
        r@ == spec_list_line(raw_supported.deep_view()),
{
    let stripped = crate::command::strip_all(raw_supported);
    let mut r = String::from_str("supported schedulers: ");
    r.append(format_quoted_list(&stripped).as_str());
    r
}

/// The confirmation of a `start`.
pub fn started_line(p: &SchedRequest) -> (r: String)
    ensures
        r@ == spec_started_line(*p),
{
    let mut r = String::from_str("started ");
    r.append(sched_display(&p.sched).as_str());
    match &p.args {
        Some(args) => {
            r.append(" with arguments \"");
            r.append(join_space(args).as_str());
            r.append("\"");
        },
        None => {
            r.append(" in ");
            r.append(mode_display(&p.mode).as_str());
            r.append(" mode");
        },
    }
    r
}

/// The confirmation of a `switch`.
pub fn switched_line(p: &SchedRequest) -> (r: String)
    ensures
        r@ == spec_switched_line(*p),
{
    let mut r = String::from_str("switched to ");
    r.append(sched_display(&p.sched).as_str());
    match &p.args {
        Some(args) => {
            r.append(" with arguments \"");
            r.append(join_space(args).as_str());
            r.append("\"");
        },
        None => {
            r.append(" in ");
            r.append(mode_display(&p.mode).as_str());
            r.append(" mode");
        },
    }
    r
}

/// The confirmation of a `stop`.
pub fn stopped_line() -> (r: String)
    ensures
        r@ == "stopped"@,
{
    String::from_str("stopped")
}

/// The confirmation of a `restart`.
pub fn restarted_line() -> (r: String)
    ensures
        r@ == "restarted"@,
{
    String::from_str("restarted")
}

impl CmdError {
    /// The message this refusal is reported with.
    pub fn message(&self) -> (r: String)
        ensures
            r@ == spec_error_message(*self),
    {
        match self {
            CmdError::AlreadyRunning => String::from_str(
                "Scx scheduler already running. Use 'switch' instead of 'start'",
            ),
            CmdError::NotRunning => String::from_str(
                "No scx scheduler running. Use 'start' instead of 'switch'",
            ),
            CmdError::InvalidScheduler { sched, supported } => {
                let mut r = String::from_str("Invalid scheduler '");
                r.append(sched.as_str());
                r.append("'. Supported schedulers: ");
                r.append(format_quoted_list(supported).as_str());
                r
            },
            CmdError::UnknownScheduler { name } => {
                let mut r = String::from_str("Failed to parse scheduler '");
                r.append(name.as_str());
                r.append("'");
                r
            },
            CmdError::UnknownCurrent { current } => {
                let mut r = String::from_str("Failed to parse current scheduler '");
                r.append(current.as_str());
                r.append("'");
                r
            },
        }
    }
}

} // verus!
