//! The decisions behind duplicate-instance cleanup: which processes
//! count as stray instances of this front-end, which parents may be
//! killed to release zombies, which process groups may be terminated,
//! and the exact arguments of the kill commands. The shell walks the
//! process table and sends the signals; every choice it makes comes
//! from here.

use vstd::prelude::*;

use crate::numfmt::dec_digits;
use crate::numfmt::u32_to_string;
use crate::text::contains_seq;
use crate::text::contains_sub;
use crate::text::str_to_chars;

verus! {

/// The process is another instance of this front-end: not the calling
/// process, and named after it.
pub open spec fn target_instance(pid: u32, name: Seq<char>, current_pid: u32) -> bool {
    pid != current_pid && contains_seq(name, "rustsible-gui"@)
}

/// Decides [`target_instance`] for one process-table entry.
pub fn is_target_instance(pid: u32, name: &str, current_pid: u32) -> (b: bool)
    ensures
        b == target_instance(pid, name@, current_pid),
{
    if pid == current_pid {
        return false;
    }
    let v = str_to_chars(name);
    contains_sub(&v, &str_to_chars("rustsible-gui"))
}

/// The parent of a stray instance may be killed to release zombies:
/// it is not the calling process, not process 1, and not a system
/// supervisor.
pub open spec fn parent_kill_allowed(
    parent_pid: u32,
    parent_name: Seq<char>,
    current_pid: u32,
) -> bool {
    parent_pid != current_pid && parent_pid != 1 && !contains_seq(parent_name, "launchd"@)
        && !contains_seq(parent_name, "init"@) && !contains_seq(parent_name, "systemd"@)
}

/// Decides [`parent_kill_allowed`] for one parent process.
pub fn should_kill_parent(parent_pid: u32, parent_name: &str, current_pid: u32) -> (b: bool)
    ensures
        b == parent_kill_allowed(parent_pid, parent_name@, current_pid),
{
    if parent_pid == current_pid || parent_pid == 1 {
        return false;
    }
    let v = str_to_chars(parent_name);
    !contains_sub(&v, &str_to_chars("launchd")) && !contains_sub(&v, &str_to_chars("init"))
        && !contains_sub(&v, &str_to_chars("systemd"))
}

/// A whole process group may be terminated: a real group (above 1)
/// that is not the calling process's own.
pub open spec fn group_kill_allowed(pgid: i32, current_pid: u32) -> bool {
    pgid > 1 && pgid as int != current_pid as int
}

/// Decides [`group_kill_allowed`] for one process group.
pub fn is_killable_group(pgid: i32, current_pid: u32) -> (b: bool)
    ensures
        b == group_kill_allowed(pgid, current_pid),
{
    pgid > 1 && (pgid as i64) != (current_pid as i64)
}

/// The arguments of the forced-kill command for one process.
pub fn kill_force_args(pid: u32) -> (r: Vec<String>)
    ensures
        r.deep_view() == seq!["-9"@, dec_digits(pid as nat)],
{
    let mut args: Vec<String> = Vec::new();
    args.push(String::from_str("-9"));
    args.push(u32_to_string(pid));
    proof {
        assert(args.deep_view() =~~= seq!["-9"@, dec_digits(pid as nat)]);
    }
    args
}

/// The arguments of the forced-kill command for a whole process group:
/// the group is addressed by its negated id.
pub fn group_kill_args(pgid: i32) -> (r: Vec<String>)
    requires
        pgid > 0,
    ensures
        r.deep_view() == seq!["-9"@, "-"@ + dec_digits(pgid as nat)],
{
    let mut args: Vec<String> = Vec::new();
    args.push(String::from_str("-9"));
    let digits = u32_to_string(pgid as u32);
    args.push(String::from_str("-").concat(digits.as_str()));
    proof {
        assert(args.deep_view() =~~= seq!["-9"@, "-"@ + dec_digits(pgid as nat)]);
    }
    args
}

} // verus!
