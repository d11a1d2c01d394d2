//! The process liveness prober.
//!
//! Answers "is this process currently running?" by querying the operating
//! system's process table through the `sysinfo` crate, afresh on every call
//! — a snapshot can go stale instantly, so nothing is cached. The answer
//! depends on the machine's state at that instant, so no contract can pin
//! it; the state machine in [`crate::machine`] therefore takes the answer
//! as an event and is verified for either value of it.

use vstd::prelude::*;

verus! {

/// `sysinfo`'s process-table holder, opaque to the verifier.
#[verifier::external_type_specification]
#[verifier::external_body]
pub struct ExSystem(sysinfo::System);

/// Relies on sysinfo::System::refresh_processes: re-reads the operating
/// system's process list into `sys`. The refreshed table mirrors the
/// machine's state at that instant, so nothing can be promised of it.
#[verifier::external_body]
fn refresh_process_table(sys: &mut sysinfo::System) {
    sys.refresh_processes();
}

/// Relies on sysinfo::System::process: whether the table, as last
/// refreshed, holds an entry for the given identifier. Two calls need not
/// agree, so nothing can be promised of the answer.
#[verifier::external_body]
fn table_has_process(sys: &sysinfo::System, pid: u32) -> bool {
    sys.process(sysinfo::Pid::from_u32(pid)).is_some()
}

/// Queries the process table afresh and reports whether the watched process
/// currently has an entry. A process that has exited, one that never
/// existed, and one the caller may not observe are all reported as not
/// running alike: the prober must never make the guard wait forever on a
/// process it cannot see.
pub fn is_running(sys: &mut sysinfo::System, pid: u32) -> bool {
    refresh_process_table(sys);
    table_has_process(sys, pid)
}

} // verus!
