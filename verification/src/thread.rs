//! The check that only one copy of a program runs.

use vstd::prelude::*;

verus! {

/// A process as the check sees it: its identifier, and whether it runs the
/// same executable file as the current process.
#[derive(Clone, Copy, PartialEq, Eq, Structural, Debug)]
pub struct ProcessInfo {
    pub pid: u32,
    pub same_exe: bool,
}

/// Another process runs the same executable file.
pub open spec fn another_instance(current_pid: u32, processes: Seq<ProcessInfo>) -> bool {
    exists|i: int|
        0 <= i < processes.len() && #[trigger] processes[i].same_exe && processes[i].pid
            != current_pid
}

/// Whether another copy of the program is already running: a process
/// other than the current one (`current_pid`) runs the same executable.
pub fn other_instance_running(current_pid: u32, processes: &Vec<ProcessInfo>) -> (res: bool)
    ensures
        res == another_instance(current_pid, processes@),
{
    let mut i: usize = 0;
    while i < processes.len()
        invariant
            i <= processes@.len(),
            forall|j: int|
                0 <= j < i ==> !(#[trigger] processes@[j].same_exe && processes@[j].pid
                    != current_pid),
        decreases processes@.len() - i,
    {
        let p = processes[i];
        if p.same_exe && p.pid != current_pid {
            assert(processes@[i as int].same_exe);
            return true;
        }
        i = i + 1;
    }
    false
}

} // verus!
