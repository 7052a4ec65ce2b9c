//! Process bookkeeping: the record the kernel keeps per process, and the
//! entry points the scheduler and loader call. The execution paths are
//! placeholders in this core; the data model is what matters here.

use vstd::prelude::*;

verus! {

/// One process as the kernel tracks it.
#[derive(Debug)]
pub struct Process {
    pub id: u32,
    pub name: String,
    pub space_allocated: u32,
    pub space_used: u32,
    pub status: ProcessStatus,
    pub priority: i64,
}

/// Whether the process may run.
#[derive(Debug)]
pub enum ProcessStatus {
    UP,
    DOWN,
    BLOCKED,
}

/// What the process may do with its memory.
#[derive(Debug)]
pub enum ProcessPrivilege {
    FULL,
    RD_ONLY,
    RD_WRITE,
    NONE,
}

/// A validated ELF image, ready to execute.
#[derive(Debug)]
pub struct ElfBinary(pub Vec<u8>);

/// How a process run ended.
#[derive(Debug)]
pub enum ProcessExitStatus {
    SUCCESS,
    BAD,
    PANICKED,
}

impl Process {
    /// A process record with the given bookkeeping fields.
    pub fn new(
        id: u32,
        name: String,
        space_allocated: u32,
        space_used: u32,
        status: ProcessStatus,
        priority: i64,
    ) -> (r: Self)
        ensures
            r.id == id,
            r.name == name,
            r.space_allocated == space_allocated,
            r.space_used == space_used,
            r.status == status,
            r.priority == priority,
    {
        Process { id, name, space_allocated, space_used, status, priority }
    }

    /// Runs a validated ELF image and reports how the run ended. The
    /// execution path is a placeholder: it reports success.
    pub fn execute_elf64(&self, validated_elf_bin: &ElfBinary) -> (r: ProcessExitStatus)
        ensures
            r matches ProcessExitStatus::SUCCESS,
    {
        ProcessExitStatus::SUCCESS
    }

    /// Backs a new user thread with a kernel thread. A placeholder in
    /// this core.
    pub fn create_thread(&self) {
    }
}

impl Default for Process {
    /// A fresh, empty, runnable process record.
    fn default() -> (r: Self)
        ensures
            r.id == 0,
            r.name@ == Seq::<char>::empty(),
            r.space_allocated == 0,
            r.space_used == 0,
            r.status matches ProcessStatus::UP,
            r.priority == 0,
    {
        Process {
            id: 0,
            name: String::new(),
            space_allocated: 0,
            space_used: 0,
            status: ProcessStatus::UP,
            priority: 0,
        }
    }
}

} // verus!
