//! The registers of a stopped tracee, and the snapshot that the decoder
//! works on: the system call number, the six argument slots in the order of
//! the calling convention, and the return value.
use vstd::prelude::*;

verus! {

/// The registers that a tracer reads at a stop, under their names on x86-64.
#[derive(Clone, Copy, Debug, PartialEq, Eq, Structural)]
pub struct Registers {
    /// The number of the system call, as the kernel saved it on entry.
    pub orig_rax: u64,
    /// The return value, once the call has run.
    pub rax: u64,
    pub rdi: u64,
    pub rsi: u64,
    pub rdx: u64,
    pub r10: u64,
    pub r8: u64,
    pub r9: u64,
}

/// What one stop shows of a system call.
#[derive(Clone, Copy, Debug, PartialEq, Eq)]
pub struct RegisterSnapshot {
    pub syscall_number: u64,
    /// The raw argument words, by slot.
    pub args: [u64; 6],
    pub return_value: u64,
}

/// The snapshot of a set of registers. The calling convention of system calls
/// on x86-64 puts the arguments, in order, in `rdi`, `rsi`, `rdx`, `r10`, `r8`
/// and `r9`.
pub open spec fn snapshot_of(regs: Registers) -> RegisterSnapshot {
    RegisterSnapshot {
        syscall_number: regs.orig_rax,
        args: [regs.rdi, regs.rsi, regs.rdx, regs.r10, regs.r8, regs.r9],
        return_value: regs.rax,
    }
}

impl RegisterSnapshot {
    /// Takes the snapshot of the registers read at a stop.
    pub fn capture(regs: &Registers) -> (snapshot: RegisterSnapshot)
        ensures
            snapshot == snapshot_of(*regs),
            snapshot.args@ == seq![regs.rdi, regs.rsi, regs.rdx, regs.r10, regs.r8, regs.r9],
    {
        RegisterSnapshot {
            syscall_number: regs.orig_rax,
            args: [regs.rdi, regs.rsi, regs.rdx, regs.r10, regs.r8, regs.r9],
            return_value: regs.rax,
        }
    }
}

} // verus!
