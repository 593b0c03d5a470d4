//! The control primitives that the tracer's loop needs between two waits:
//! reading the registers of the stopped tracee, and resuming it. Each reports
//! its outcome as the event that the session takes.
use crate::registers::Registers;
use crate::session::Event;
use nix::sys::ptrace;
use nix::unistd::Pid;
use vstd::prelude::*;

verus! {

/// Calls `nix::sys::ptrace::getregs` on the process `pid` and copies the
/// registers that the decoder reads, each under its own name. Nothing is
/// claimed of the outcome: it depends on the tracee. `None` stands for any
/// failure of the call.
#[verifier::external_body]
fn registers_of(pid: i32) -> (registers: Option<Registers>) {
    ptrace::getregs(Pid::from_raw(pid)).ok().map(|regs| Registers {
        orig_rax: regs.orig_rax,
        rax: regs.rax,
        rdi: regs.rdi,
        rsi: regs.rsi,
        rdx: regs.rdx,
        r10: regs.r10,
        r8: regs.r8,
        r9: regs.r9,
    })
}

/// Calls `nix::sys::ptrace::syscall` on the process `pid`, with no signal to
/// deliver: the tracee runs until it enters or leaves a system call. Nothing
/// is claimed of the outcome. `false` stands for any failure of the call.
#[verifier::external_body]
fn continue_to_syscall(pid: i32) -> (resumed: bool) {
    ptrace::syscall(Pid::from_raw(pid), None).is_ok()
}

/// The event of a stop whose registers were asked for: the stop with its
/// registers where they were read; where they could not be read the tracee is
/// gone, as where the wait itself fails.
pub open spec fn stop_event_of(registers: Option<Registers>) -> Event {
    match registers {
        Some(regs) => Event::Stopped(regs),
        None => Event::ChildGone,
    }
}

/// The event of a resume, by whether the tracee took it.
pub open spec fn resume_event_of(resumed: bool) -> Event {
    if resumed {
        Event::Resumed
    } else {
        Event::ResumeFailed
    }
}

/// The event that the session takes for a stop, from what reading the
/// registers gave.
pub fn stop_event(registers: Option<Registers>) -> (event: Event)
    ensures
        event == stop_event_of(registers),
{
    match registers {
        Some(regs) => Event::Stopped(regs),
        None => Event::ChildGone,
    }
}

/// The event that the session takes for a resume, from whether the tracee
/// took it.
pub fn resume_event(resumed: bool) -> (event: Event)
    ensures
        event == resume_event_of(resumed),
{
    if resumed {
        Event::Resumed
    } else {
        Event::ResumeFailed
    }
}

/// Reads the registers of the tracee `pid` after a wait has returned. Where
/// they cannot be read the tracee is gone, as where the wait itself fails.
///
/// Whether the registers can be read, and what they hold, depends on the
/// tracee; the event is `stop_event` of what the read gave.
pub fn observe_stop(pid: i32) -> (event: Event)
    ensures
        event is Stopped || event is ChildGone,
{
    stop_event(registers_of(pid))
}

/// Resumes the tracee `pid` up to its next system call boundary, not by a
/// single instruction.
///
/// Whether the tracee takes the resume depends on the tracee; the event is
/// `resume_event` of what the call gave.
pub fn resume_tracee(pid: i32) -> (event: Event)
    ensures
        event is Resumed || event is ResumeFailed,
{
    resume_event(continue_to_syscall(pid))
}

} // verus!
