use syscall_trace::control::observe_stop;
use syscall_trace::control::resume_event;
use syscall_trace::control::resume_tracee;
use syscall_trace::control::stop_event;
use syscall_trace::registers::Registers;
use syscall_trace::session::Action;
use syscall_trace::session::Event;
use syscall_trace::session::Session;

#[test]
fn a_process_whose_registers_cannot_be_read_is_gone() {
    assert_eq!(observe_stop(i32::MAX), Event::ChildGone);
}

#[test]
fn a_process_that_is_not_traced_cannot_be_resumed() {
    assert_eq!(resume_tracee(i32::MAX), Event::ResumeFailed);
}

#[test]
fn a_tracee_that_is_gone_finishes_its_session() {
    let mut session = Session::new(i32::MAX);
    let event = observe_stop(session.pid);
    assert_eq!(session.step(event), Some(Action::Finish { exit_status: 0 }));
}

#[test]
fn registers_that_were_read_give_a_stop() {
    let regs = Registers { orig_rax: 1, rax: 2, rdi: 3, rsi: 4, rdx: 5, r10: 6, r8: 7, r9: 8 };
    assert_eq!(stop_event(Some(regs)), Event::Stopped(regs));
}

#[test]
fn registers_that_could_not_be_read_mean_the_tracee_is_gone() {
    assert_eq!(stop_event(None), Event::ChildGone);
}

#[test]
fn a_resume_is_reported_by_its_outcome() {
    assert_eq!(resume_event(true), Event::Resumed);
    assert_eq!(resume_event(false), Event::ResumeFailed);
}
