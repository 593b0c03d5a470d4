use syscall_trace::error::TraceError;
use syscall_trace::registers::Registers;
use syscall_trace::session::Action;
use syscall_trace::session::Event;
use syscall_trace::session::Session;
use syscall_trace::session::Status;
use syscall_trace::session::TracerState;

fn regs(number: u64, args: [u64; 6], rax: u64) -> Registers {
    Registers {
        orig_rax: number,
        rax,
        rdi: args[0],
        rsi: args[1],
        rdx: args[2],
        r10: args[3],
        r8: args[4],
        r9: args[5],
    }
}

#[test]
fn a_session_starts_waiting_for_an_entry() {
    let session = Session::new(1234);
    assert_eq!(session.pid, 1234);
    assert_eq!(session.expect, TracerState::ExpectEntry);
    assert_eq!(session.status, Status::AwaitingStop);
}

#[test]
fn the_state_toggles() {
    assert_eq!(TracerState::ExpectEntry.toggle(), TracerState::ExpectExit);
    assert_eq!(TracerState::ExpectExit.toggle(), TracerState::ExpectEntry);
}

#[test]
fn the_first_stop_is_an_entry() {
    let mut session = Session::new(1234);
    let action = session.step(Event::Stopped(regs(3, [5, 0, 0, 0, 0, 0], 0)));
    assert_eq!(action, Some(Action::Resume { line: String::from("[1234] close(5)") }));
    assert_eq!(session.expect, TracerState::ExpectExit);
    assert_eq!(session.status, Status::AwaitingResume);
}

#[test]
fn the_stop_after_an_entry_is_its_exit() {
    let mut session = Session::new(1234);
    session.step(Event::Stopped(regs(3, [5, 0, 0, 0, 0, 0], 0)));
    assert_eq!(session.step(Event::Resumed), Some(Action::Wait));
    assert_eq!(session.status, Status::AwaitingStop);
    let action = session.step(Event::Stopped(regs(3, [5, 0, 0, 0, 0, 0], 0)));
    assert_eq!(action, Some(Action::Resume { line: String::from("[1234]: close() = 0") }));
    assert_eq!(session.expect, TracerState::ExpectEntry);
}

#[test]
fn the_tracee_gone_finishes_the_session() {
    let mut session = Session::new(1);
    assert_eq!(session.step(Event::ChildGone), Some(Action::Finish { exit_status: 0 }));
    assert_eq!(session.status, Status::Finished { exit_status: 0 });
}

#[test]
fn the_exit_status_of_the_tracee_is_handed_on() {
    let mut session = Session::new(1);
    assert_eq!(session.step(Event::Exited { status: 3 }), Some(Action::Finish { exit_status: 3 }));
    assert_eq!(session.status, Status::Finished { exit_status: 3 });
}

#[test]
fn a_call_past_the_table_aborts_the_session() {
    let mut session = Session::new(1);
    let action = session.step(Event::Stopped(regs(335, [0; 6], 0)));
    let error = TraceError::UnknownSyscall { number: 335 };
    assert_eq!(action, Some(Action::Abort(error)));
    assert_eq!(session.status, Status::Aborted(error));
    assert_eq!(session.expect, TracerState::ExpectEntry);
}

#[test]
fn a_call_past_the_table_aborts_at_an_exit_too() {
    let mut session = Session::new(1);
    session.step(Event::Stopped(regs(39, [0; 6], 0)));
    session.step(Event::Resumed);
    let action = session.step(Event::Stopped(regs(9999, [0; 6], 0)));
    assert_eq!(action, Some(Action::Abort(TraceError::UnknownSyscall { number: 9999 })));
}

#[test]
fn a_failed_resume_aborts_the_session() {
    let mut session = Session::new(1);
    session.step(Event::Stopped(regs(39, [0; 6], 0)));
    assert_eq!(session.step(Event::ResumeFailed), Some(Action::Abort(TraceError::ResumeFailed)));
    assert_eq!(session.status, Status::Aborted(TraceError::ResumeFailed));
}

#[test]
fn an_event_out_of_turn_is_not_taken() {
    let mut session = Session::new(1);
    assert!(!session.can_take(&Event::Resumed));
    assert!(!session.can_take(&Event::ResumeFailed));
    assert_eq!(session.step(Event::Resumed), None);
    assert_eq!(session, Session::new(1));

    session.step(Event::Stopped(regs(39, [0; 6], 0)));
    let pending = session;
    assert!(!session.can_take(&Event::Stopped(regs(39, [0; 6], 0))));
    assert!(!session.can_take(&Event::ChildGone));
    assert!(!session.can_take(&Event::Exited { status: 0 }));
    assert_eq!(session.step(Event::ChildGone), None);
    assert_eq!(session, pending);
}

#[test]
fn a_session_that_has_ended_takes_no_event() {
    let mut finished = Session::new(1);
    finished.step(Event::ChildGone);
    let mut aborted = Session::new(1);
    aborted.step(Event::Stopped(regs(335, [0; 6], 0)));
    for event in [
        Event::Stopped(regs(0, [0; 6], 0)),
        Event::Exited { status: 0 },
        Event::ChildGone,
        Event::Resumed,
        Event::ResumeFailed,
    ] {
        assert!(!finished.can_take(&event));
        assert!(!aborted.can_take(&event));
        assert_eq!(finished.step(event), None);
        assert_eq!(aborted.step(event), None);
    }
}

#[test]
fn a_string_argument_is_read_through_the_given_source() {
    let source = |at: u64| match at {
        0x9000 => Some(i64::from_le_bytes(*b"/tmp\0\0\0\0")),
        _ => None,
    };
    let mut session = Session::new(8);
    assert_eq!(
        session.step_with(Event::Stopped(regs(80, [0x9000, 0, 0, 0, 0, 0], 0)), &source),
        Some(Action::Resume { line: String::from("[8] chdir(\"/tmp\")") })
    );
    assert_eq!(session.step_with(Event::Resumed, &source), Some(Action::Wait));
    assert_eq!(
        session.step_with(Event::Stopped(regs(80, [0x9000, 0, 0, 0, 0, 0], 0)), &source),
        Some(Action::Resume { line: String::from("[8]: chdir() = 0") })
    );
    assert_eq!(session.step_with(Event::Stopped(regs(80, [0; 6], 0)), &source), None);
}

#[test]
fn every_stop_is_answered_with_one_resume() {
    let mut session = Session::new(5);
    let mut stops = 0;
    let mut resumes = 0;
    for number in [12, 12, 9, 9, 21, 21, 3, 3, 231] {
        stops += 1;
        match session.step(Event::Stopped(regs(number, [0; 6], 0))) {
            Some(Action::Resume { .. }) => resumes += 1,
            other => panic!("a stop was answered with {:?}", other),
        }
        assert_eq!(resumes, stops);
        assert_eq!(session.step(Event::Resumed), Some(Action::Wait));
    }
    assert_eq!(session.step(Event::Exited { status: 0 }), Some(Action::Finish { exit_status: 0 }));
    assert_eq!(resumes, stops);
    assert_eq!(stops, 9);
}

#[test]
fn an_aborted_stop_is_the_one_stop_without_a_resume() {
    let mut session = Session::new(5);
    let mut stops = 0;
    let mut resumes = 0;
    for number in [12, 12, 5000] {
        stops += 1;
        match session.step(Event::Stopped(regs(number, [0; 6], 0))) {
            Some(Action::Resume { .. }) => {
                resumes += 1;
                session.step(Event::Resumed);
            }
            Some(Action::Abort(_)) => break,
            other => panic!("a stop was answered with {:?}", other),
        }
    }
    assert_eq!(stops, 3);
    assert_eq!(resumes + 1, stops);
}
