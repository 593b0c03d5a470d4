use syscall_trace::registers::Registers;
use syscall_trace::session::Action;
use syscall_trace::session::Event;
use syscall_trace::session::Session;
use syscall_trace::session::Status;

const PATH_AT: u64 = 0x7ffd_2000;

fn regs(number: u64, args: [u64; 6], rax: u64) -> Registers {
    Registers {
        orig_rax: number,
        rax,
        rdi: args[0],
        rsi: args[1],
        rdx: args[2],
        r10: args[3],
        r8: args[4],
        r9: args[5],
    }
}

/// The memory of a tracee that holds the path `/etc/hostname` at `PATH_AT`.
fn tracee_memory(at: u64) -> Option<i64> {
    let held = b"/etc/hostname\0\0\0";
    let start = usize::try_from(at.checked_sub(PATH_AT)?).ok()?;
    let found = held.get(start..start.checked_add(8)?)?;
    Some(i64::from_le_bytes(found.try_into().ok()?))
}

/// Runs the tracer's loop over the stops of a tracee, each given by the
/// registers that it shows, and then the tracee's end. Gives the lines
/// written, the number of resumes, and the session at its end.
fn trace(pid: i32, stops: &[Registers], exit_status: i32) -> (Vec<String>, usize, Session) {
    let mut session = Session::new(pid);
    let mut lines: Vec<String> = Vec::new();
    let mut resumes = 0;
    let mut next_stop = 0;
    let mut action = Action::Wait;
    loop {
        let event = match action {
            Action::Wait => match stops.get(next_stop) {
                Some(registers) => {
                    next_stop += 1;
                    Event::Stopped(*registers)
                }
                None => Event::Exited { status: exit_status },
            },
            Action::Resume { line } => {
                lines.push(line);
                resumes += 1;
                Event::Resumed
            }
            Action::Finish { .. } | Action::Abort(_) => return (lines, resumes, session),
        };
        action = session.step_with(event, &tracee_memory).expect("the event is in turn");
    }
}

#[test]
fn open_read_exit_is_traced_line_by_line() {
    let open = [PATH_AT, 0, 0, 0, 0, 0];
    let read = [3, 0x7ffd_5000, 5, 0, 0, 0];
    let stops = [
        regs(2, open, 0),
        regs(2, open, 3),
        regs(0, read, 0),
        regs(0, read, 5),
        regs(60, [0, 0, 0, 0, 0, 0], 0),
    ];
    let (lines, resumes, session) = trace(4711, &stops, 0);
    assert_eq!(
        lines,
        vec![
            "[4711] open(\"/etc/hostname\", 0)",
            "[4711]: open() = 3",
            "[4711] read(3, 0x7ffd5000, 5)",
            "[4711]: read() = 5",
            "[4711] exit(0)",
        ]
    );
    assert_eq!(resumes, stops.len());
    assert_eq!(session.status, Status::Finished { exit_status: 0 });
}

#[test]
fn the_exit_status_of_the_tracee_ends_the_trace() {
    let stops = [regs(231, [7, 0, 0, 0, 0, 0], 0)];
    let (lines, resumes, session) = trace(12, &stops, 7);
    assert_eq!(lines, vec!["[12] exit_group(7)"]);
    assert_eq!(resumes, 1);
    assert_eq!(session.status, Status::Finished { exit_status: 7 });
}

#[test]
fn a_trace_without_stops_writes_nothing() {
    let (lines, resumes, session) = trace(12, &[], 0);
    assert!(lines.is_empty());
    assert_eq!(resumes, 0);
    assert_eq!(session.status, Status::Finished { exit_status: 0 });
}

#[test]
fn a_call_past_the_table_ends_the_trace_without_a_resume() {
    let stops = [
        regs(39, [0; 6], 0),
        regs(39, [0; 6], 4711),
        regs(9999, [0; 6], 0),
        regs(39, [0; 6], 0),
    ];
    let (lines, resumes, session) = trace(4711, &stops, 0);
    assert_eq!(lines, vec!["[4711] getpid()", "[4711]: getpid() = 4711"]);
    assert_eq!(resumes, 2);
    assert!(matches!(session.status, Status::Aborted(_)));
}

#[test]
fn a_path_that_cannot_be_read_does_not_end_the_session() {
    let mut session = Session::new(i32::MAX);
    let open = [PATH_AT, 0, 0, 0, 0, 0];
    let entry = session.step(Event::Stopped(regs(2, open, 0)));
    assert_eq!(entry, Some(Action::Resume { line: String::from("[2147483647] open(\"\", 0)") }));
    assert_eq!(session.step(Event::Resumed), Some(Action::Wait));
    let exit = session.step(Event::Stopped(regs(2, open, 3)));
    assert_eq!(exit, Some(Action::Resume { line: String::from("[2147483647]: open() = 3") }));
}
