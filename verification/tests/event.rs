use syscall_trace::error::TraceError;
use syscall_trace::event::format_entry;
use syscall_trace::event::format_exit;
use syscall_trace::event::Phase;
use syscall_trace::event::TraceEvent;
use syscall_trace::registers::RegisterSnapshot;
use syscall_trace::registers::Registers;

#[test]
fn an_entry_line_has_the_arguments_in_brackets() {
    let args = vec![String::from("3"), String::from("0x7ffd5000"), String::from("5")];
    assert_eq!(format_entry(1234, "read", &args), "[1234] read(3, 0x7ffd5000, 5)");
}

#[test]
fn an_entry_line_without_arguments_has_empty_brackets() {
    assert_eq!(format_entry(7, "getpid", &Vec::new()), "[7] getpid()");
}

#[test]
fn an_entry_line_with_one_argument_has_no_comma() {
    assert_eq!(format_entry(7, "close", &vec![String::from("3")]), "[7] close(3)");
}

#[test]
fn an_exit_line_has_the_return_value() {
    assert_eq!(format_exit(1234, "read", 5), "[1234]: read() = 5");
    assert_eq!(format_exit(1, "getpid", 0), "[1]: getpid() = 0");
}

#[test]
fn a_return_value_is_the_raw_register_in_decimal() {
    assert_eq!(format_exit(9, "open", u64::MAX - 1), "[9]: open() = 18446744073709551614");
}

#[test]
fn an_entry_event_formats_as_its_entry_line() {
    let event = TraceEvent::entry(
        42,
        String::from("open"),
        vec![String::from("\"/etc/hostname\""), String::from("0")],
    );
    assert_eq!(event.phase(), Phase::Entry);
    assert_eq!(event.return_value(), None);
    assert_eq!(event.format(), "[42] open(\"/etc/hostname\", 0)");
}

#[test]
fn an_exit_event_formats_as_its_exit_line() {
    let event = TraceEvent::exit(42, String::from("open"), 3);
    assert_eq!(event.phase(), Phase::Exit);
    assert_eq!(event.pid(), 42);
    assert_eq!(event.name(), "open");
    assert!(event.rendered_args().is_empty());
    assert_eq!(event.return_value(), Some(3));
    assert_eq!(event.format(), "[42]: open() = 3");
}

#[test]
fn events_with_the_same_content_are_equal() {
    assert_eq!(
        TraceEvent::exit(1, String::from("read"), 5),
        TraceEvent::exit(1, String::from("read"), 5)
    );
    assert_ne!(
        TraceEvent::exit(1, String::from("read"), 5),
        TraceEvent::entry(1, String::from("read"), Vec::new())
    );
}

#[test]
fn the_snapshot_follows_the_calling_convention() {
    let regs = Registers {
        orig_rax: 9,
        rax: 0xfff0,
        rdi: 1,
        rsi: 2,
        rdx: 3,
        r10: 4,
        r8: 5,
        r9: 6,
    };
    let snapshot = RegisterSnapshot::capture(&regs);
    assert_eq!(snapshot.syscall_number, 9);
    assert_eq!(snapshot.args, [1, 2, 3, 4, 5, 6]);
    assert_eq!(snapshot.return_value, 0xfff0);
}

#[test]
fn errors_say_what_went_wrong() {
    assert_eq!(
        TraceError::UnknownSyscall { number: 335 }.message(),
        "no signature for system call 335"
    );
    assert_eq!(TraceError::ResumeFailed.message(), "the tracee could not be resumed");
}
