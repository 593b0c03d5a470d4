use syscall_trace::decoder::decode_entry;
use syscall_trace::decoder::decode_exit;
use syscall_trace::decoder::entry_event;
use syscall_trace::decoder::mark_clipped;
use syscall_trace::decoder::read_texts;
use syscall_trace::decoder::render_arguments;
use syscall_trace::decoder::render_slot;
use syscall_trace::decoder::render_string;
use syscall_trace::decoder::truncate;
use syscall_trace::decoder::MAX_STRING_CHARS;
use syscall_trace::error::TraceError;
use syscall_trace::event::Phase;
use syscall_trace::registers::RegisterSnapshot;
use syscall_trace::signature::ArgKind;

fn no_memory() -> impl Fn(u64) -> Option<i64> {
    |_at: u64| None
}

/// A memory that holds `bytes` from `base` on and nothing else.
fn memory(base: u64, bytes: &[u8]) -> impl Fn(u64) -> Option<i64> {
    let held = bytes.to_vec();
    move |at: u64| {
        let start = usize::try_from(at.checked_sub(base)?).ok()?;
        let end = start.checked_add(8)?;
        let found = held.get(start..end)?;
        Some(i64::from_le_bytes(found.try_into().ok()?))
    }
}

fn no_texts() -> [String; 6] {
    [String::new(), String::new(), String::new(), String::new(), String::new(), String::new()]
}

fn texts_with(slot: usize, text: &str) -> [String; 6] {
    let mut texts = no_texts();
    texts[slot] = String::from(text);
    texts
}

#[test]
fn truncate_keeps_a_short_string() {
    assert_eq!(truncate("hello", 64), "hello");
    assert_eq!(truncate("hello", 5), "hello");
    assert_eq!(truncate("", 0), "");
    assert_eq!(truncate("", 64), "");
}

#[test]
fn truncate_cuts_a_long_string() {
    assert_eq!(truncate("hello", 3), "hel");
    assert_eq!(truncate("hello", 4), "hell");
    assert_eq!(truncate("hello", 0), "");
}

#[test]
fn truncate_counts_characters_not_bytes() {
    assert_eq!(truncate("h\u{e9}llo", 2), "h\u{e9}");
    assert_eq!(truncate("\u{ff}\u{ff}\u{ff}", 1), "\u{ff}");
    assert_eq!(truncate("\u{ff}\u{ff}\u{ff}", 3), "\u{ff}\u{ff}\u{ff}");
}

#[test]
fn the_limit_of_a_string_argument_is_64_characters() {
    assert_eq!(MAX_STRING_CHARS, 64);
}

#[test]
fn a_short_string_is_shown_in_quotes() {
    assert_eq!(render_string("/etc/hostname"), "\"/etc/hostname\"");
    assert_eq!(render_string(""), "\"\"");
}

#[test]
fn a_string_of_64_characters_is_shown_whole_and_unmarked() {
    let text = "a".repeat(64);
    assert_eq!(render_string(&text), format!("\"{}\"", text));
}

#[test]
fn a_string_of_65_characters_is_cut_and_marked() {
    let text = format!("{}b", "a".repeat(64));
    assert_eq!(render_string(&text), format!("\"{}\"...", "a".repeat(64)));
}

#[test]
fn what_follows_the_64th_character_is_dropped() {
    let head = "0123456789abcdef".repeat(4);
    let long = format!("{}{}", head, "x".repeat(1000));
    assert_eq!(render_string(&long), format!("\"{}\"...", head));
}

#[test]
fn the_limit_counts_characters() {
    let text = "\u{e9}".repeat(64);
    assert_eq!(render_string(&text), format!("\"{}\"", text));
    let longer = "\u{e9}".repeat(65);
    assert_eq!(render_string(&longer), format!("\"{}\"...", text));
}

#[test]
fn quotes_and_control_characters_are_escaped() {
    assert_eq!(render_string("a\"b"), "\"a\\\"b\"");
    assert_eq!(render_string("line\n"), "\"line\\n\"");
    assert_eq!(render_string("back\\slash"), "\"back\\\\slash\"");
}

#[test]
fn the_mark_comes_after_the_closing_quote() {
    assert_eq!(mark_clipped(String::from("\"abc\""), true), "\"abc\"...");
    assert_eq!(mark_clipped(String::from("\"abc\""), false), "\"abc\"");
}

#[test]
fn a_slot_is_rendered_by_its_kind() {
    assert_eq!(render_slot(ArgKind::Absent, 7, "ignored"), None);
    assert_eq!(render_slot(ArgKind::Integer, 7, "ignored"), Some(String::from("7")));
    assert_eq!(render_slot(ArgKind::Address, 0x1f, "ignored"), Some(String::from("0x1f")));
    assert_eq!(render_slot(ArgKind::String, 0x1f, "name"), Some(String::from("\"name\"")));
}

#[test]
fn arguments_come_in_slot_order() {
    let kinds = [
        ArgKind::Integer,
        ArgKind::Address,
        ArgKind::Integer,
        ArgKind::String,
        ArgKind::Integer,
        ArgKind::Address,
    ];
    let values = [1, 2, 3, 4, 5, 6];
    let rendered = render_arguments(&kinds, &values, &texts_with(3, "four"));
    assert_eq!(rendered, vec!["1", "0x2", "3", "\"four\"", "5", "0x6"]);
}

#[test]
fn an_absent_slot_gives_no_token() {
    let kinds = [
        ArgKind::Integer,
        ArgKind::Absent,
        ArgKind::Integer,
        ArgKind::Absent,
        ArgKind::Absent,
        ArgKind::Address,
    ];
    let values = [10, 20, 30, 40, 50, 60];
    let rendered = render_arguments(&kinds, &values, &no_texts());
    assert_eq!(rendered, vec!["10", "30", "0x3c"]);
}

#[test]
fn a_call_without_arguments_has_no_tokens() {
    let rendered = render_arguments(&[ArgKind::Absent; 6], &[1, 2, 3, 4, 5, 6], &no_texts());
    assert!(rendered.is_empty());
}

#[test]
fn the_entry_of_open_shows_the_path_and_the_flags() {
    let snapshot =
        RegisterSnapshot { syscall_number: 2, args: [0x7ffd_1000, 0, 0, 0, 0, 0], return_value: 0 };
    let event = entry_event(1234, &snapshot, &texts_with(0, "/etc/hostname")).unwrap();
    assert_eq!(event.pid(), 1234);
    assert_eq!(event.phase(), Phase::Entry);
    assert_eq!(event.name(), "open");
    assert_eq!(event.rendered_args(), &vec!["\"/etc/hostname\"", "0"]);
    assert_eq!(event.return_value(), None);
}

#[test]
fn the_entry_of_a_call_past_the_table_is_an_error() {
    let snapshot = RegisterSnapshot { syscall_number: 335, args: [0; 6], return_value: 0 };
    assert_eq!(
        entry_event(1, &snapshot, &no_texts()),
        Err(TraceError::UnknownSyscall { number: 335 })
    );
    assert_eq!(
        decode_entry(&no_memory(), 1, &snapshot),
        Err(TraceError::UnknownSyscall { number: 335 })
    );
    let far = RegisterSnapshot { syscall_number: u64::MAX, args: [0; 6], return_value: 0 };
    assert_eq!(
        decode_entry(&no_memory(), 1, &far),
        Err(TraceError::UnknownSyscall { number: u64::MAX })
    );
}

#[test]
fn the_exit_of_a_call_past_the_table_is_an_error() {
    let snapshot = RegisterSnapshot { syscall_number: 400, args: [0; 6], return_value: 0 };
    assert_eq!(decode_exit(1, &snapshot), Err(TraceError::UnknownSyscall { number: 400 }));
}

#[test]
fn an_entry_without_string_arguments_reads_no_memory() {
    let snapshot = RegisterSnapshot {
        syscall_number: 0,
        args: [3, 0x7ffd_5000, 5, 99, 99, 99],
        return_value: 0,
    };
    let never = |_at: u64| -> Option<i64> { panic!("memory was read") };
    let event = decode_entry(&never, 8, &snapshot).unwrap();
    assert_eq!(event.name(), "read");
    assert_eq!(event.rendered_args(), &vec!["3", "0x7ffd5000", "5"]);
}

#[test]
fn a_string_that_cannot_be_read_is_shown_empty() {
    let snapshot =
        RegisterSnapshot { syscall_number: 2, args: [0x7ffd_1000, 0, 0, 0, 0, 0], return_value: 0 };
    let event = decode_entry(&no_memory(), 8, &snapshot).unwrap();
    assert_eq!(event.rendered_args(), &vec!["\"\"", "0"]);
}

#[test]
fn texts_are_read_for_string_slots_alone() {
    let kinds = [
        ArgKind::Integer,
        ArgKind::String,
        ArgKind::Address,
        ArgKind::String,
        ArgKind::Absent,
        ArgKind::Absent,
    ];
    let source = memory(0x1000, b"first\0\0\0second\0\0");
    let texts = read_texts(&source, &kinds, &[0x1000, 0x1000, 0x1008, 0x1008, 0x1000, 0x1008]);
    assert_eq!(texts, ["", "first", "", "second", "", ""]);
}

#[test]
fn a_string_argument_is_read_at_the_address_in_its_slot() {
    let source = memory(0x7ffd_1000, b"old.txt\0new.txt\0");
    let snapshot = RegisterSnapshot {
        syscall_number: 82,
        args: [0x7ffd_1000, 0x7ffd_1008, 0, 0, 0, 0],
        return_value: 0,
    };
    let event = decode_entry(&source, 8, &snapshot).unwrap();
    assert_eq!(event.name(), "rename");
    assert_eq!(event.rendered_args(), &vec!["\"old.txt\"", "\"new.txt\""]);
}

#[test]
fn a_long_string_argument_is_cut_in_the_entry() {
    let mut bytes = vec![b'x'; 72];
    bytes.extend_from_slice(&[0; 8]);
    let source = memory(0x5000, &bytes);
    let snapshot =
        RegisterSnapshot { syscall_number: 80, args: [0x5000, 0, 0, 0, 0, 0], return_value: 0 };
    let event = decode_entry(&source, 8, &snapshot).unwrap();
    assert_eq!(event.format(), format!("[8] chdir(\"{}\"...)", "x".repeat(64)));
}

#[test]
fn the_exit_shows_the_return_value() {
    let snapshot =
        RegisterSnapshot { syscall_number: 0, args: [3, 0x7ffd_5000, 5, 0, 0, 0], return_value: 5 };
    let event = decode_exit(77, &snapshot).unwrap();
    assert_eq!(event.pid(), 77);
    assert_eq!(event.phase(), Phase::Exit);
    assert_eq!(event.name(), "read");
    assert!(event.rendered_args().is_empty());
    assert_eq!(event.return_value(), Some(5));
}
