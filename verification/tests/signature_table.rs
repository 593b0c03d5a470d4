use syscall_trace::signature::lookup;
use syscall_trace::signature::signature;
use syscall_trace::signature::ArgKind;
use syscall_trace::signature::SYSCALL_ARG_KINDS;
use syscall_trace::signature::SYSCALL_COUNT;
use syscall_trace::signature::SYSCALL_NAMES;

#[test]
fn every_entry_has_a_name_and_six_kinds() {
    for number in 0..SYSCALL_COUNT {
        let sig = signature(number);
        assert!(!sig.name.is_empty(), "entry {} has no name", number);
        assert_eq!(sig.arg_kinds.len(), 6);
    }
}

#[test]
fn the_two_tables_have_one_entry_for_each_number() {
    assert_eq!(SYSCALL_COUNT, 335);
    assert_eq!(SYSCALL_NAMES.len() as u64, SYSCALL_COUNT);
    assert_eq!(SYSCALL_ARG_KINDS.len() as u64, SYSCALL_COUNT);
}

#[test]
fn absent_slots_come_last_in_every_entry() {
    for number in 0..SYSCALL_COUNT {
        let kinds = signature(number).arg_kinds;
        let present = kinds.iter().filter(|kind| **kind != ArgKind::Absent).count();
        for slot in 0..6 {
            assert_eq!(kinds[slot] != ArgKind::Absent, slot < present, "entry {}", number);
        }
    }
}

#[test]
fn read_takes_a_descriptor_a_buffer_and_a_count() {
    let sig = signature(0);
    assert_eq!(sig.name, "read");
    assert_eq!(
        sig.arg_kinds,
        [
            ArgKind::Integer,
            ArgKind::Address,
            ArgKind::Integer,
            ArgKind::Absent,
            ArgKind::Absent,
            ArgKind::Absent
        ]
    );
}

#[test]
fn open_takes_a_path_and_flags() {
    let sig = signature(2);
    assert_eq!(sig.name, "open");
    assert_eq!(
        sig.arg_kinds,
        [
            ArgKind::String,
            ArgKind::Integer,
            ArgKind::Absent,
            ArgKind::Absent,
            ArgKind::Absent,
            ArgKind::Absent
        ]
    );
}

#[test]
fn a_call_without_arguments_has_six_absent_slots() {
    let sig = signature(39);
    assert_eq!(sig.name, "getpid");
    assert_eq!(sig.arg_kinds, [ArgKind::Absent; 6]);
}

#[test]
fn a_call_with_six_arguments_has_no_absent_slot() {
    let sig = signature(9);
    assert_eq!(sig.name, "mmap");
    assert!(sig.arg_kinds.iter().all(|kind| *kind != ArgKind::Absent));
}

#[test]
fn well_known_numbers_have_their_names() {
    assert_eq!(signature(1).name, "write");
    assert_eq!(signature(3).name, "close");
    assert_eq!(signature(59).name, "execve");
    assert_eq!(signature(60).name, "exit");
    assert_eq!(signature(231).name, "exit_group");
    assert_eq!(signature(257).name, "openat");
    assert_eq!(signature(334).name, "rseq");
}

#[test]
fn lookup_finds_what_the_table_holds() {
    let found = lookup(60).expect("exit is in the table");
    assert_eq!(found.name, "exit");
    assert_eq!(found.arg_kinds[0], ArgKind::Integer);
    assert_eq!(found.arg_kinds[1], ArgKind::Absent);
    assert!(lookup(0).is_some());
    assert!(lookup(334).is_some());
}

#[test]
fn lookup_finds_nothing_past_the_table() {
    assert!(lookup(335).is_none());
    assert!(lookup(1000).is_none());
    assert!(lookup(u64::MAX).is_none());
}
