//! The engine of a system call tracer for x86-64 Linux.
//!
//! A tracer follows another process, the tracee, from one system call
//! boundary to the next. At each stop it reads the tracee's registers, decodes
//! the call that they show, and writes one line: at the entry of a call its
//! name and arguments, at its exit its return value.
//!
//! * [`signature`] holds the table of system calls: names and argument kinds.
//! * [`registers`] puts the registers of a stop into calling-convention order.
//! * [`reader`] reads NUL-terminated strings from the tracee's memory.
//! * [`decoder`] renders the arguments of a call, each by its kind.
//! * [`event`] holds the trace events and writes them as lines.
//! * [`render`] writes numbers and lists as text.
//! * [`session`] is the state machine of one trace session.
//! * [`control`] reads the registers of the tracee and resumes it.
//! * [`error`] names what ends a session before its time.
//!
//! The program around the library waits for the tracee and writes the lines;
//! everything it has to decide, the session decides for it.
pub mod control;
pub mod decoder;
pub mod error;
pub mod event;
pub mod reader;
pub mod registers;
pub mod render;
pub mod session;
pub mod signature;
