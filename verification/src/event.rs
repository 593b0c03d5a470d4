//! Trace events and the lines that they are written as.
//!
//! A system call gives two events: one when it is entered, with its
//! arguments, and one when it returns, with its return value.
use crate::render::decimal;
use crate::render::join;
use crate::render::joined;
use crate::render::push_decimal;
use crate::render::push_signed_decimal;
use crate::render::signed_decimal;
use vstd::prelude::*;

verus! {

/// The side of a system call that a stop shows.
#[derive(Clone, Copy, Debug, PartialEq, Eq, Structural)]
pub enum Phase {
    Entry,
    Exit,
}

/// What one stop of the tracee showed. An entry event has the rendered
/// arguments and no return value; an exit event has the return value and no
/// arguments.
#[derive(Debug, PartialEq, Eq)]
pub struct TraceEvent {
    pid: i32,
    phase: Phase,
    name: String,
    rendered_args: Vec<String>,
    return_value: Option<u64>,
}

/// A trace event as a mathematical value.
pub struct TraceEventView {
    pub pid: int,
    pub phase: Phase,
    pub name: Seq<char>,
    pub rendered_args: Seq<Seq<char>>,
    pub return_value: Option<u64>,
}

impl TraceEventView {
    /// An entry event has no return value; an exit event has one, and no
    /// arguments.
    pub open spec fn wf(self) -> bool {
        match self.phase {
            Phase::Entry => self.return_value is None,
            Phase::Exit => self.return_value is Some && self.rendered_args.len() == 0,
        }
    }

    /// The entry event of the call `name` in the process `pid`.
    pub open spec fn entry(pid: int, name: Seq<char>, rendered_args: Seq<Seq<char>>) -> Self {
        TraceEventView { pid, phase: Phase::Entry, name, rendered_args, return_value: None }
    }

    /// The exit event of the call `name` in the process `pid`.
    pub open spec fn exit(pid: int, name: Seq<char>, return_value: u64) -> Self {
        TraceEventView {
            pid,
            phase: Phase::Exit,
            name,
            rendered_args: Seq::empty(),
            return_value: Some(return_value),
        }
    }

    /// The line that the event is written as.
    pub open spec fn line(self) -> Seq<char> {
        match self.phase {
            Phase::Entry => entry_line(self.pid, self.name, self.rendered_args),
            Phase::Exit => exit_line(self.pid, self.name, self.return_value.unwrap()),
        }
    }
}

/// The line of an entry: `[pid] name(arg, arg)`.
pub open spec fn entry_line(pid: int, name: Seq<char>, rendered_args: Seq<Seq<char>>) -> Seq<
    char,
> {
    seq!['['] + signed_decimal(pid) + seq![']', ' '] + name + seq!['('] + joined(rendered_args)
        + seq![')']
}

/// The line of an exit: `[pid]: name() = value`.
pub open spec fn exit_line(pid: int, name: Seq<char>, return_value: u64) -> Seq<char> {
    seq!['['] + signed_decimal(pid) + seq![']', ':', ' '] + name + seq!['(', ')', ' ', '=', ' ']
        + decimal(return_value as nat)
}

impl View for TraceEvent {
    type V = TraceEventView;

    closed spec fn view(&self) -> TraceEventView {
        TraceEventView {
            pid: self.pid as int,
            phase: self.phase,
            name: self.name@,
            rendered_args: self.rendered_args.deep_view(),
            return_value: self.return_value,
        }
    }
}

impl TraceEvent {
    #[verifier::type_invariant]
    spec fn well_formed(self) -> bool {
        self@.wf()
    }

    /// The event of a call's entry.
    pub fn entry(pid: i32, name: String, rendered_args: Vec<String>) -> (event: TraceEvent)
        ensures
            event@ == TraceEventView::entry(pid as int, name@, rendered_args.deep_view()),
    {
        TraceEvent { pid, phase: Phase::Entry, name, rendered_args, return_value: None }
    }

    /// The event of a call's return.
    pub fn exit(pid: i32, name: String, return_value: u64) -> (event: TraceEvent)
        ensures
            event@ == TraceEventView::exit(pid as int, name@, return_value),
    {
        let rendered_args: Vec<String> = Vec::new();
        assert(rendered_args.deep_view() == Seq::<Seq<char>>::empty());
        TraceEvent {
            pid,
            phase: Phase::Exit,
            name,
            rendered_args,
            return_value: Some(return_value),
        }
    }

    pub fn pid(&self) -> (pid: i32)
        ensures
            pid == self@.pid,
    {
        self.pid
    }

    pub fn phase(&self) -> (phase: Phase)
        ensures
            phase == self@.phase,
            self@.wf(),
    {
        proof {
            use_type_invariant(self);
        }
        self.phase
    }

    pub fn name(&self) -> (name: &str)
        ensures
            name@ == self@.name,
    {
        self.name.as_str()
    }

    pub fn rendered_args(&self) -> (rendered_args: &Vec<String>)
        ensures
            rendered_args.deep_view() == self@.rendered_args,
    {
        &self.rendered_args
    }

    pub fn return_value(&self) -> (return_value: Option<u64>)
        ensures
            return_value == self@.return_value,
    {
        self.return_value
    }

    /// The line that the event is written as.
    pub fn format(&self) -> (line: String)
        ensures
            line@ == self@.line(),
    {
        proof {
            use_type_invariant(self);
        }
        match self.return_value {
            None => format_entry(self.pid, self.name.as_str(), &self.rendered_args),
            Some(value) => format_exit(self.pid, self.name.as_str(), value),
        }
    }
}

/// The line of an entry: the process, the call's name and, in brackets, its
/// rendered arguments joined with `", "`.
pub fn format_entry(pid: i32, name: &str, rendered_args: &Vec<String>) -> (line: String)
    ensures
        line@ == entry_line(pid as int, name@, rendered_args.deep_view()),
{
    let mut line = String::new();
    line.push('[');
    push_signed_decimal(&mut line, pid as i64);
    line.push(']');
    line.push(' ');
    line.append(name);
    line.push('(');
    let list = join(rendered_args);
    line.append(list.as_str());
    line.push(')');
    line
}

/// The line of an exit: the process, the call's name and its return value in
/// decimal.
pub fn format_exit(pid: i32, name: &str, return_value: u64) -> (line: String)
    ensures
        line@ == exit_line(pid as int, name@, return_value),
{
    let mut line = String::new();
    line.push('[');
    push_signed_decimal(&mut line, pid as i64);
    line.push(']');
    line.push(':');
    line.push(' ');
    line.append(name);
    line.push('(');
    line.push(')');
    line.push(' ');
    line.push('=');
    line.push(' ');
    push_decimal(&mut line, return_value);
    line
}

} // verus!
