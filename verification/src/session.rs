//! The process controller's decisions: a state machine for one trace session.
//!
//! The tracer's loop does the outside work and reports it as events: it waits
//! for the tracee to stop and reads its registers, writes a line, resumes the
//! tracee. [`Session::step`] takes each event and answers with the next thing
//! to do. A stop is classified by a toggle: the first stop is the entry of a
//! system call, the next one its exit, and so on.
use crate::decoder::decode_entry;
use crate::decoder::decode_exit;
use crate::decoder::entry_view;
use crate::decoder::exit_view;
use crate::decoder::lemma_texts_read_are_possible;
use crate::decoder::texts_possible;
use crate::decoder::texts_read;
use crate::error::TraceError;
use crate::reader::read_word_at;
use crate::registers::snapshot_of;
use crate::registers::RegisterSnapshot;
use crate::registers::Registers;
use crate::signature::is_known;
use crate::signature::signature_of;
use vstd::prelude::*;

verus! {

/// Which side of a system call the next stop of the tracee shows.
#[derive(Clone, Copy, Debug, PartialEq, Eq, Structural)]
pub enum TracerState {
    ExpectEntry,
    ExpectExit,
}

impl TracerState {
    /// The other state.
    pub open spec fn toggled(self) -> TracerState {
        match self {
            TracerState::ExpectEntry => TracerState::ExpectExit,
            TracerState::ExpectExit => TracerState::ExpectEntry,
        }
    }

    /// The state after one more stop.
    pub fn toggle(self) -> (next: TracerState)
        ensures
            next == self.toggled(),
    {
        match self {
            TracerState::ExpectEntry => TracerState::ExpectExit,
            TracerState::ExpectExit => TracerState::ExpectEntry,
        }
    }
}

/// Where a session stands.
#[derive(Clone, Copy, Debug, PartialEq, Eq, Structural)]
pub enum Status {
    /// The tracee runs; the tracer is to wait for its next stop.
    AwaitingStop,
    /// The tracee is stopped and its stop was decoded; the tracer is to
    /// resume it.
    AwaitingResume,
    /// The tracee is gone: the session has ended as it should.
    Finished { exit_status: i32 },
    /// The session was given up.
    Aborted(TraceError),
}

/// What the tracer's loop reports to the session.
#[derive(Clone, Copy, Debug, PartialEq, Eq, Structural)]
pub enum Event {
    /// The tracee stopped, and these are its registers.
    Stopped(Registers),
    /// The tracee ended with this exit status.
    Exited { status: i32 },
    /// Waiting for the tracee, or reading its registers, failed: it is gone.
    ChildGone,
    /// The tracee was resumed and runs to its next system call boundary.
    Resumed,
    /// Resuming the tracee failed.
    ResumeFailed,
}

/// What the tracer's loop is to do next.
#[derive(Debug, PartialEq, Eq)]
pub enum Action {
    /// Wait for the tracee's next stop, then read its registers.
    Wait,
    /// Write the line, then resume the tracee up to its next system call
    /// boundary.
    Resume { line: String },
    /// End the loop, and the tracer with this exit status.
    Finish { exit_status: i32 },
    /// End the loop: the session cannot go on.
    Abort(TraceError),
}

impl Action {
    /// Whether the action is the one to take in the given status.
    pub open spec fn answers(self, status: Status) -> bool {
        match self {
            Action::Wait => status == Status::AwaitingStop,
            Action::Resume { .. } => status == Status::AwaitingResume,
            Action::Finish { exit_status } => status == Status::Finished { exit_status },
            Action::Abort(error) => status == Status::Aborted(error),
        }
    }
}

/// One trace session: one tracer and one tracee.
#[derive(Clone, Copy, Debug, PartialEq, Eq, Structural)]
pub struct Session {
    pub pid: i32,
    pub expect: TracerState,
    pub status: Status,
}

impl Session {
    /// The session of a tracee that was just launched: the tracer is to wait
    /// for the entry of its first system call.
    pub open spec fn initial(pid: i32) -> Session {
        Session { pid, expect: TracerState::ExpectEntry, status: Status::AwaitingStop }
    }

    /// Whether the event can come in the session's status: a stop or the
    /// tracee's end while the tracer waits, what became of a resume while it
    /// resumes, nothing after the end.
    pub open spec fn accepts(self, event: Event) -> bool {
        match self.status {
            Status::AwaitingStop => event is Stopped || event is Exited || event is ChildGone,
            Status::AwaitingResume => event is Resumed || event is ResumeFailed,
            Status::Finished { .. } => false,
            Status::Aborted(_) => false,
        }
    }

    /// The session after an event that it accepts.
    pub open spec fn after(self, event: Event) -> Session {
        match event {
            Event::Stopped(regs) => if is_known(regs.orig_rax as int) {
                Session {
                    pid: self.pid,
                    expect: self.expect.toggled(),
                    status: Status::AwaitingResume,
                }
            } else {
                self.with_status(
                    Status::Aborted(TraceError::UnknownSyscall { number: regs.orig_rax }),
                )
            },
            Event::Exited { status } => self.with_status(Status::Finished { exit_status: status }),
            Event::ChildGone => self.with_status(Status::Finished { exit_status: 0 }),
            Event::Resumed => self.with_status(Status::AwaitingStop),
            Event::ResumeFailed => self.with_status(Status::Aborted(TraceError::ResumeFailed)),
        }
    }

    /// The session in another status.
    pub open spec fn with_status(self, status: Status) -> Session {
        Session { pid: self.pid, expect: self.expect, status }
    }

    /// Whether the event is a stop that the session answers with a resume.
    pub open spec fn issues_resume(self, event: Event) -> bool {
        event matches Event::Stopped(regs) && is_known(regs.orig_rax as int)
    }

    /// Whether `line` is the line for a stop with the given registers: at an
    /// entry the line of the entry event, with the string arguments read from
    /// the source, at an exit the line of the exit event.
    pub open spec fn is_line_of<F: Fn(u64) -> Option<i64>>(
        self,
        read_word: &F,
        regs: Registers,
        line: Seq<char>,
    ) -> bool {
        let snapshot = snapshot_of(regs);
        match self.expect {
            TracerState::ExpectEntry => exists|texts: Seq<Seq<char>>|
                texts_read(
                    read_word,
                    signature_of(snapshot.syscall_number as int).arg_kinds@,
                    snapshot.args@,
                    texts,
                ) && line == (#[trigger] entry_view(self.pid as int, snapshot, texts)).line(),
            TracerState::ExpectExit => line == exit_view(self.pid as int, snapshot).line(),
        }
    }

    /// Whether `line` can be the line for a stop with the given registers,
    /// whatever the tracee's memory holds.
    pub open spec fn may_be_line_of(self, regs: Registers, line: Seq<char>) -> bool {
        let snapshot = snapshot_of(regs);
        match self.expect {
            TracerState::ExpectEntry => exists|texts: Seq<Seq<char>>|
                texts_possible(signature_of(snapshot.syscall_number as int).arg_kinds@, texts)
                    && line == (#[trigger] entry_view(self.pid as int, snapshot, texts)).line(),
            TracerState::ExpectExit => line == exit_view(self.pid as int, snapshot).line(),
        }
    }

    /// Starts the session of the tracee `pid`.
    pub fn new(pid: i32) -> (session: Session)
        ensures
            session == Session::initial(pid),
    {
        Session { pid, expect: TracerState::ExpectEntry, status: Status::AwaitingStop }
    }

    /// Whether the event can come in the session's status.
    pub fn can_take(&self, event: &Event) -> (fits: bool)
        ensures
            fits == self.accepts(*event),
    {
        match self.status {
            Status::AwaitingStop => match event {
                Event::Stopped(_) => true,
                Event::Exited { .. } => true,
                Event::ChildGone => true,
                _ => false,
            },
            Status::AwaitingResume => match event {
                Event::Resumed => true,
                Event::ResumeFailed => true,
                _ => false,
            },
            _ => false,
        }
    }

    /// Takes one event and says what to do next, reading the tracee's memory
    /// through `read_word`.
    ///
    /// A stop is decoded by the state's toggle, as an entry or as an exit,
    /// and answered with its line and the request to resume; the toggle then
    /// flips. A stop whose system call the signature table does not hold
    /// aborts the session, and so does a resume that failed. The tracee's end
    /// finishes the session. An event that cannot come in the session's
    /// status is not taken: the session stays as it is, and there is no
    /// action.
    pub fn step_with<F: Fn(u64) -> Option<i64>>(&mut self, event: Event, read_word: &F) -> (action:
        Option<Action>)
        requires
            forall|at: u64| call_requires(*read_word, (at,)),
        ensures
            action is Some <==> old(self).accepts(event),
            action is None ==> *final(self) == *old(self),
            action matches Some(next) ==> {
                &&& *final(self) == old(self).after(event)
                &&& next.answers(final(self).status)
                &&& next is Resume <==> old(self).issues_resume(event)
                &&& next matches Action::Resume { line } ==> event matches Event::Stopped(regs)
                    && old(self).is_line_of(read_word, regs, line@)
            },
    {
        if !self.can_take(&event) {
            return None;
        }
        let action = match event {
            Event::Stopped(regs) => {
                let snapshot = RegisterSnapshot::capture(&regs);
                let decoded = match self.expect {
                    TracerState::ExpectEntry => decode_entry(read_word, self.pid, &snapshot),
                    TracerState::ExpectExit => decode_exit(self.pid, &snapshot),
                };
                match decoded {
                    Ok(trace_event) => {
                        let line = trace_event.format();
                        self.expect = self.expect.toggle();
                        self.status = Status::AwaitingResume;
                        Action::Resume { line }
                    },
                    Err(error) => {
                        self.status = Status::Aborted(error);
                        Action::Abort(error)
                    },
                }
            },
            Event::Exited { status } => {
                self.status = Status::Finished { exit_status: status };
                Action::Finish { exit_status: status }
            },
            Event::ChildGone => {
                self.status = Status::Finished { exit_status: 0 };
                Action::Finish { exit_status: 0 }
            },
            Event::Resumed => {
                self.status = Status::AwaitingStop;
                Action::Wait
            },
            Event::ResumeFailed => {
                self.status = Status::Aborted(TraceError::ResumeFailed);
                Action::Abort(TraceError::ResumeFailed)
            },
        };
        Some(action)
    }

    /// Takes one event and says what to do next, as `step_with` does, reading
    /// the memory of the tracee itself. What a string argument holds depends
    /// on the tracee.
    pub fn step(&mut self, event: Event) -> (action: Option<Action>)
        ensures
            action is Some <==> old(self).accepts(event),
            action is None ==> *final(self) == *old(self),
            action matches Some(next) ==> {
                &&& *final(self) == old(self).after(event)
                &&& next.answers(final(self).status)
                &&& next is Resume <==> old(self).issues_resume(event)
                &&& next matches Action::Resume { line } ==> event matches Event::Stopped(regs)
                    && old(self).may_be_line_of(regs, line@)
            },
    {
        let pid = self.pid;
        let peek = |at: u64| -> (word: Option<i64>) { read_word_at(pid, at) };
        let action = self.step_with(event, &peek);
        proof {
            if action is Some && action->Some_0 is Resume && old(self).expect
                == TracerState::ExpectEntry {
                let line = action->Some_0->line@;
                let snapshot = snapshot_of(event->Stopped_0);
                let texts = choose|texts: Seq<Seq<char>>|
                    texts_read(
                        &peek,
                        signature_of(snapshot.syscall_number as int).arg_kinds@,
                        snapshot.args@,
                        texts,
                    ) && line == (#[trigger] entry_view(
                        old(self).pid as int,
                        snapshot,
                        texts,
                    )).line();
                lemma_texts_read_are_possible(
                    &peek,
                    signature_of(snapshot.syscall_number as int).arg_kinds@,
                    snapshot.args@,
                    texts,
                );
            }
        }
        action
    }
}

/// The session after a run of events.
pub open spec fn run(start: Session, events: Seq<Event>) -> Session
    decreases events.len(),
{
    if events.len() == 0 {
        start
    } else {
        run(start, events.drop_last()).after(events.last())
    }
}

/// Whether each event of the run comes in a status that accepts it.
pub open spec fn admissible(start: Session, events: Seq<Event>) -> bool
    decreases events.len(),
{
    events.len() == 0 || (admissible(start, events.drop_last()) && run(
        start,
        events.drop_last(),
    ).accepts(events.last()))
}

/// The number of stops in a run of events.
pub open spec fn stops_observed(events: Seq<Event>) -> nat
    decreases events.len(),
{
    if events.len() == 0 {
        0
    } else {
        stops_observed(events.drop_last()) + if events.last() is Stopped {
            1nat
        } else {
            0nat
        }
    }
}

/// The number of resumes that the session asks for in a run of events.
pub open spec fn resumes_issued(start: Session, events: Seq<Event>) -> nat
    decreases events.len(),
{
    if events.len() == 0 {
        0
    } else {
        resumes_issued(start, events.drop_last()) + if run(
            start,
            events.drop_last(),
        ).issues_resume(events.last()) {
            1nat
        } else {
            0nat
        }
    }
}

/// Over a whole session every stop is answered with exactly one resume, but
/// for a stop at which the session was aborted: the session has then asked
/// for one resume less than it has seen stops. While the session waits for a
/// stop, or after it has finished, the two numbers are equal.
pub proof fn lemma_every_stop_resumed(pid: i32, events: Seq<Event>)
    requires
        admissible(Session::initial(pid), events),
    ensures
        ({
            let start = Session::initial(pid);
            if run(start, events).status matches Status::Aborted(
                TraceError::UnknownSyscall { .. },
            ) {
                resumes_issued(start, events) + 1 == stops_observed(events)
            } else {
                resumes_issued(start, events) == stops_observed(events)
            }
        }),
    decreases events.len(),
{
    if events.len() > 0 {
        lemma_every_stop_resumed(pid, events.drop_last());
    }
}

/// The stops of a session are taken in turn as entry and exit: the session
/// expects an entry when it has answered an even number of stops, and an exit
/// when it has answered an odd number. Its tracee stays the same.
pub proof fn lemma_stops_alternate(pid: i32, events: Seq<Event>)
    requires
        admissible(Session::initial(pid), events),
    ensures
        run(Session::initial(pid), events).pid == pid,
        run(Session::initial(pid), events).expect == if resumes_issued(
            Session::initial(pid),
            events,
        ) % 2 == 0 {
            TracerState::ExpectEntry
        } else {
            TracerState::ExpectExit
        },
    decreases events.len(),
{
    if events.len() > 0 {
        lemma_stops_alternate(pid, events.drop_last());
    }
}

} // verus!
