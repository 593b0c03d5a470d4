//! The decoder: from the registers of a stop to a trace event.
//!
//! At the entry of a system call each argument slot is rendered by its kind,
//! in the order of the slots; a slot without an argument gives nothing. A
//! string argument is read from the tracee's memory and shown in quotes, cut
//! to its first 64 characters and marked where it is longer. At the exit the
//! return value is all that is shown.
use crate::error::TraceError;
use crate::event::TraceEvent;
use crate::event::TraceEventView;
use crate::reader::is_remote_text;
use crate::reader::is_text_at;
use crate::reader::lemma_text_at_is_remote_text;
use crate::reader::read_string_from;
use crate::registers::RegisterSnapshot;
use crate::render::address_token;
use crate::render::decimal;
use crate::render::render_address;
use crate::render::render_integer;
use crate::signature::is_known;
use crate::signature::lookup;
use crate::signature::signature_of;
use crate::signature::ArgKind;
use vstd::prelude::*;

verus! {

/// The most characters of a string argument that a trace line shows.
pub const MAX_STRING_CHARS: usize = 64;

/// What marks a string argument that was cut.
pub open spec fn ellipsis() -> Seq<char> {
    seq!['.', '.', '.']
}

/// The text in quotes, as Rust's `{:?}` writes a string slice: between double
/// quotes, with what cannot stand there as it is written as an escape.
pub uninterp spec fn quoted(text: Seq<char>) -> Seq<char>;

/// A string argument as a trace line shows it: in quotes as a whole where it
/// has at most 64 characters, else its first 64 characters in quotes with the
/// ellipsis after them.
pub open spec fn rendered_string(text: Seq<char>) -> Seq<char> {
    if text.len() <= MAX_STRING_CHARS {
        quoted(text)
    } else {
        quoted(text.take(MAX_STRING_CHARS as int)) + ellipsis()
    }
}

/// What one slot adds to the argument list: nothing where the call has no
/// argument there.
pub open spec fn rendered_slot(kind: ArgKind, value: u64, text: Seq<char>) -> Option<Seq<char>> {
    match kind {
        ArgKind::Absent => None,
        ArgKind::Integer => Some(decimal(value as nat)),
        ArgKind::String => Some(rendered_string(text)),
        ArgKind::Address => Some(address_token(value as nat)),
    }
}

/// What the first `count` slots add to the argument list, in slot order.
pub open spec fn rendered_upto(
    kinds: Seq<ArgKind>,
    values: Seq<u64>,
    texts: Seq<Seq<char>>,
    count: nat,
) -> Seq<Seq<char>>
    decreases count,
{
    if count == 0 {
        Seq::empty()
    } else {
        let slot = count - 1;
        let front = rendered_upto(kinds, values, texts, slot as nat);
        match rendered_slot(kinds[slot], values[slot], texts[slot]) {
            None => front,
            Some(token) => front.push(token),
        }
    }
}

/// The rendered arguments of a call: what its six slots add, in slot order.
/// `texts` holds, for each string slot, the string read at the slot's value.
pub open spec fn rendered_arguments(
    kinds: Seq<ArgKind>,
    values: Seq<u64>,
    texts: Seq<Seq<char>>,
) -> Seq<Seq<char>> {
    rendered_upto(kinds, values, texts, 6)
}

/// The first `max_chars` characters of `s`; all of `s` where it has no more.
pub fn truncate(s: &str, max_chars: usize) -> (head: &str)
    ensures
        s@.len() <= max_chars ==> head@ == s@,
        s@.len() > max_chars ==> head@ == s@.take(max_chars as int),
{
    if s.unicode_len() <= max_chars {
        s
    } else {
        s.substring_char(0, max_chars)
    }
}

/// Calls the macro `format!` of std with `{:?}` on a string slice. Trusted:
/// the result is a function of the text alone, which `quoted` names.
#[verifier::external_body]
fn quote(text: &str) -> (out: String)
    ensures
        out@ == quoted(text@),
{
    format!("{:?}", text)
}

/// Marks a quoted string that was cut: the ellipsis is put after it.
pub fn mark_clipped(quoted_head: String, clipped: bool) -> (token: String)
    ensures
        clipped ==> token@ == quoted_head@ + ellipsis(),
        !clipped ==> token@ == quoted_head@,
{
    if clipped {
        proof {
            reveal_strlit("...");
        }
        quoted_head.concat("...")
    } else {
        quoted_head
    }
}

/// Renders a string argument whose text was read from the tracee.
pub fn render_string(text: &str) -> (token: String)
    ensures
        token@ == rendered_string(text@),
{
    let head = truncate(text, MAX_STRING_CHARS);
    let clipped = text.unicode_len() > MAX_STRING_CHARS;
    mark_clipped(quote(head), clipped)
}

/// Renders one argument slot. `text` is used for a string slot alone.
pub fn render_slot(kind: ArgKind, value: u64, text: &str) -> (token: Option<String>)
    ensures
        token is Some <==> kind != ArgKind::Absent,
        match token {
            Some(t) => rendered_slot(kind, value, text@) == Some(t@),
            None => rendered_slot(kind, value, text@) is None,
        },
{
    match kind {
        ArgKind::Absent => None,
        ArgKind::Integer => Some(render_integer(value)),
        ArgKind::String => Some(render_string(text)),
        ArgKind::Address => Some(render_address(value)),
    }
}

/// Renders the arguments of a call from its six slots, in slot order.
pub fn render_arguments(kinds: &[ArgKind; 6], values: &[u64; 6], texts: &[String; 6]) -> (rendered:
    Vec<String>)
    ensures
        rendered.deep_view() == rendered_arguments(kinds@, values@, texts.deep_view()),
{
    let mut rendered: Vec<String> = Vec::new();
    let mut slot: usize = 0;
    while slot < 6
        invariant
            0 <= slot <= 6,
            rendered.deep_view() == rendered_upto(
                kinds@,
                values@,
                texts.deep_view(),
                slot as nat,
            ),
        decreases 6 - slot,
    {
        let ghost before = rendered.deep_view();
        match render_slot(kinds[slot], values[slot], texts[slot].as_str()) {
            None => {},
            Some(token) => {
                let ghost token_text = token@;
                rendered.push(token);
                assert(rendered.deep_view() == before.push(token_text));
            },
        }
        slot += 1;
    }
    rendered
}

/// Whether `texts` is what reading the string arguments of a call from the
/// source can give: for a string slot a string read at the slot's value, for
/// any other slot nothing.
pub open spec fn texts_read<F: Fn(u64) -> Option<i64>>(
    read_word: &F,
    kinds: Seq<ArgKind>,
    values: Seq<u64>,
    texts: Seq<Seq<char>>,
) -> bool {
    &&& texts.len() == 6
    &&& forall|slot: int|
        0 <= slot < 6 ==> if kinds[slot] == ArgKind::String {
            is_text_at(read_word, values[slot], #[trigger] texts[slot])
        } else {
            texts[slot].len() == 0
        }
}

/// Whether `texts` can be what reading the string arguments of a call gives,
/// whatever the memory holds: for a string slot a string read from memory,
/// for any other slot nothing.
pub open spec fn texts_possible(kinds: Seq<ArgKind>, texts: Seq<Seq<char>>) -> bool {
    &&& texts.len() == 6
    &&& forall|slot: int|
        0 <= slot < 6 ==> if kinds[slot] == ArgKind::String {
            is_remote_text(#[trigger] texts[slot])
        } else {
            texts[slot].len() == 0
        }
}

/// What was read from one source is what can be read from any.
pub proof fn lemma_texts_read_are_possible<F: Fn(u64) -> Option<i64>>(
    read_word: &F,
    kinds: Seq<ArgKind>,
    values: Seq<u64>,
    texts: Seq<Seq<char>>,
)
    requires
        texts_read(read_word, kinds, values, texts),
    ensures
        texts_possible(kinds, texts),
{
    assert forall|slot: int| 0 <= slot < 6 && kinds[slot] == ArgKind::String implies is_remote_text(
        #[trigger] texts[slot],
    ) by {
        lemma_text_at_is_remote_text(read_word, values[slot], texts[slot]);
    }
}

/// The entry event of the call that `snapshot` shows, where `texts` holds the
/// strings read for its string slots.
pub open spec fn entry_view(pid: int, snapshot: RegisterSnapshot, texts: Seq<Seq<char>>)
    -> TraceEventView {
    let sig = signature_of(snapshot.syscall_number as int);
    TraceEventView::entry(
        pid,
        sig.name@,
        rendered_arguments(sig.arg_kinds@, snapshot.args@, texts),
    )
}

/// The exit event of the call that `snapshot` shows.
pub open spec fn exit_view(pid: int, snapshot: RegisterSnapshot) -> TraceEventView {
    TraceEventView::exit(
        pid,
        signature_of(snapshot.syscall_number as int).name@,
        snapshot.return_value,
    )
}

/// Whether `event` is the entry event of the call that `snapshot` shows, with
/// its string arguments read from the source.
pub open spec fn is_entry_event<F: Fn(u64) -> Option<i64>>(
    read_word: &F,
    pid: int,
    snapshot: RegisterSnapshot,
    event: TraceEventView,
) -> bool {
    exists|texts: Seq<Seq<char>>|
        texts_read(
            read_word,
            signature_of(snapshot.syscall_number as int).arg_kinds@,
            snapshot.args@,
            texts,
        ) && event == #[trigger] entry_view(pid, snapshot, texts)
}

/// Reads the string arguments of a call from the source: for each string slot
/// the string at the slot's value. The other slots get an empty text, and
/// nothing is read for them.
pub fn read_texts<F: Fn(u64) -> Option<i64>>(
    read_word: &F,
    kinds: &[ArgKind; 6],
    values: &[u64; 6],
) -> (texts: [String; 6])
    requires
        forall|at: u64| call_requires(*read_word, (at,)),
    ensures
        texts_read(read_word, kinds@, values@, texts.deep_view()),
{
    let mut texts: [String; 6] = [
        String::new(),
        String::new(),
        String::new(),
        String::new(),
        String::new(),
        String::new(),
    ];
    let mut slot: usize = 0;
    while slot < 6
        invariant
            0 <= slot <= 6,
            forall|at: u64| call_requires(*read_word, (at,)),
            forall|k: int|
                0 <= k < slot ==> if kinds@[k] == ArgKind::String {
                    is_text_at(read_word, values@[k], #[trigger] texts@[k]@)
                } else {
                    texts@[k]@.len() == 0
                },
            forall|k: int| slot <= k < 6 ==> (#[trigger] texts@[k])@.len() == 0,
        decreases 6 - slot,
    {
        match kinds[slot] {
            ArgKind::String => {
                texts[slot] = read_string_from(read_word, values[slot]);
            },
            _ => {},
        }
        slot += 1;
    }
    assert forall|k: int| 0 <= k < 6 implies if kinds@[k] == ArgKind::String {
        is_text_at(read_word, values@[k], #[trigger] texts.deep_view()[k])
    } else {
        texts.deep_view()[k].len() == 0
    } by {
        assert(texts.deep_view()[k] == texts@[k]@);
    }
    texts
}

/// The entry event of the call that `snapshot` shows, from the strings that
/// were read for its string slots. A number that the signature table does not
/// hold is an error.
pub fn entry_event(pid: i32, snapshot: &RegisterSnapshot, texts: &[String; 6]) -> (result: Result<
    TraceEvent,
    TraceError,
>)
    ensures
        result is Ok <==> is_known(snapshot.syscall_number as int),
        result matches Ok(event) ==> event@ == entry_view(
            pid as int,
            *snapshot,
            texts.deep_view(),
        ),
        result matches Err(error) ==> error == (TraceError::UnknownSyscall {
            number: snapshot.syscall_number,
        }),
{
    match lookup(snapshot.syscall_number) {
        None => Err(TraceError::UnknownSyscall { number: snapshot.syscall_number }),
        Some(sig) => {
            let rendered = render_arguments(&sig.arg_kinds, &snapshot.args, texts);
            Ok(TraceEvent::entry(pid, String::from_str(sig.name), rendered))
        },
    }
}

/// Decodes the entry of a system call: looks up the call's signature, reads
/// its string arguments from the source, and renders its arguments. A number
/// that the signature table does not hold is an error, and then nothing is
/// read.
pub fn decode_entry<F: Fn(u64) -> Option<i64>>(
    read_word: &F,
    pid: i32,
    snapshot: &RegisterSnapshot,
) -> (result: Result<TraceEvent, TraceError>)
    requires
        forall|at: u64| call_requires(*read_word, (at,)),
    ensures
        result is Ok <==> is_known(snapshot.syscall_number as int),
        result matches Ok(event) ==> is_entry_event(read_word, pid as int, *snapshot, event@),
        result matches Err(error) ==> error == (TraceError::UnknownSyscall {
            number: snapshot.syscall_number,
        }),
{
    match lookup(snapshot.syscall_number) {
        None => Err(TraceError::UnknownSyscall { number: snapshot.syscall_number }),
        Some(sig) => {
            let texts = read_texts(read_word, &sig.arg_kinds, &snapshot.args);
            let result = entry_event(pid, snapshot, &texts);
            proof {
                if result is Ok {
                    assert(result->Ok_0@ == entry_view(
                        pid as int,
                        *snapshot,
                        texts.deep_view(),
                    ));
                }
            }
            result
        },
    }
}

/// Decodes the exit of a system call: the return value is all that is
/// shown. A number that the signature table does not hold is an error.
pub fn decode_exit(pid: i32, snapshot: &RegisterSnapshot) -> (result: Result<
    TraceEvent,
    TraceError,
>)
    ensures
        result is Ok <==> is_known(snapshot.syscall_number as int),
        result matches Ok(event) ==> event@ == exit_view(pid as int, *snapshot),
        result matches Err(error) ==> error == (TraceError::UnknownSyscall {
            number: snapshot.syscall_number,
        }),
{
    match lookup(snapshot.syscall_number) {
        None => Err(TraceError::UnknownSyscall { number: snapshot.syscall_number }),
        Some(sig) => Ok(TraceEvent::exit(pid, String::from_str(sig.name), snapshot.return_value)),
    }
}

/// The slots among the first `count` that hold an argument, in rising order.
pub open spec fn present_slots(kinds: Seq<ArgKind>, count: nat) -> Seq<int>
    decreases count,
{
    if count == 0 {
        Seq::empty()
    } else {
        let slot = count - 1;
        let front = present_slots(kinds, slot as nat);
        if kinds[slot] == ArgKind::Absent {
            front
        } else {
            front.push(slot)
        }
    }
}

/// The rendered arguments are the tokens of the slots that hold an argument,
/// one for each, in the order of the slots. A slot without an argument has no
/// token.
pub proof fn lemma_arguments_in_slot_order(
    kinds: Seq<ArgKind>,
    values: Seq<u64>,
    texts: Seq<Seq<char>>,
    count: nat,
)
    ensures
        rendered_upto(kinds, values, texts, count).len() == present_slots(kinds, count).len(),
        forall|p: int|
            #![trigger present_slots(kinds, count)[p]]
            0 <= p < present_slots(kinds, count).len() ==> {
                let slot = present_slots(kinds, count)[p];
                &&& 0 <= slot < count
                &&& kinds[slot] != ArgKind::Absent
                &&& rendered_slot(kinds[slot], values[slot], texts[slot]) == Some(
                    rendered_upto(kinds, values, texts, count)[p],
                )
            },
        forall|p: int, q: int|
            0 <= p < q < present_slots(kinds, count).len() ==> present_slots(kinds, count)[p]
                < present_slots(kinds, count)[q],
        forall|slot: int|
            0 <= slot < count && kinds[slot] != ArgKind::Absent ==> present_slots(
                kinds,
                count,
            ).contains(slot),
    decreases count,
{
    if count > 0 {
        let last = count - 1;
        let front = present_slots(kinds, last as nat);
        let slots = present_slots(kinds, count);
        lemma_arguments_in_slot_order(kinds, values, texts, last as nat);
        assert forall|slot: int|
            0 <= slot < count && kinds[slot] != ArgKind::Absent implies slots.contains(slot) by {
            if slot < last {
                let p = choose|p: int| 0 <= p < front.len() && front[p] == slot;
                assert(slots[p] == slot);
            } else {
                assert(slots[slots.len() - 1] == slot);
            }
        }
    }
}

/// A string of at most 64 characters is shown whole and unmarked. A longer
/// one is shown as its first 64 characters and the ellipsis, whatever comes
/// after them: two strings that differ only past the 64th character are shown
/// alike.
pub proof fn lemma_string_cut_at_limit(text: Seq<char>, other: Seq<char>)
    ensures
        text.len() <= 64 ==> rendered_string(text) == quoted(text),
        text.len() > 64 ==> rendered_string(text) == quoted(text.take(64)) + ellipsis(),
        text.len() > 64 && other.len() > 64 && text.take(64) == other.take(64)
            ==> rendered_string(text) == rendered_string(other),
{
}

} // verus!
