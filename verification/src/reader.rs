//! The remote memory reader: a best-effort read of a NUL-terminated string
//! from the memory of a stopped tracee, one eight-byte word at a time.
//!
//! A word is taken apart in little-endian order. Every byte stands for one
//! character, the one with the byte's value as its code point. A word that
//! cannot be read ends the string where it stands; that is no error.
//!
//! The reader takes the source of the words as a function from an address to
//! the word there, or to `None` where there is none to be had. For a tracee
//! that function is a peek into its memory; any other function will do as
//! well, which is how the reader can be tried without a tracee.
use byteorder::ByteOrder;
use byteorder::LittleEndian;
use nix::sys::ptrace;
use nix::unistd::Pid;
use vstd::prelude::*;

verus! {

/// The number of bytes in one word of the tracee's memory.
pub const WORD_SIZE: u64 = 8;

/// The word as an unsigned number: its two's complement bit pattern.
pub open spec fn bit_pattern(word: i64) -> int {
    if word >= 0 {
        word as int
    } else {
        word + 0x1_0000_0000_0000_0000
    }
}

/// The eight bytes of a word, least significant first.
pub open spec fn le_bytes(word: i64) -> Seq<u8> {
    let bits = bit_pattern(word);
    seq![
        (bits % 0x100) as u8,
        (bits / 0x100 % 0x100) as u8,
        (bits / 0x1_0000 % 0x100) as u8,
        (bits / 0x100_0000 % 0x100) as u8,
        (bits / 0x1_0000_0000 % 0x100) as u8,
        (bits / 0x100_0000_0000 % 0x100) as u8,
        (bits / 0x1_0000_0000_0000 % 0x100) as u8,
        (bits / 0x100_0000_0000_0000 % 0x100) as u8,
    ]
}

/// The index of the first zero byte, or the length where there is none.
pub open spec fn terminator_index(bytes: Seq<u8>) -> int
    decreases bytes.len(),
{
    if bytes.len() == 0 || bytes[0] == 0 {
        0
    } else {
        1 + terminator_index(bytes.drop_first())
    }
}

/// The bytes in front of the first zero byte; all of them where none is zero.
pub open spec fn until_terminator(bytes: Seq<u8>) -> Seq<u8> {
    bytes.take(terminator_index(bytes))
}

/// The characters that the bytes stand for, one for each byte.
pub open spec fn latin1_text(bytes: Seq<u8>) -> Seq<char> {
    Seq::new(bytes.len(), |i: int| bytes[i] as char)
}

/// The bytes of the words, in order.
pub open spec fn words_bytes(words: Seq<i64>) -> Seq<u8>
    decreases words.len(),
{
    if words.len() == 0 {
        Seq::empty()
    } else {
        words_bytes(words.drop_last()) + le_bytes(words.last())
    }
}

/// The string that a run of words read from memory holds: the characters of
/// their bytes up to the first zero byte.
pub open spec fn words_text(words: Seq<i64>) -> Seq<char> {
    latin1_text(until_terminator(words_bytes(words)))
}

/// Calls `byteorder::ByteOrder::write_i64` of `byteorder::LittleEndian` on an
/// eight-byte buffer. Trusted: the buffer then holds the word's bytes, least
/// significant first.
#[verifier::external_body]
fn word_bytes(word: i64) -> (bytes: [u8; 8])
    ensures
        bytes@ == le_bytes(word),
{
    let mut bytes: [u8; 8] = [0; 8];
    LittleEndian::write_i64(&mut bytes, word);
    bytes
}

/// Calls `nix::sys::ptrace::read`, which peeks one word of the memory of the
/// process `pid` at `address`. Nothing is claimed of the outcome: it depends
/// on the tracee. `None` stands for any failure of the call.
#[verifier::external_body]
pub(crate) fn read_word_at(pid: i32, address: u64) -> (word: Option<i64>) {
    ptrace::read(Pid::from_raw(pid), address as ptrace::AddressType).ok()
}

/// Appends to `text` the characters of the word's bytes that stand in front
/// of its first zero byte, and tells whether it holds a zero byte.
pub fn append_word(text: &mut String, word: i64) -> (terminated: bool)
    ensures
        final(text)@ == old(text)@ + latin1_text(until_terminator(le_bytes(word))),
        terminated == le_bytes(word).contains(0u8),
{
    let bytes = word_bytes(word);
    let mut i: usize = 0;
    while i < 8
        invariant
            0 <= i <= 8,
            bytes@ == le_bytes(word),
            forall|j: int| 0 <= j < i ==> bytes@[j] != 0,
            text@ == old(text)@ + latin1_text(bytes@.take(i as int)),
        decreases 8 - i,
    {
        let b: u8 = bytes[i];
        if b == 0 {
            proof {
                lemma_terminator_index(bytes@, i as int);
            }
            return true;
        }
        text.push(b as char);
        i += 1;
    }
    proof {
        lemma_terminator_index(bytes@, 8);
    }
    false
}

/// Where no byte in front of `index` is zero, and `index` is the length or
/// holds a zero byte, `index` is the terminator's index.
proof fn lemma_terminator_index(bytes: Seq<u8>, index: int)
    requires
        0 <= index <= bytes.len(),
        forall|j: int| 0 <= j < index ==> bytes[j] != 0,
        index == bytes.len() || bytes[index] == 0,
    ensures
        terminator_index(bytes) == index,
        bytes.contains(0u8) <==> index < bytes.len(),
    decreases bytes.len(),
{
    if bytes.len() > 0 && bytes[0] != 0 {
        let rest = bytes.drop_first();
        assert(forall|j: int| 0 <= j < index - 1 ==> rest[j] == bytes[j + 1]);
        lemma_terminator_index(rest, index - 1);
    }
}

/// The terminator's index lies within the bytes, no byte in front of it is
/// zero, and it holds a zero byte unless it is the length.
proof fn lemma_terminator_bounds(bytes: Seq<u8>)
    ensures
        0 <= terminator_index(bytes) <= bytes.len(),
        forall|j: int| 0 <= j < terminator_index(bytes) ==> bytes[j] != 0,
        terminator_index(bytes) == bytes.len() || bytes[terminator_index(bytes)] == 0,
        bytes.contains(0u8) <==> terminator_index(bytes) < bytes.len(),
    decreases bytes.len(),
{
    if bytes.len() > 0 && bytes[0] != 0 {
        let rest = bytes.drop_first();
        lemma_terminator_bounds(rest);
        let index = terminator_index(rest) + 1;
        assert forall|j: int| 0 <= j < index implies bytes[j] != 0 by {
            if j > 0 {
                assert(bytes[j] == rest[j - 1]);
            }
        }
        lemma_terminator_index(bytes, index);
    }
}

/// A string that ends within its first part is not changed by what follows;
/// one that does not goes on into the second part.
proof fn lemma_until_terminator_concat(front: Seq<u8>, back: Seq<u8>)
    ensures
        front.contains(0u8) ==> until_terminator(front + back) == until_terminator(front),
        !front.contains(0u8) ==> until_terminator(front + back) == front + until_terminator(
            back,
        ),
        (front + back).contains(0u8) <==> front.contains(0u8) || back.contains(0u8),
{
    let whole = front + back;
    lemma_terminator_bounds(front);
    lemma_terminator_bounds(back);
    let index = if front.contains(0u8) {
        terminator_index(front)
    } else {
        front.len() + terminator_index(back)
    };
    assert(forall|j: int| front.len() <= j < whole.len() ==> whole[j] == back[j - front.len()]);
    lemma_terminator_index(whole, index);
    if front.contains(0u8) {
        assert(whole.take(index) == front.take(index));
    } else {
        assert(whole.take(index) == front + back.take(index - front.len()));
    }
}

/// The bytes of a run of words are those of any front part of it, followed by
/// those of the rest.
proof fn lemma_words_bytes_split(words: Seq<i64>, count: int)
    requires
        0 <= count <= words.len(),
    ensures
        words_bytes(words) == words_bytes(words.take(count)) + words_bytes(words.skip(count)),
        words_bytes(words).len() == 8 * words.len(),
    decreases words.len(),
{
    if words.len() == 0 {
        assert(words.take(count) == words);
    } else if count == words.len() {
        assert(words.take(count) == words);
        lemma_words_bytes_split(words.drop_last(), 0);
    } else {
        let front = words.drop_last();
        lemma_words_bytes_split(front, count);
        assert(front.take(count) == words.take(count));
        assert(front.skip(count) == words.skip(count).drop_last());
    }
}

/// Whether the word holds a zero byte, the end of a string.
pub fn has_terminator(word: i64) -> (found: bool)
    ensures
        found == le_bytes(word).contains(0u8),
{
    let bytes = word_bytes(word);
    let mut i: usize = 0;
    while i < 8
        invariant
            0 <= i <= 8,
            bytes@ == le_bytes(word),
            forall|j: int| 0 <= j < i ==> bytes@[j] != 0,
        decreases 8 - i,
    {
        if bytes[i] == 0 {
            return true;
        }
        i += 1;
    }
    false
}

/// The string that a run of words holds: the words are taken in order up to
/// the first that holds a zero byte, and the string ends in front of that byte.
pub fn decode_words(words: &Vec<i64>) -> (text: String)
    ensures
        text@ == words_text(words@),
{
    let mut text = String::new();
    let mut i: usize = 0;
    while i < words.len()
        invariant
            0 <= i <= words.len(),
            !words_bytes(words@.take(i as int)).contains(0u8),
            text@ == latin1_text(words_bytes(words@.take(i as int))),
        decreases words.len() - i,
    {
        let ghost front = words_bytes(words@.take(i as int));
        let ghost upto = words_bytes(words@.take(i + 1));
        proof {
            assert(words@.take(i + 1).drop_last() == words@.take(i as int));
            lemma_until_terminator_concat(front, le_bytes(words@[i as int]));
            lemma_terminator_bounds(front);
            assert(latin1_text(front + until_terminator(le_bytes(words@[i as int])))
                == latin1_text(front) + latin1_text(until_terminator(le_bytes(words@[i as int]))));
        }
        let terminated = append_word(&mut text, words[i]);
        if terminated {
            proof {
                lemma_words_bytes_split(words@, i + 1);
                lemma_until_terminator_concat(upto, words_bytes(words@.skip(i + 1)));
            }
            return text;
        }
        proof {
            lemma_terminator_bounds(le_bytes(words@[i as int]));
        }
        i += 1;
    }
    proof {
        assert(words@.take(i as int) == words@);
        lemma_terminator_bounds(words_bytes(words@));
    }
    text
}

/// The address of the word that a read from `address` on fetches as its
/// `index`-th, counted from zero.
pub open spec fn word_address(address: u64, index: int) -> u64 {
    (address + WORD_SIZE * index) as u64
}

/// Whether a read from `address` on that has fetched `words` ends there: the
/// last word holds a zero byte, or the next word lies past the end of the
/// address space, or the source has no next word.
pub open spec fn ended<F: Fn(u64) -> Option<i64>>(
    read_word: &F,
    address: u64,
    words: Seq<i64>,
) -> bool {
    ||| words.len() > 0 && le_bytes(words.last()).contains(0u8)
    ||| address + WORD_SIZE * words.len() > u64::MAX
    ||| call_ensures(*read_word, (word_address(address, words.len() as int),), None)
}

/// Whether `words` is what a read from `address` on fetches from the source:
/// each word is what the source gives at its address, eight bytes after the
/// word before; none but the last holds a zero byte; and the read ends after
/// them.
pub open spec fn fetched<F: Fn(u64) -> Option<i64>>(
    read_word: &F,
    address: u64,
    words: Seq<i64>,
) -> bool {
    &&& words.len() > 0 ==> address + WORD_SIZE * (words.len() - 1) <= u64::MAX
    &&& forall|i: int|
        0 <= i < words.len() ==> call_ensures(
            *read_word,
            (word_address(address, i),),
            Some(#[trigger] words[i]),
        )
    &&& forall|i: int| 0 <= i < words.len() - 1 ==> !le_bytes(#[trigger] words[i]).contains(0u8)
    &&& ended(read_word, address, words)
}

/// Whether `text` is a string that a read from `address` on can give.
pub open spec fn is_text_at<F: Fn(u64) -> Option<i64>>(
    read_word: &F,
    address: u64,
    text: Seq<char>,
) -> bool {
    exists|words: Seq<i64>|
        #[trigger] fetched(read_word, address, words) && text == words_text(words)
}

/// Whether some run of words holds the text: what a read of a tracee's memory
/// can give, whatever the memory holds.
pub open spec fn is_remote_text(text: Seq<char>) -> bool {
    exists|words: Seq<i64>| text == #[trigger] words_text(words)
}

/// Fetches words from `address` on, each eight bytes after the one before.
/// The read ends with the first word that the source does not have, after the
/// first that holds a zero byte, and at the end of the address space.
pub fn fetch_words<F: Fn(u64) -> Option<i64>>(read_word: &F, address: u64) -> (words: Vec<i64>)
    requires
        forall|at: u64| call_requires(*read_word, (at,)),
    ensures
        fetched(read_word, address, words@),
{
    let mut words: Vec<i64> = Vec::new();
    let mut at: u64 = address;
    loop
        invariant_except_break
            at == address + WORD_SIZE * words.len(),
            forall|i: int| 0 <= i < words.len() ==> !le_bytes(#[trigger] words[i]).contains(0u8),
        invariant
            forall|a: u64| call_requires(*read_word, (a,)),
            forall|i: int|
                0 <= i < words.len() ==> call_ensures(
                    *read_word,
                    (word_address(address, i),),
                    Some(#[trigger] words[i]),
                ),
        ensures
            fetched(read_word, address, words@),
        decreases u64::MAX - at,
    {
        match read_word(at) {
            None => {
                break ;
            },
            Some(word) => {
                words.push(word);
                if has_terminator(word) || at > u64::MAX - WORD_SIZE {
                    break ;
                }
                at = at + WORD_SIZE;
            },
        }
    }
    words
}

/// Reads the NUL-terminated string at `address` from the source, as far as it
/// can be read. A word that cannot be read ends the string: what was read up
/// to there is the result, and it may be empty.
pub fn read_string_from<F: Fn(u64) -> Option<i64>>(read_word: &F, address: u64) -> (text: String)
    requires
        forall|at: u64| call_requires(*read_word, (at,)),
    ensures
        is_text_at(read_word, address, text@),
{
    let words = fetch_words(read_word, address);
    decode_words(&words)
}

/// Reads the NUL-terminated string at `address` in the memory of the process
/// `pid`, as far as it can be read. A word that cannot be read ends the
/// string: what was read up to there is the result, and it may be empty.
///
/// What the memory holds depends on the tracee; the result is the string of
/// the words that were read.
pub fn read_string(pid: i32, address: u64) -> (text: String)
    ensures
        is_remote_text(text@),
{
    let peek = |at: u64| -> (word: Option<i64>) { read_word_at(pid, at) };
    let text = read_string_from(&peek, address);
    proof {
        lemma_text_at_is_remote_text(&peek, address, text@);
    }
    text
}

/// A read that fails after whole words, none of which holds a zero byte,
/// gives exactly the characters of those words' bytes: eight for each word,
/// and nothing after them.
pub proof fn lemma_unterminated_words_read_whole(words: Seq<i64>)
    requires
        forall|i: int| 0 <= i < words.len() ==> !le_bytes(#[trigger] words[i]).contains(0u8),
    ensures
        words_text(words) == latin1_text(words_bytes(words)),
        words_text(words).len() == 8 * words.len(),
    decreases words.len(),
{
    lemma_words_bytes_split(words, 0);
    if words.len() > 0 {
        let front = words.drop_last();
        lemma_unterminated_words_read_whole(front);
        lemma_terminator_bounds(words_bytes(front));
        lemma_until_terminator_concat(words_bytes(front), le_bytes(words.last()));
        lemma_terminator_bounds(le_bytes(words.last()));
    }
    lemma_terminator_bounds(words_bytes(words));
}

/// A string read from memory holds no NUL, and each of its characters is one
/// byte's worth: its code point is at most 255.
pub proof fn lemma_remote_text_chars(text: Seq<char>)
    requires
        is_remote_text(text),
    ensures
        forall|i: int| 0 <= i < text.len() ==> 1 <= (#[trigger] text[i]) as int <= 255,
{
    let words = choose|words: Seq<i64>| text == #[trigger] words_text(words);
    let bytes = words_bytes(words);
    lemma_terminator_bounds(bytes);
    assert forall|i: int| 0 <= i < text.len() implies 1 <= (#[trigger] text[i]) as int <= 255 by {
        assert(text[i] == bytes[i] as char);
    }
}

/// What can be read at an address from any source is a string read from
/// memory.
pub proof fn lemma_text_at_is_remote_text<F: Fn(u64) -> Option<i64>>(
    read_word: &F,
    address: u64,
    text: Seq<char>,
)
    requires
        is_text_at(read_word, address, text),
    ensures
        is_remote_text(text),
{
    let words = choose|words: Seq<i64>|
        #[trigger] fetched(read_word, address, words) && text == words_text(words);
    assert(text == words_text(words));
}

/// Where the source gives whole words without a zero byte and then has no
/// next word, the string read is exactly the characters of those words'
/// bytes, and nothing after them. The source is taken to answer in one way
/// only at the addresses that the read visits.
pub proof fn lemma_failed_read_keeps_whole_words<F: Fn(u64) -> Option<i64>>(
    read_word: &F,
    address: u64,
    words: Seq<i64>,
    text: Seq<char>,
)
    requires
        address + WORD_SIZE * words.len() <= u64::MAX,
        forall|i: int|
            0 <= i < words.len() ==> !le_bytes(#[trigger] words[i]).contains(0u8),
        forall|i: int, word: Option<i64>|
            0 <= i < words.len() && #[trigger] call_ensures(
                *read_word,
                (word_address(address, i),),
                word,
            ) ==> word == Some(words[i]),
        forall|word: Option<i64>|
            #[trigger] call_ensures(
                *read_word,
                (word_address(address, words.len() as int),),
                word,
            ) ==> word is None,
        is_text_at(read_word, address, text),
    ensures
        text == latin1_text(words_bytes(words)),
        text.len() == 8 * words.len(),
{
    let read = choose|read: Seq<i64>|
        #[trigger] fetched(read_word, address, read) && text == words_text(read);
    assert forall|i: int| 0 <= i < read.len() && i < words.len() implies read[i] == words[i] by {
        assert(call_ensures(*read_word, (word_address(address, i),), Some(read[i])));
    }
    if read.len() > words.len() {
        assert(call_ensures(
            *read_word,
            (word_address(address, words.len() as int),),
            Some(read[words.len() as int]),
        ));
    }
    if 0 < read.len() < words.len() {
        assert(read.last() == words[read.len() - 1]);
    }
    assert(read == words);
    lemma_unterminated_words_read_whole(words);
}

} // verus!
