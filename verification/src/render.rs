//! Numbers and lists as text: the building blocks of a trace line.
use vstd::prelude::*;

verus! {

/// `std::string::String::push`, for which vstd has no specification.
/// Trusted: the string then is what it was, with the character at its end.
pub assume_specification[ std::string::String::push ](text: &mut std::string::String, ch: char)
    ensures
        final(text)@ == old(text)@.push(ch),
;

/// The character of one digit: `0` to `9`, then `a` to `f`.
pub open spec fn digit(d: int) -> char {
    if d < 10 {
        (48 + d) as char
    } else {
        (87 + d) as char
    }
}

/// `n` in decimal, most significant digit first, without leading zeros; a
/// single `0` for zero.
pub open spec fn decimal(n: nat) -> Seq<char>
    decreases n,
{
    if n < 10 {
        seq![digit(n as int)]
    } else {
        decimal(n / 10).push(digit((n % 10) as int))
    }
}

/// `n` in decimal, with a minus sign in front where it is negative.
pub open spec fn signed_decimal(n: int) -> Seq<char> {
    if n < 0 {
        seq!['-'] + decimal((-n) as nat)
    } else {
        decimal(n as nat)
    }
}

/// `n` in hexadecimal, in lower case, most significant digit first, without
/// leading zeros; a single `0` for zero.
pub open spec fn hexadecimal(n: nat) -> Seq<char>
    decreases n,
{
    if n < 16 {
        seq![digit(n as int)]
    } else {
        hexadecimal(n / 16).push(digit((n % 16) as int))
    }
}

/// An address as a token: `0x` and the hexadecimal digits.
pub open spec fn address_token(n: nat) -> Seq<char> {
    seq!['0', 'x'] + hexadecimal(n)
}

/// What stands between two items of a list.
pub open spec fn separator() -> Seq<char> {
    seq![',', ' ']
}

/// The items in order, with a separator between each two of them: none in
/// front of the first, none after the last, none for an empty list.
pub open spec fn joined(parts: Seq<Seq<char>>) -> Seq<char>
    decreases parts.len(),
{
    if parts.len() == 0 {
        Seq::empty()
    } else if parts.len() == 1 {
        parts[0]
    } else {
        joined(parts.drop_last()) + separator() + parts.last()
    }
}

/// The sum of the items' lengths.
pub open spec fn total_len(parts: Seq<Seq<char>>) -> nat
    decreases parts.len(),
{
    if parts.len() == 0 {
        0
    } else {
        total_len(parts.drop_last()) + parts.last().len()
    }
}

fn digit_char(d: u64) -> (c: char)
    requires
        d < 16,
    ensures
        c == digit(d as int),
{
    let small: u8 = d as u8;
    if small < 10 {
        (48 + small) as char
    } else {
        (87 + small) as char
    }
}

/// Appends `value` in decimal.
pub fn push_decimal(text: &mut String, value: u64)
    ensures
        final(text)@ == old(text)@ + decimal(value as nat),
    decreases value,
{
    if value >= 10 {
        push_decimal(text, value / 10);
    }
    text.push(digit_char(value % 10));
}

/// Appends `value` in hexadecimal.
pub fn push_hexadecimal(text: &mut String, value: u64)
    ensures
        final(text)@ == old(text)@ + hexadecimal(value as nat),
    decreases value,
{
    if value >= 16 {
        push_hexadecimal(text, value / 16);
    }
    text.push(digit_char(value % 16));
}

/// Appends `value` in decimal, with its sign where it is negative.
pub fn push_signed_decimal(text: &mut String, value: i64)
    ensures
        final(text)@ == old(text)@ + signed_decimal(value as int),
{
    if value < 0 {
        text.push('-');
        let magnitude: u64 = if value == i64::MIN {
            0x8000_0000_0000_0000
        } else {
            (-value) as u64
        };
        push_decimal(text, magnitude);
    } else {
        push_decimal(text, value as u64);
    }
}

/// A raw register value as an integer: in decimal.
pub fn render_integer(value: u64) -> (text: String)
    ensures
        text@ == decimal(value as nat),
{
    let mut text = String::new();
    push_decimal(&mut text, value);
    text
}

/// A raw register value as an opaque address: `0x` and its hexadecimal
/// digits.
pub fn render_address(value: u64) -> (text: String)
    ensures
        text@ == address_token(value as nat),
{
    let mut text = String::new();
    text.push('0');
    text.push('x');
    push_hexadecimal(&mut text, value);
    text
}

/// Joins the items with `", "`.
pub fn join(parts: &Vec<String>) -> (text: String)
    ensures
        text@ == joined(parts.deep_view()),
{
    let mut text = String::new();
    let mut i: usize = 0;
    while i < parts.len()
        invariant
            0 <= i <= parts.len(),
            text@ == joined(parts.deep_view().take(i as int)),
        decreases parts.len() - i,
    {
        let ghost upto = parts.deep_view().take(i + 1);
        proof {
            reveal_strlit(", ");
            assert(upto.drop_last() == parts.deep_view().take(i as int));
        }
        if i > 0 {
            text.append(", ");
        }
        text.append(parts[i].as_str());
        i += 1;
    }
    assert(parts.deep_view().take(i as int) == parts.deep_view());
    text
}

/// A joined list holds its items and one separator less than it has items:
/// an item left out leaves no separator behind.
pub proof fn lemma_joined_len(parts: Seq<Seq<char>>)
    ensures
        parts.len() == 0 ==> joined(parts).len() == 0,
        parts.len() > 0 ==> joined(parts).len() == total_len(parts) + 2 * (parts.len() - 1),
    decreases parts.len(),
{
    if parts.len() == 1 {
        assert(total_len(parts.drop_last()) == 0);
    } else if parts.len() > 1 {
        lemma_joined_len(parts.drop_last());
    }
}

} // verus!
