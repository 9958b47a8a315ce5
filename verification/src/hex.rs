//! Hexadecimal literals: the first one in a line of text, and an address
//! written as one.

use crate::text::{
    ascii_text, cut, lemma_ascii_bytes_spell_text, lemma_boundary_after_ascii,
    lemma_boundary_at_ascii,
};
use vstd::prelude::*;
use vstd::string::*;
use vstd::utf8::*;

verus! {

/// The view of an optional string.
pub open spec fn opt_text(s: Option<String>) -> Option<Seq<char>> {
    match s {
        Some(s) => Some(s@),
        None => None,
    }
}

/// `b` is one of `0-9`, `A-F`, `a-f`.
pub open spec fn is_hex_digit(b: u8) -> bool {
    (0x30 <= b <= 0x39) || (0x41 <= b <= 0x46) || (0x61 <= b <= 0x66)
}

/// A literal begins at `i`: the bytes `0x` and at least one hex digit.
pub open spec fn literal_starts_at(line: Seq<u8>, i: int) -> bool {
    &&& 0 <= i
    &&& i + 2 < line.len()
    &&& line[i] == 0x30
    &&& line[i + 1] == 0x78
    &&& is_hex_digit(line[i + 2])
}

/// The lowest index from `start` on at which a literal begins.
pub open spec fn first_literal_from(line: Seq<u8>, start: int) -> Option<int>
    decreases line.len() - start,
{
    if start < 0 || start + 2 >= line.len() {
        None
    } else if literal_starts_at(line, start) {
        Some(start)
    } else {
        first_literal_from(line, start + 1)
    }
}

/// The index at which the run of hex digits that holds `k` ends.
pub open spec fn digits_end(line: Seq<u8>, k: int) -> int
    decreases line.len() - k,
{
    if 0 <= k < line.len() && is_hex_digit(line[k]) {
        digits_end(line, k + 1)
    } else {
        k
    }
}

/// Where the first literal of the line lies: it begins at the lowest index
/// at which one can begin, and takes every hex digit that follows.
pub open spec fn literal_range(line: Seq<u8>) -> Option<(int, int)> {
    match first_literal_from(line, 0) {
        Some(s) => Some((s, digits_end(line, s + 2))),
        None => None,
    }
}

/// The first hex literal in a line of text, `0x` included.
pub open spec fn hex_literal(line: Seq<char>) -> Option<Seq<char>> {
    let bytes = encode_utf8(line);
    match literal_range(bytes) {
        Some((s, e)) => Some(ascii_text(bytes.subrange(s, e))),
        None => None,
    }
}

/// What `first_literal_from` returns begins a literal, none begins between
/// `start` and it, and `None` means that none begins from `start` on.
pub proof fn lemma_first_literal_from(line: Seq<u8>, start: int)
    requires
        0 <= start,
    ensures
        match first_literal_from(line, start) {
            Some(i) => start <= i && literal_starts_at(line, i) && forall|j: int|
                start <= j < i ==> !literal_starts_at(line, j),
            None => forall|j: int| start <= j ==> !literal_starts_at(line, j),
        },
    decreases line.len() - start,
{
    if start + 2 >= line.len() {
    } else if literal_starts_at(line, start) {
    } else {
        lemma_first_literal_from(line, start + 1);
    }
}

/// From `k` up to `digits_end` every byte is a hex digit, and the byte at
/// `digits_end`, if there is one, is none.
pub proof fn lemma_digits_end(line: Seq<u8>, k: int)
    requires
        0 <= k <= line.len(),
    ensures
        k <= digits_end(line, k) <= line.len(),
        forall|j: int| k <= j < digits_end(line, k) ==> is_hex_digit(#[trigger] line[j]),
        digits_end(line, k) < line.len() ==> !is_hex_digit(line[digits_end(line, k)]),
    decreases line.len() - k,
{
    if k < line.len() && is_hex_digit(line[k]) {
        lemma_digits_end(line, k + 1);
    }
}

fn is_hex_byte(b: u8) -> (r: bool)
    ensures
        r == is_hex_digit(b),
{
    (0x30 <= b && b <= 0x39) || (0x41 <= b && b <= 0x46) || (0x61 <= b && b <= 0x66)
}

/// The first hex literal in `line`: `0x` followed by one or more hex digits,
/// as many as follow. `None` where the line holds none.
pub fn extract_hex(line: &str) -> (r: Option<String>)
    ensures
        opt_text(r) == hex_literal(line@),
{
    let bytes = line.as_bytes();
    let n: usize = bytes.len();
    if n < 3 {
        return None;
    }
    let mut start: usize = 0;
    let mut found = false;
    while !found && start + 2 < n
        invariant
            n == bytes@.len(),
            start + 2 <= n,
            bytes@ == encode_utf8(line@),
            found ==> literal_starts_at(bytes@, start as int),
            first_literal_from(bytes@, 0) == first_literal_from(bytes@, start as int),
        decreases n - start + (if found { 0int } else { 1int }),
    {
        if bytes[start] == 0x30 && bytes[start + 1] == 0x78 && is_hex_byte(bytes[start + 2]) {
            found = true;
        } else {
            start += 1;
        }
    }
    if !found {
        return None;
    }
    let mut end: usize = start + 3;
    while end < n && is_hex_byte(bytes[end])
        invariant
            n == bytes@.len(),
            start + 3 <= end <= n,
            digits_end(bytes@, start + 2) == digits_end(bytes@, end as int),
            forall|j: int| start <= j < end ==> #[trigger] bytes@[j] < 0x80,
        decreases n - end,
    {
        end += 1;
    }
    proof {
        encode_utf8_valid_utf8(line@);
        lemma_boundary_at_ascii(bytes@, start as int);
        lemma_boundary_after_ascii(bytes@, end - 1);
    }
    let literal = cut(line, start, end);
    proof {
        lemma_ascii_bytes_spell_text(literal@, bytes@.subrange(start as int, end as int));
    }
    Some(literal.to_owned())
}

/// The hex digit for a value below 16, in upper case.
pub open spec fn hex_digit(d: nat) -> char {
    if d < 10 {
        (0x30 + d) as u8 as char
    } else {
        (0x41 + d - 10) as u8 as char
    }
}

/// The hex digits of `n`, most significant first, without leading zeros.
pub open spec fn hex_digits(n: nat) -> Seq<char>
    decreases n,
{
    if n < 16 {
        seq![hex_digit(n)]
    } else {
        hex_digits(n / 16).push(hex_digit(n % 16))
    }
}

/// An address as it stands in a report: `0x` and its upper-case hex digits.
pub open spec fn offset_text(n: nat) -> Seq<char> {
    seq!['0', 'x'] + hex_digits(n)
}

fn hex_digit_str(d: usize) -> (r: &'static str)
    requires
        d < 16,
    ensures
        r@ == seq![hex_digit(d as nat)],
{
    proof {
        reveal_strlit("0");
        reveal_strlit("1");
        reveal_strlit("2");
        reveal_strlit("3");
        reveal_strlit("4");
        reveal_strlit("5");
        reveal_strlit("6");
        reveal_strlit("7");
        reveal_strlit("8");
        reveal_strlit("9");
        reveal_strlit("A");
        reveal_strlit("B");
        reveal_strlit("C");
        reveal_strlit("D");
        reveal_strlit("E");
        reveal_strlit("F");
    }
    let r = match d {
        0 => "0",
        1 => "1",
        2 => "2",
        3 => "3",
        4 => "4",
        5 => "5",
        6 => "6",
        7 => "7",
        8 => "8",
        9 => "9",
        10 => "A",
        11 => "B",
        12 => "C",
        13 => "D",
        14 => "E",
        _ => "F",
    };
    assert(r@ =~= seq![hex_digit(d as nat)]);
    r
}

fn push_hex_digits(text: &mut String, n: usize)
    ensures
        final(text)@ == old(text)@ + hex_digits(n as nat),
    decreases n,
{
    if n >= 16 {
        push_hex_digits(text, n / 16);
    }
    text.append(hex_digit_str(n % 16));
}

/// Writes an address as `0x` followed by its upper-case hex digits.
pub fn format_offset(n: usize) -> (text: String)
    ensures
        text@ == offset_text(n as nat),
{
    proof {
        reveal_strlit("0x");
    }
    let mut text = "0x".to_owned();
    assert(text@ =~= seq!['0', 'x']);
    push_hex_digits(&mut text, n);
    text
}

} // verus!
