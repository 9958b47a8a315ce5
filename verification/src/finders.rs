//! How one signature is located: in the lines of a dump, or in raw bytes.

use crate::aob::{
    find_masked, first_masked, is_space, lemma_wildcards_match_at_start, parse_signature,
    pattern_scan, signature_pattern,
};
use crate::bytes::{find_bytes, first_occurrence};
use crate::hex::{extract_hex, format_offset, hex_digits, hex_literal, offset_text, opt_text};
use crate::pattern::{
    byte_regex_compiles, byte_regex_find, text_regex_compiles, text_regex_is_match, ByteMatcher,
    LineMatcher,
};
use crate::text::{contains_text, line_texts, text_contains};
use vstd::prelude::*;
use vstd::string::*;
use vstd::utf8::*;

verus! {

/// The index of the first `true` from `start` on.
pub open spec fn first_hit_from(hits: Seq<bool>, start: int) -> Option<int>
    decreases hits.len() - start,
{
    if start < 0 || start >= hits.len() {
        None
    } else if hits[start] {
        Some(start)
    } else {
        first_hit_from(hits, start + 1)
    }
}

/// The index of the first `true`.
pub open spec fn first_hit(hits: Seq<bool>) -> Option<int> {
    first_hit_from(hits, 0)
}

/// What `first_hit_from` returns is a hit, none lies between `start` and it,
/// and `None` means that there is none from `start` on.
pub proof fn lemma_first_hit_from(hits: Seq<bool>, start: int)
    requires
        0 <= start,
    ensures
        match first_hit_from(hits, start) {
            Some(i) => start <= i < hits.len() && hits[i] && forall|j: int|
                start <= j < i ==> !hits[j],
            None => forall|j: int| start <= j < hits.len() ==> !hits[j],
        },
    decreases hits.len() - start,
{
    if start < hits.len() && !hits[start] {
        lemma_first_hit_from(hits, start + 1);
    }
}

/// For each line, whether it holds the pattern as a substring.
pub open spec fn lines_containing(lines: Seq<Seq<char>>, pattern: Seq<char>) -> Seq<bool> {
    Seq::new(lines.len(), |i: int| text_contains(lines[i], pattern))
}

/// For each line, whether the regular expression matches in it.
pub open spec fn lines_matching(lines: Seq<Seq<char>>, pattern: Seq<char>) -> Seq<bool> {
    Seq::new(lines.len(), |i: int| text_regex_is_match(pattern, lines[i]))
}

/// The first hex literal of the line that was hit; `None` where no line was
/// hit, or the line that was hit holds no literal.
pub open spec fn offset_on_line(lines: Seq<Seq<char>>, hit: Option<int>) -> Option<Seq<char>> {
    match hit {
        Some(i) => if 0 <= i < lines.len() {
            hex_literal(lines[i])
        } else {
            None
        },
        None => None,
    }
}

/// The offset of a literal pattern: the first hex literal on the first line
/// that holds the pattern. Later lines are not looked at.
pub open spec fn pattern_offset(lines: Seq<Seq<char>>, pattern: Seq<char>) -> Option<Seq<char>> {
    offset_on_line(lines, first_hit(lines_containing(lines, pattern)))
}

/// The offset of a regular expression: the first hex literal on the first
/// line in which it matches; `None` where it does not compile.
pub open spec fn regex_offset(lines: Seq<Seq<char>>, pattern: Seq<char>) -> Option<Seq<char>> {
    if text_regex_compiles(pattern) {
        offset_on_line(lines, first_hit(lines_matching(lines, pattern)))
    } else {
        None
    }
}

/// A literal pattern that one line holds and no other resolves to the first
/// hex literal of that line, whatever the other lines hold.
pub proof fn lemma_pattern_on_one_line(lines: Seq<Seq<char>>, pattern: Seq<char>, i: int)
    requires
        0 <= i < lines.len(),
        text_contains(lines[i], pattern),
        forall|j: int| 0 <= j < lines.len() && j != i ==> !text_contains(#[trigger] lines[j], pattern),
    ensures
        pattern_offset(lines, pattern) == hex_literal(lines[i]),
{
    let hits = lines_containing(lines, pattern);
    lemma_first_hit_from(hits, 0);
    assert(hits[i]);
    match first_hit(hits) {
        Some(k) => {
            assert(hits[k]);
            assert(text_contains(lines[k], pattern));
        },
        None => {},
    }
}

/// An index as a mathematical integer.
pub open spec fn index_of(hit: Option<usize>) -> Option<int> {
    match hit {
        Some(i) => Some(i as int),
        None => None,
    }
}

/// The address text of a hit in raw bytes.
pub open spec fn address_of(hit: Option<int>) -> Option<Seq<char>> {
    match hit {
        Some(i) => Some(offset_text(i as nat)),
        None => None,
    }
}

/// The address of a literal pattern in raw bytes: the lowest index at which
/// its bytes stand. An empty pattern is found nowhere.
pub open spec fn literal_address(bytes: Seq<u8>, pattern: Seq<char>) -> Option<Seq<char>> {
    if encode_utf8(pattern).len() == 0 {
        None
    } else {
        address_of(first_occurrence(bytes, encode_utf8(pattern)))
    }
}

/// The address of a regular expression in raw bytes: where its first match
/// begins; `None` where it does not compile.
pub open spec fn regex_address(bytes: Seq<u8>, pattern: Seq<char>) -> Option<Seq<char>> {
    if byte_regex_compiles(pattern) {
        address_of(index_of(byte_regex_find(pattern, bytes)))
    } else {
        None
    }
}

/// The address of a masked byte pattern: the lowest index at which it
/// matches. A signature that writes no pattern is found nowhere.
pub open spec fn aob_address(bytes: Seq<u8>, signature: Seq<char>) -> Option<Seq<char>> {
    if signature_pattern(signature).len() == 0 {
        None
    } else {
        address_of(first_masked(bytes, signature_pattern(signature)))
    }
}

/// The signature `?? ??` is found at address `0x0` in any two bytes or more.
pub proof fn lemma_two_wildcards(bytes: Seq<u8>)
    requires
        bytes.len() >= 2,
    ensures
        aob_address(bytes, "?? ??"@) == Some("0x0"@),
{
    let signature = "?? ??"@;
    reveal_strlit("?? ??");
    reveal_strlit("0x0");
    assert(signature.subrange(0, 2) =~= seq!['?', '?']);
    assert(signature.subrange(3, 5) =~= seq!['?', '?']);
    assert(is_space(signature[2]));
    assert(!is_space(signature[0]) && !is_space(signature[1]));
    assert(!is_space(signature[3]) && !is_space(signature[4]));
    assert(signature_pattern(signature) =~= seq![None, None]) by {
        reveal_with_fuel(pattern_scan, 7);
    }
    lemma_wildcards_match_at_start(bytes, signature_pattern(signature));
    assert(offset_text(0) =~= "0x0"@) by {
        reveal_with_fuel(hex_digits, 2);
    }
}

/// A signature whose pattern is longer than the bytes is not found.
pub proof fn lemma_long_signature_not_found(bytes: Seq<u8>, signature: Seq<char>)
    requires
        signature_pattern(signature).len() > bytes.len(),
    ensures
        aob_address(bytes, signature) is None,
{
}

/// The index of the first line that holds `pattern` as a substring.
pub fn first_line_containing(lines: &[&str], pattern: &str) -> (hit: Option<usize>)
    ensures
        index_of(hit) == first_hit(lines_containing(line_texts(lines@), pattern@)),
{
    let ghost hits = lines_containing(line_texts(lines@), pattern@);
    let mut i: usize = 0;
    while i < lines.len()
        invariant
            i <= lines@.len(),
            hits == lines_containing(line_texts(lines@), pattern@),
            first_hit(hits) == first_hit_from(hits, i as int),
        decreases lines@.len() - i,
    {
        if contains_text(lines[i], pattern) {
            return Some(i);
        }
        i += 1;
    }
    None
}

/// The index of the first line in which the expression matches.
pub(crate) fn first_line_matching(lines: &[&str], matcher: &LineMatcher) -> (hit: Option<usize>)
    ensures
        index_of(hit) == first_hit(lines_matching(line_texts(lines@), matcher.pattern())),
{
    let ghost hits = lines_matching(line_texts(lines@), matcher.pattern());
    let mut i: usize = 0;
    while i < lines.len()
        invariant
            i <= lines@.len(),
            hits == lines_matching(line_texts(lines@), matcher.pattern()),
            first_hit(hits) == first_hit_from(hits, i as int),
        decreases lines@.len() - i,
    {
        if matcher.is_match(lines[i]) {
            return Some(i);
        }
        i += 1;
    }
    None
}

/// Reads the offset from the line that was hit: its first hex literal.
/// `None` where no line was hit, the index names no line, or the line holds
/// no literal.
pub fn offset_on(lines: &[&str], hit: Option<usize>) -> (offset: Option<String>)
    ensures
        opt_text(offset) == offset_on_line(line_texts(lines@), index_of(hit)),
{
    match hit {
        Some(i) => {
            if i < lines.len() {
                extract_hex(lines[i])
            } else {
                None
            }
        },
        None => None,
    }
}

/// Locates a literal pattern in the lines of a dump.
pub fn find_pattern_in_lines(lines: &[&str], pattern: &str) -> (offset: Option<String>)
    ensures
        opt_text(offset) == pattern_offset(line_texts(lines@), pattern@),
{
    offset_on(lines, first_line_containing(lines, pattern))
}

/// Locates a regular expression in the lines of a dump. An expression that
/// does not compile is not found.
pub fn find_regex_in_lines(lines: &[&str], pattern: &str) -> (offset: Option<String>)
    ensures
        opt_text(offset) == regex_offset(line_texts(lines@), pattern@),
{
    match LineMatcher::compile(pattern) {
        Some(matcher) => offset_on(lines, first_line_matching(lines, &matcher)),
        None => None,
    }
}

/// Writes the index of a hit in raw bytes as an address.
pub fn address_at(hit: Option<usize>) -> (address: Option<String>)
    ensures
        opt_text(address) == address_of(index_of(hit)),
{
    match hit {
        Some(i) => Some(format_offset(i)),
        None => None,
    }
}

/// Locates a literal pattern in raw bytes.
pub fn find_pattern_in_bytes(bytes: &[u8], pattern: &str) -> (address: Option<String>)
    ensures
        opt_text(address) == literal_address(bytes@, pattern@),
{
    let needle = pattern.as_bytes();
    if needle.len() == 0 {
        return None;
    }
    address_at(find_bytes(bytes, needle))
}

/// Locates a regular expression in raw bytes. An expression that does not
/// compile is not found.
pub fn find_regex_in_bytes(bytes: &[u8], pattern: &str) -> (address: Option<String>)
    ensures
        opt_text(address) == regex_address(bytes@, pattern@),
{
    match ByteMatcher::compile(pattern) {
        Some(matcher) => address_at(matcher.find_start(bytes)),
        None => None,
    }
}

/// Locates a masked byte pattern in raw bytes.
pub fn find_aob_in_bytes(bytes: &[u8], signature: &str) -> (address: Option<String>)
    ensures
        opt_text(address) == aob_address(bytes@, signature@),
{
    let pattern = parse_signature(signature);
    if pattern.len() == 0 {
        return None;
    }
    address_at(find_masked(bytes, &pattern))
}

} // verus!
