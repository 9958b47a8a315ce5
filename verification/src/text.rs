//! Text as its UTF-8 bytes: the facts about character boundaries that let a
//! line be cut at ASCII bytes.

use crate::bytes::{contains_bytes, find_bytes, matches_at};
use vstd::prelude::*;
use vstd::string::*;
use vstd::utf8::*;

verus! {

/// The characters that a run of ASCII bytes spells.
pub open spec fn ascii_text(bytes: Seq<u8>) -> Seq<char> {
    Seq::new(bytes.len(), |i: int| bytes[i] as char)
}

/// Every byte is below 0x80.
pub open spec fn all_ascii(bytes: Seq<u8>) -> bool {
    forall|i: int| 0 <= i < bytes.len() ==> #[trigger] bytes[i] < 0x80
}

/// A text whose encoding is all ASCII holds the characters that its bytes spell.
pub proof fn lemma_ascii_bytes_spell_text(text: Seq<char>, bytes: Seq<u8>)
    requires
        encode_utf8(text) == bytes,
        all_ascii(bytes),
    ensures
        text == ascii_text(bytes),
{
    let spelled = ascii_text(bytes);
    assert(is_ascii_chars(spelled)) by {
        assert forall|i: int| 0 <= i < spelled.len() implies '\0' <= #[trigger] spelled[i]
            <= '\u{7f}' by {
            assert(bytes[i] < 0x80);
        }
    }
    is_ascii_chars_encode_utf8(spelled);
    assert(encode_utf8(spelled) =~= bytes) by {
        assert forall|i: int| 0 <= i < bytes.len() implies encode_utf8(spelled)[i] == bytes[i] by {
            assert(bytes[i] < 0x80);
            assert(spelled[i] as u8 == encode_utf8(spelled)[i]);
        }
    }
    encode_utf8_decode_utf8(spelled);
    encode_utf8_decode_utf8(text);
}

/// In well-formed UTF-8 the byte after an ASCII byte begins a character.
pub proof fn lemma_boundary_after_ascii(bytes: Seq<u8>, i: int)
    requires
        valid_utf8(bytes),
        0 <= i < bytes.len(),
        bytes[i] < 0x80,
    ensures
        is_char_boundary(bytes, i + 1),
    decreases bytes.len(),
{
    let width = length_of_first_scalar(bytes);
    let rest = pop_first_scalar(bytes);
    if i < width {
        assert(i == 0);
        assert(width == 1);
        assert(is_char_boundary(rest, 0));
    } else {
        assert(rest[i - width] == bytes[i]);
        lemma_boundary_after_ascii(rest, i - width);
    }
}

/// In well-formed UTF-8 an ASCII byte begins a character.
pub proof fn lemma_boundary_at_ascii(bytes: Seq<u8>, i: int)
    requires
        valid_utf8(bytes),
        0 <= i < bytes.len(),
        bytes[i] < 0x80,
    ensures
        is_char_boundary(bytes, i),
{
    is_char_boundary_iff_not_is_continuation_byte(bytes, i);
}

/// The text holds the pattern as a substring.
pub open spec fn text_contains(text: Seq<char>, pattern: Seq<char>) -> bool {
    contains_bytes(encode_utf8(text), encode_utf8(pattern))
}

/// Whether the text holds the pattern as a substring.
pub fn contains_text(text: &str, pattern: &str) -> (r: bool)
    ensures
        r == text_contains(text@, pattern@),
{
    find_bytes(text.as_bytes(), pattern.as_bytes()).is_some()
}

/// Whether two texts are the same.
pub fn same_text(a: &str, b: &str) -> (r: bool)
    ensures
        r == (a@ == b@),
{
    let x = a.as_bytes();
    let y = b.as_bytes();
    proof {
        encode_utf8_decode_utf8(a@);
        encode_utf8_decode_utf8(b@);
    }
    if x.len() != y.len() {
        false
    } else {
        let r = matches_at(x, y, 0);
        proof {
            if r {
                assert(x@ =~= y@);
            }
        }
        r
    }
}

/// Calls `core::str::from_utf8`. Claims what its documentation says: the
/// bytes are returned as text exactly where they are well-formed UTF-8, and
/// the text is those bytes.
#[verifier::external_body]
pub(crate) fn decode_text<'a>(data: &'a [u8]) -> (r: Option<&'a str>)
    ensures
        r is Some <==> valid_utf8(data@),
        r matches Some(text) ==> text.spec_bytes() == data@,
{
    match core::str::from_utf8(data) {
        Ok(text) => Some(text),
        Err(_) => None,
    }
}

/// The part of `text` between two character boundaries.
pub(crate) fn cut<'a>(text: &'a str, start: usize, end: usize) -> (piece: &'a str)
    requires
        start <= end <= text.spec_bytes().len(),
        is_char_boundary(text.spec_bytes(), start as int),
        is_char_boundary(text.spec_bytes(), end as int),
    ensures
        piece.spec_bytes() == text.spec_bytes().subrange(start as int, end as int),
{
    let ghost bytes = text.spec_bytes();
    let (_, tail) = text.split_at(start);
    proof {
        encode_utf8_valid_utf8(text@);
        encode_utf8_valid_utf8(tail@);
        if end < bytes.len() {
            is_char_boundary_iff_not_is_continuation_byte(bytes, end as int);
            assert(tail.spec_bytes()[end - start] == bytes[end as int]);
            is_char_boundary_iff_not_is_continuation_byte(tail.spec_bytes(), end - start);
        } else {
            is_char_boundary_start_end_of_seq(tail.spec_bytes());
        }
    }
    let (piece, _) = tail.split_at(end - start);
    assert(piece.spec_bytes() =~= bytes.subrange(start as int, end as int));
    piece
}

/// A line without the carriage return that ended it, if one did.
pub open spec fn without_cr(line: Seq<u8>) -> Seq<u8> {
    if line.len() > 0 && line.last() == 0x0D {
        line.drop_last()
    } else {
        line
    }
}

/// The lines of `text` from `start` on, where the bytes from `start` up to
/// `pos` hold no line feed.
pub open spec fn lines_scan(text: Seq<u8>, start: int, pos: int) -> Seq<Seq<u8>>
    decreases text.len() - pos,
{
    if pos < 0 || pos >= text.len() {
        if 0 <= start < text.len() {
            seq![text.subrange(start, text.len() as int)]
        } else {
            seq![]
        }
    } else if text[pos] == 0x0A {
        seq![without_cr(text.subrange(start, pos))] + lines_scan(text, pos + 1, pos + 1)
    } else {
        lines_scan(text, start, pos + 1)
    }
}

/// The lines of a text, as bytes. A line ends at a line feed; the line feed,
/// and a carriage return right before it, belong to no line. What follows the
/// last line feed is a line if it is not empty.
pub open spec fn byte_lines(text: Seq<u8>) -> Seq<Seq<u8>> {
    lines_scan(text, 0, 0)
}

/// The lines of a text.
pub open spec fn text_lines(text: Seq<char>) -> Seq<Seq<char>> {
    let lines = byte_lines(encode_utf8(text));
    Seq::new(lines.len(), |i: int| decode_utf8(lines[i]))
}

/// The texts that a sequence of string slices holds.
pub open spec fn line_texts(lines: Seq<&str>) -> Seq<Seq<char>> {
    Seq::new(lines.len(), |i: int| lines[i]@)
}

/// The encodings of the texts that a sequence of string slices holds.
pub open spec fn line_bytes(lines: Seq<&str>) -> Seq<Seq<u8>> {
    Seq::new(lines.len(), |i: int| lines[i].spec_bytes())
}

fn trim_cr<'a>(line: &'a str) -> (r: &'a str)
    ensures
        r.spec_bytes() == without_cr(line.spec_bytes()),
{
    let bytes = line.as_bytes();
    let n: usize = bytes.len();
    if n > 0 && bytes[n - 1] == 0x0D {
        proof {
            encode_utf8_valid_utf8(line@);
            lemma_boundary_at_ascii(bytes@, n - 1);
        }
        let r = cut(line, 0, n - 1);
        assert(r.spec_bytes() =~= without_cr(line.spec_bytes()));
        r
    } else {
        line
    }
}

/// Splits a text into its lines.
pub fn split_lines<'a>(content: &'a str) -> (lines: Vec<&'a str>)
    ensures
        line_texts(lines@) == text_lines(content@),
{
    let bytes = content.as_bytes();
    let n: usize = bytes.len();
    let mut lines: Vec<&'a str> = Vec::new();
    let mut start: usize = 0;
    let mut pos: usize = 0;
    proof {
        encode_utf8_valid_utf8(content@);
        assert(line_bytes(lines@) + lines_scan(bytes@, 0, 0) =~= byte_lines(bytes@));
    }
    while pos < n
        invariant
            n == bytes@.len(),
            bytes@ == content.spec_bytes(),
            valid_utf8(bytes@),
            start <= pos <= n,
            is_char_boundary(bytes@, start as int),
            line_bytes(lines@) + lines_scan(bytes@, start as int, pos as int) == byte_lines(
                bytes@,
            ),
        decreases n - pos,
    {
        if bytes[pos] == 0x0A {
            proof {
                lemma_boundary_at_ascii(bytes@, pos as int);
                lemma_boundary_after_ascii(bytes@, pos as int);
            }
            let line = trim_cr(cut(content, start, pos));
            let ghost before = lines@;
            lines.push(line);
            proof {
                assert(line_bytes(lines@) =~= line_bytes(before) + seq![line.spec_bytes()]);
                assert(line_bytes(lines@) + lines_scan(bytes@, pos + 1, pos + 1) =~= line_bytes(
                    before,
                ) + lines_scan(bytes@, start as int, pos as int));
            }
            pos += 1;
            start = pos;
        } else {
            pos += 1;
        }
    }
    if start < n {
        proof {
            is_char_boundary_start_end_of_seq(bytes@);
        }
        let line = cut(content, start, n);
        let ghost before = lines@;
        lines.push(line);
        proof {
            assert(line_bytes(lines@) =~= line_bytes(before) + seq![line.spec_bytes()]);
        }
    }
    proof {
        assert(line_bytes(lines@) =~= byte_lines(bytes@));
        assert forall|i: int| 0 <= i < lines@.len() implies lines@[i]@ == decode_utf8(
            byte_lines(bytes@)[i],
        ) by {
            assert(line_bytes(lines@)[i] == lines@[i].spec_bytes());
            encode_utf8_decode_utf8(lines@[i]@);
        }
        assert(line_texts(lines@) =~= text_lines(content@));
    }
    lines
}

} // verus!
