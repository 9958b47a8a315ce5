//! A report written out as text: as plain text, as a C++ header, and as a
//! Rust module.

use crate::bytes::{matches_at, occurs_at};
use crate::differ::{found_count, statistics};
use crate::models::{GameVariant, OffsetResult, OffsetResultView};
use crate::scanner::report_view;
use crate::text::same_text;
use vstd::prelude::*;
use vstd::string::*;
use vstd::utf8::*;

verus! {

/// What `str::to_uppercase` returns for a text.
pub uninterp spec fn uppercase_text(text: Seq<char>) -> Seq<char>;

/// Calls `str::to_uppercase`. Claims that the result depends on the text
/// alone.
#[verifier::external_body]
fn uppercase(text: &str) -> (r: String)
    ensures
        r@ == uppercase_text(text@),
{
    text.to_uppercase()
}

/// Calls `String::push`. Claims what its documentation says: the character
/// is appended to the end of the text.
#[verifier::external_body]
fn push_char(text: &mut String, c: char)
    ensures
        final(text)@ == old(text)@.push(c),
{
    text.push(c)
}

/// The text with every `from` replaced by `to`.
pub open spec fn replaced(text: Seq<char>, from: char, to: char) -> Seq<char> {
    Seq::new(
        text.len(),
        |i: int|
            if text[i] == from {
                to
            } else {
                text[i]
            },
    )
}

fn replace_char(text: &str, from: char, to: char) -> (r: String)
    ensures
        r@ == replaced(text@, from, to),
{
    let n: usize = text.unicode_len();
    let mut r = String::new();
    let mut i: usize = 0;
    while i < n
        invariant
            i <= n == text@.len(),
            r@ == replaced(text@, from, to).take(i as int),
        decreases n - i,
    {
        let c = text.get_char(i);
        if c == from {
            push_char(&mut r, to);
        } else {
            push_char(&mut r, c);
        }
        assert(r@ =~= replaced(text@, from, to).take(i + 1));
        i += 1;
    }
    assert(replaced(text@, from, to).take(n as int) =~= replaced(text@, from, to));
    r
}

/// One offset that was found, with its category and its name.
pub type FoundView = (Seq<char>, Seq<char>, Seq<char>);

/// What an entry adds to the list of offsets found: its category, its name
/// and its offset, or nothing where it has no offset.
pub open spec fn found_of(entry: OffsetResultView) -> Seq<FoundView> {
    match entry.offset {
        Some(offset) => seq![(entry.category, entry.name, offset)],
        None => seq![],
    }
}

/// The offsets that a report found, in the order of the report.
pub open spec fn found_entries(results: Seq<OffsetResultView>) -> Seq<FoundView>
    decreases results.len(),
{
    if results.len() == 0 {
        seq![]
    } else {
        found_entries(results.drop_last()) + found_of(results.last())
    }
}

/// A list of offsets found, as a value of the model.
pub open spec fn found_view(found: Seq<(String, String, String)>) -> Seq<FoundView> {
    Seq::new(found.len(), |i: int| (found[i].0@, found[i].1@, found[i].2@))
}

/// Lists the offsets that a report found, each with its category and its
/// name, in the order of the report. Entries without an offset are left out.
pub fn found_offsets(results: &[OffsetResult]) -> (found: Vec<(String, String, String)>)
    ensures
        found_view(found@) == found_entries(report_view(results@)),
{
    let ghost report = report_view(results@);
    let mut found: Vec<(String, String, String)> = Vec::new();
    let mut i: usize = 0;
    assert(report.take(0) =~= Seq::empty());
    assert(found_view(found@) =~= Seq::empty());
    while i < results.len()
        invariant
            i <= results@.len(),
            report == report_view(results@),
            found_view(found@) == found_entries(report.take(i as int)),
        decreases results@.len() - i,
    {
        let ghost sofar = found_view(found@);
        match &results[i].offset {
            Some(offset) => {
                let item = (results[i].category.clone(), results[i].name.clone(), offset.clone());
                found.push(item);
                assert(found_view(found@) =~= sofar + seq![(item.0@, item.1@, item.2@)]);
            },
            None => {},
        }
        proof {
            assert(report.take(i + 1).drop_last() =~= report.take(i as int));
            assert(report.take(i + 1).last() == results@[i as int]@);
            assert(found_view(found@) =~= sofar + found_of(results@[i as int]@));
        }
        i += 1;
    }
    assert(report.take(results@.len() as int) =~= report);
    found
}

/// The decimal digits of `n`, most significant first.
pub open spec fn decimal_digits(n: nat) -> Seq<char>
    decreases n,
{
    if n < 10 {
        seq![(0x30 + n) as u8 as char]
    } else {
        decimal_digits(n / 10).push((0x30 + n % 10) as u8 as char)
    }
}

fn push_decimal(text: &mut String, n: usize)
    ensures
        final(text)@ == old(text)@ + decimal_digits(n as nat),
    decreases n,
{
    if n >= 10 {
        push_decimal(text, n / 10);
    }
    let digit: u8 = 0x30 + (n % 10) as u8;
    push_char(text, digit as char);
    assert(text@ =~= old(text)@ + decimal_digits(n as nat));
}

/// The category of the last entry, which is the category that a further
/// entry is compared with; empty where there is no entry.
pub open spec fn current_category(results: Seq<OffsetResultView>) -> Seq<char> {
    if results.len() == 0 {
        seq![]
    } else {
        results.last().category
    }
}

/// What stands before an entry where its category differs from the current
/// one: an empty line, unless no category was current, and the heading of
/// the new category.
pub open spec fn section_break(
    current: Seq<char>,
    category: Seq<char>,
    opening: Seq<char>,
    closing: Seq<char>,
) -> Seq<char> {
    if category != current {
        (if current.len() > 0 {
            "\n"@
        } else {
            seq![]
        }) + opening + category + closing
    } else {
        seq![]
    }
}

/// The line of one entry in plain text.
pub open spec fn plain_line(entry: OffsetResultView) -> Seq<char> {
    match entry.offset {
        Some(offset) => entry.name + " = "@ + offset + "\n"@,
        None => entry.name + " = NOT FOUND\n"@,
    }
}

/// The entries of a report in plain text, each category under its heading.
pub open spec fn plain_entries(results: Seq<OffsetResultView>) -> Seq<char>
    decreases results.len(),
{
    if results.len() == 0 {
        seq![]
    } else {
        plain_entries(results.drop_last()) + section_break(
            current_category(results.drop_last()),
            results.last().category,
            "--- "@,
            " ---\n"@,
        ) + plain_line(results.last())
    }
}

/// A report in plain text: a title, the entries, and how many were found.
pub open spec fn plain_text(results: Seq<OffsetResultView>, game: GameVariant) -> Seq<char> {
    "====== "@ + game.title_label() + " OFFSETS ======\n\n"@ + plain_entries(results)
        + "\n====== STATISTICS ======\n"@ + "Found: "@ + decimal_digits(found_count(results))
        + "/"@ + decimal_digits(results.len()) + "\n"@
}

/// The name of an entry as a C++ constant: in capital letters, with `_` for
/// each space.
pub open spec fn cpp_constant(name: Seq<char>) -> Seq<char> {
    replaced(uppercase_text(name), ' ', '_')
}

/// The line of one entry in a C++ header; an entry without an offset has
/// none.
pub open spec fn cpp_line(entry: OffsetResultView) -> Seq<char> {
    match entry.offset {
        Some(offset) => "    constexpr uintptr_t "@ + cpp_constant(entry.name) + " = "@ + offset
            + ";\n"@,
        None => seq![],
    }
}

/// The entries of a report in a C++ header.
pub open spec fn cpp_entries(results: Seq<OffsetResultView>) -> Seq<char>
    decreases results.len(),
{
    if results.len() == 0 {
        seq![]
    } else {
        cpp_entries(results.drop_last()) + section_break(
            current_category(results.drop_last()),
            results.last().category,
            "    // "@,
            "\n"@,
        ) + cpp_line(results.last())
    }
}

/// A report as a C++ header. `generated` is the time that the header names.
pub open spec fn cpp_header(
    results: Seq<OffsetResultView>,
    game: GameVariant,
    generated: Seq<char>,
) -> Seq<char> {
    "// Auto-generated offsets\n"@ + "// Game: "@ + game.label() + "\n"@ + "// Generated: "@
        + generated + "\n\n"@ + "#pragma once\n"@ + "#include <cstdint>\n\n"@ + "namespace "@
        + game.namespace_label() + " {\n"@ + cpp_entries(results) + "}\n"@
}

/// The name of an entry as a Rust constant: in capital letters, with `_` for
/// each space and each hyphen.
pub open spec fn rust_constant(name: Seq<char>) -> Seq<char> {
    replaced(replaced(uppercase_text(name), ' ', '_'), '-', '_')
}

/// The text begins with `0x`.
pub open spec fn has_hex_prefix(text: Seq<char>) -> bool {
    occurs_at(encode_utf8(text), encode_utf8("0x"@), 0)
}

/// An offset as a Rust literal: `0x` is put before it unless it begins so.
pub open spec fn rust_literal(offset: Seq<char>) -> Seq<char> {
    if has_hex_prefix(offset) {
        offset
    } else {
        "0x"@ + offset
    }
}

/// The line of one entry in a Rust module; an entry without an offset has
/// none.
pub open spec fn rust_line(entry: OffsetResultView) -> Seq<char> {
    match entry.offset {
        Some(offset) => "    pub const "@ + rust_constant(entry.name) + ": usize = "@
            + rust_literal(offset) + ";\n"@,
        None => seq![],
    }
}

/// The entries of a report in a Rust module.
pub open spec fn rust_entries(results: Seq<OffsetResultView>) -> Seq<char>
    decreases results.len(),
{
    if results.len() == 0 {
        seq![]
    } else {
        rust_entries(results.drop_last()) + section_break(
            current_category(results.drop_last()),
            results.last().category,
            "    // "@,
            "\n"@,
        ) + rust_line(results.last())
    }
}

/// A report as a Rust module. `generated` is the time that the module
/// names.
pub open spec fn rust_module(
    results: Seq<OffsetResultView>,
    game: GameVariant,
    generated: Seq<char>,
) -> Seq<char> {
    "// Auto-generated offsets\n"@ + "// Game: "@ + game.label() + "\n"@ + "// Generated: "@
        + generated + "\n\n"@ + "#![allow(dead_code)]\n\n"@ + "pub mod "@ + game.module_label()
        + " {\n"@ + rust_entries(results) + "}\n"@
}

/// Writes the break before an entry of another category.
fn push_section_break(
    output: &mut String,
    current: &str,
    category: &str,
    opening: &str,
    closing: &str,
)
    ensures
        final(output)@ == old(output)@ + section_break(current@, category@, opening@, closing@),
{
    if !same_text(category, current) {
        if current.unicode_len() > 0 {
            output.append("\n");
        }
        output.append(opening);
        output.append(category);
        output.append(closing);
    }
    assert(output@ =~= old(output)@ + section_break(current@, category@, opening@, closing@));
}

fn push_plain_line(output: &mut String, entry: &OffsetResult)
    ensures
        final(output)@ == old(output)@ + plain_line(entry@),
{
    output.append(entry.name.as_str());
    match &entry.offset {
        Some(offset) => {
            output.append(" = ");
            output.append(offset.as_str());
            output.append("\n");
        },
        None => {
            output.append(" = NOT FOUND\n");
        },
    }
    assert(output@ =~= old(output)@ + plain_line(entry@));
}

fn push_cpp_line(output: &mut String, entry: &OffsetResult)
    ensures
        final(output)@ == old(output)@ + cpp_line(entry@),
{
    match &entry.offset {
        Some(offset) => {
            let upper = uppercase(entry.name.as_str());
            let constant = replace_char(upper.as_str(), ' ', '_');
            output.append("    constexpr uintptr_t ");
            output.append(constant.as_str());
            output.append(" = ");
            output.append(offset.as_str());
            output.append(";\n");
        },
        None => {},
    }
    assert(output@ =~= old(output)@ + cpp_line(entry@));
}

fn has_prefix_0x(text: &str) -> (r: bool)
    ensures
        r == has_hex_prefix(text@),
{
    let hay = text.as_bytes();
    let needle = "0x".as_bytes();
    if needle.len() > hay.len() {
        false
    } else {
        matches_at(hay, needle, 0)
    }
}

fn push_rust_line(output: &mut String, entry: &OffsetResult)
    ensures
        final(output)@ == old(output)@ + rust_line(entry@),
{
    match &entry.offset {
        Some(offset) => {
            let upper = uppercase(entry.name.as_str());
            let spaced = replace_char(upper.as_str(), ' ', '_');
            let constant = replace_char(spaced.as_str(), '-', '_');
            output.append("    pub const ");
            output.append(constant.as_str());
            output.append(": usize = ");
            if !has_prefix_0x(offset.as_str()) {
                output.append("0x");
            }
            output.append(offset.as_str());
            output.append(";\n");
        },
        None => {},
    }
    assert(output@ =~= old(output)@ + rust_line(entry@));
}

/// Writes a report as plain text: a title, then each entry as `name =
/// offset` or `name = NOT FOUND` under the heading of its category, then
/// the number of entries found out of all.
pub fn export_plain_text(results: &[OffsetResult], game: GameVariant) -> (output: String)
    ensures
        output@ == plain_text(report_view(results@), game),
{
    let ghost report = report_view(results@);
    let mut output = "====== ".to_owned();
    output.append(game.title());
    output.append(" OFFSETS ======\n\n");
    let ghost head = output@;
    let mut i: usize = 0;
    assert(report.take(0) =~= Seq::empty());
    assert(output@ =~= head + plain_entries(report.take(0)));
    while i < results.len()
        invariant
            i <= results@.len(),
            report == report_view(results@),
            output@ == head + plain_entries(report.take(i as int)),
        decreases results@.len() - i,
    {
        let current: &str = if i == 0 {
            ""
        } else {
            results[i - 1].category.as_str()
        };
        proof {
            reveal_strlit("");
            assert(report.take(i + 1).drop_last() =~= report.take(i as int));
            assert(report.take(i + 1).last() == results@[i as int]@);
            assert(current@ =~= current_category(report.take(i as int)));
        }
        push_section_break(&mut output, current, results[i].category.as_str(), "--- ", " ---\n");
        push_plain_line(&mut output, &results[i]);
        assert(output@ =~= head + plain_entries(report.take(i + 1)));
        i += 1;
    }
    assert(report.take(results@.len() as int) =~= report);
    let stats = statistics(results);
    output.append("\n====== STATISTICS ======\n");
    output.append("Found: ");
    push_decimal(&mut output, stats.found);
    output.append("/");
    push_decimal(&mut output, stats.total);
    output.append("\n");
    assert(output@ =~= plain_text(report, game));
    output
}

/// Writes a report as a C++ header: one constant for each entry that has an
/// offset, under a comment that names its category. `generated` is the time
/// that the header is to name.
pub fn export_cpp_header(results: &[OffsetResult], game: GameVariant, generated: &str) -> (output:
    String)
    ensures
        output@ == cpp_header(report_view(results@), game, generated@),
{
    let ghost report = report_view(results@);
    let mut output = "// Auto-generated offsets\n".to_owned();
    output.append("// Game: ");
    output.append(game.name());
    output.append("\n");
    output.append("// Generated: ");
    output.append(generated);
    output.append("\n\n");
    output.append("#pragma once\n");
    output.append("#include <cstdint>\n\n");
    output.append("namespace ");
    output.append(game.namespace());
    output.append(" {\n");
    let ghost head = output@;
    let mut i: usize = 0;
    assert(report.take(0) =~= Seq::empty());
    assert(output@ =~= head + cpp_entries(report.take(0)));
    while i < results.len()
        invariant
            i <= results@.len(),
            report == report_view(results@),
            output@ == head + cpp_entries(report.take(i as int)),
        decreases results@.len() - i,
    {
        let current: &str = if i == 0 {
            ""
        } else {
            results[i - 1].category.as_str()
        };
        proof {
            reveal_strlit("");
            assert(report.take(i + 1).drop_last() =~= report.take(i as int));
            assert(report.take(i + 1).last() == results@[i as int]@);
            assert(current@ =~= current_category(report.take(i as int)));
        }
        push_section_break(&mut output, current, results[i].category.as_str(), "    // ", "\n");
        push_cpp_line(&mut output, &results[i]);
        assert(output@ =~= head + cpp_entries(report.take(i + 1)));
        i += 1;
    }
    assert(report.take(results@.len() as int) =~= report);
    output.append("}\n");
    assert(output@ =~= cpp_header(report, game, generated@));
    output
}

/// Writes a report as a Rust module: one constant for each entry that has
/// an offset, under a comment that names its category. `generated` is the
/// time that the module is to name.
pub fn export_rust_module(results: &[OffsetResult], game: GameVariant, generated: &str) -> (output:
    String)
    ensures
        output@ == rust_module(report_view(results@), game, generated@),
{
    let ghost report = report_view(results@);
    let mut output = "// Auto-generated offsets\n".to_owned();
    output.append("// Game: ");
    output.append(game.name());
    output.append("\n");
    output.append("// Generated: ");
    output.append(generated);
    output.append("\n\n");
    output.append("#![allow(dead_code)]\n\n");
    output.append("pub mod ");
    output.append(game.module_name());
    output.append(" {\n");
    let ghost head = output@;
    let mut i: usize = 0;
    assert(report.take(0) =~= Seq::empty());
    assert(output@ =~= head + rust_entries(report.take(0)));
    while i < results.len()
        invariant
            i <= results@.len(),
            report == report_view(results@),
            output@ == head + rust_entries(report.take(i as int)),
        decreases results@.len() - i,
    {
        let current: &str = if i == 0 {
            ""
        } else {
            results[i - 1].category.as_str()
        };
        proof {
            reveal_strlit("");
            assert(report.take(i + 1).drop_last() =~= report.take(i as int));
            assert(report.take(i + 1).last() == results@[i as int]@);
            assert(current@ =~= current_category(report.take(i as int)));
        }
        push_section_break(&mut output, current, results[i].category.as_str(), "    // ", "\n");
        push_rust_line(&mut output, &results[i]);
        assert(output@ =~= head + rust_entries(report.take(i + 1)));
        i += 1;
    }
    assert(report.take(results@.len() as int) =~= report);
    output.append("}\n");
    assert(output@ =~= rust_module(report, game, generated@));
    output
}

} // verus!
