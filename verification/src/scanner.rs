//! Scanning a whole catalog against one artifact, and the report it gives.

use crate::finders::{
    aob_address, find_aob_in_bytes, find_pattern_in_bytes, find_pattern_in_lines,
    find_regex_in_bytes, find_regex_in_lines, literal_address, pattern_offset, regex_address,
    regex_offset,
};
use crate::hex::opt_text;
use crate::models::{OffsetCategory, OffsetResult, OffsetResultView, Target, TargetView};
use crate::bytes::{matches_at, occurs_at};
use crate::text::{decode_text, line_texts, split_lines, text_lines};
use vstd::prelude::*;
use vstd::string::*;
use vstd::utf8::*;

verus! {

/// What is scanned: the lines of a dump, or raw bytes.
pub enum ContentView {
    Text(Seq<Seq<char>>),
    Binary(Seq<u8>),
}

/// What is scanned: the lines of a dump, or the bytes of a binary image.
pub enum Content<'a> {
    Text(Vec<&'a str>),
    Binary(&'a [u8]),
}

impl<'a> View for Content<'a> {
    type V = ContentView;

    open spec fn view(&self) -> ContentView {
        match self {
            Content::Text(lines) => ContentView::Text(line_texts(lines@)),
            Content::Binary(bytes) => ContentView::Binary(bytes@),
        }
    }
}

/// The signatures, as values of the model.
pub open spec fn targets_view(targets: Seq<Target>) -> Seq<TargetView> {
    Seq::new(targets.len(), |i: int| targets[i]@)
}

/// A catalog, as a value of the model: categories in order, each with its
/// signatures in order.
pub open spec fn catalog_view(catalog: Seq<(OffsetCategory, Vec<Target>)>) -> Seq<
    (OffsetCategory, Seq<TargetView>),
> {
    Seq::new(catalog.len(), |i: int| (catalog[i].0, targets_view(catalog[i].1@)))
}

/// A report, as a value of the model.
pub open spec fn report_view(report: Seq<OffsetResult>) -> Seq<OffsetResultView> {
    Seq::new(report.len(), |i: int| report[i]@)
}

/// The offset that a signature resolves to in the lines of a dump. A fixed
/// value is its own offset; a masked byte pattern is never found in text.
pub open spec fn text_offset(lines: Seq<Seq<char>>, target: TargetView) -> Option<Seq<char>> {
    match target {
        TargetView::Fixed { hex, .. } => Some(hex),
        TargetView::Pattern { pattern, .. } => pattern_offset(lines, pattern),
        TargetView::Regex { pattern, .. } => regex_offset(lines, pattern),
        TargetView::AoB { .. } => None,
        TargetView::Separator => None,
    }
}

/// The offset that a signature resolves to in raw bytes. A fixed value is
/// never found there.
pub open spec fn binary_offset(bytes: Seq<u8>, target: TargetView) -> Option<Seq<char>> {
    match target {
        TargetView::Fixed { .. } => None,
        TargetView::Pattern { pattern, .. } => literal_address(bytes, pattern),
        TargetView::Regex { pattern, .. } => regex_address(bytes, pattern),
        TargetView::AoB { signature, .. } => aob_address(bytes, signature),
        TargetView::Separator => None,
    }
}

/// The offset that a signature resolves to.
pub open spec fn resolve(content: ContentView, target: TargetView) -> Option<Seq<char>> {
    match content {
        ContentView::Text(lines) => text_offset(lines, target),
        ContentView::Binary(bytes) => binary_offset(bytes, target),
    }
}

/// What one catalog entry adds to the report: one result for a signature,
/// nothing for a separator.
pub open spec fn entry(content: ContentView, category: OffsetCategory, target: TargetView) -> Seq<
    OffsetResultView,
> {
    match target.name() {
        Some(name) => seq![
            OffsetResultView { name, offset: resolve(content, target), category: category.label() },
        ],
        None => seq![],
    }
}

/// The results of one category, in the order of its signatures.
pub open spec fn category_entries(
    content: ContentView,
    category: OffsetCategory,
    targets: Seq<TargetView>,
) -> Seq<OffsetResultView>
    decreases targets.len(),
{
    if targets.len() == 0 {
        seq![]
    } else {
        category_entries(content, category, targets.drop_last()) + entry(
            content,
            category,
            targets.last(),
        )
    }
}

/// The report of a catalog: the results of its categories, in catalog order.
pub open spec fn report(
    content: ContentView,
    catalog: Seq<(OffsetCategory, Seq<TargetView>)>,
) -> Seq<OffsetResultView>
    decreases catalog.len(),
{
    if catalog.len() == 0 {
        seq![]
    } else {
        report(content, catalog.drop_last()) + category_entries(
            content,
            catalog.last().0,
            catalog.last().1,
        )
    }
}

/// The number of signatures among the entries of a category: those that are
/// no separators.
pub open spec fn signature_count(targets: Seq<TargetView>) -> nat
    decreases targets.len(),
{
    if targets.len() == 0 {
        0
    } else {
        signature_count(targets.drop_last()) + if targets.last().name() is Some {
            1nat
        } else {
            0nat
        }
    }
}

/// The number of signatures in a catalog.
pub open spec fn catalog_signature_count(catalog: Seq<(OffsetCategory, Seq<TargetView>)>) -> nat
    decreases catalog.len(),
{
    if catalog.len() == 0 {
        0
    } else {
        catalog_signature_count(catalog.drop_last()) + signature_count(catalog.last().1)
    }
}

/// A category adds one result for each of its signatures.
pub proof fn lemma_category_length(
    content: ContentView,
    category: OffsetCategory,
    targets: Seq<TargetView>,
)
    ensures
        category_entries(content, category, targets).len() == signature_count(targets),
    decreases targets.len(),
{
    if targets.len() > 0 {
        lemma_category_length(content, category, targets.drop_last());
    }
}

/// A report holds as many results as the catalog holds signatures.
pub proof fn lemma_report_length(
    content: ContentView,
    catalog: Seq<(OffsetCategory, Seq<TargetView>)>,
)
    ensures
        report(content, catalog).len() == catalog_signature_count(catalog),
    decreases catalog.len(),
{
    if catalog.len() > 0 {
        lemma_report_length(content, catalog.drop_last());
        lemma_category_length(content, catalog.last().0, catalog.last().1);
    }
}

/// The result at `i` is that of the signature at `t` in the category at `c`:
/// it carries the signature's name, the category's label and the offset
/// that the signature resolves to. No separator is such a signature.
pub open spec fn result_of(
    content: ContentView,
    catalog: Seq<(OffsetCategory, Seq<TargetView>)>,
    i: int,
    c: int,
    t: int,
) -> bool {
    &&& 0 <= c < catalog.len()
    &&& 0 <= t < catalog[c].1.len()
    &&& catalog[c].1[t].name() == Some(report(content, catalog)[i].name)
    &&& report(content, catalog)[i].category == catalog[c].0.label()
    &&& report(content, catalog)[i].offset == resolve(content, catalog[c].1[t])
}

proof fn lemma_category_entry_source(
    content: ContentView,
    category: OffsetCategory,
    targets: Seq<TargetView>,
    i: int,
) -> (t: int)
    requires
        0 <= i < category_entries(content, category, targets).len(),
    ensures
        0 <= t < targets.len(),
        targets[t].name() == Some(category_entries(content, category, targets)[i].name),
        category_entries(content, category, targets)[i].category == category.label(),
        category_entries(content, category, targets)[i].offset == resolve(content, targets[t]),
    decreases targets.len(),
{
    let front = category_entries(content, category, targets.drop_last());
    if i < front.len() {
        lemma_category_entry_source(content, category, targets.drop_last(), i)
    } else {
        targets.len() - 1
    }
}

/// Every result of a report is that of a signature of the catalog; none
/// stands for a separator.
pub proof fn lemma_report_entry_source(
    content: ContentView,
    catalog: Seq<(OffsetCategory, Seq<TargetView>)>,
    i: int,
) -> (place: (int, int))
    requires
        0 <= i < report(content, catalog).len(),
    ensures
        result_of(content, catalog, i, place.0, place.1),
    decreases catalog.len(),
{
    let front = report(content, catalog.drop_last());
    if i < front.len() {
        let place = lemma_report_entry_source(content, catalog.drop_last(), i);
        assert(catalog.drop_last()[place.0] == catalog[place.0]);
        place
    } else {
        let t = lemma_category_entry_source(
            content,
            catalog.last().0,
            catalog.last().1,
            i - front.len(),
        );
        (catalog.len() - 1, t)
    }
}

/// A fixed value resolves to itself in text, and to nothing in raw bytes.
pub proof fn lemma_fixed_value(
    lines: Seq<Seq<char>>,
    bytes: Seq<u8>,
    name: Seq<char>,
    hex: Seq<char>,
)
    ensures
        resolve(ContentView::Text(lines), TargetView::Fixed { name, hex }) == Some(hex),
        resolve(ContentView::Binary(bytes), TargetView::Fixed { name, hex }) is None,
{
}

/// Two scans of the same content with the same catalog give the same report.
pub proof fn lemma_same_scan_same_report(
    first: Seq<OffsetResult>,
    second: Seq<OffsetResult>,
    content: ContentView,
    catalog: Seq<(OffsetCategory, Seq<TargetView>)>,
)
    requires
        report_view(first) == report(content, catalog),
        report_view(second) == report(content, catalog),
    ensures
        report_view(first) == report_view(second),
{
}

/// Resolves one signature against the content.
pub fn resolve_target(content: &Content, target: &Target) -> (offset: Option<String>)
    ensures
        opt_text(offset) == resolve(content@, target@),
{
    match content {
        Content::Text(lines) => match target {
            Target::Fixed { hex, .. } => Some(hex.clone()),
            Target::Pattern { pattern, .. } => find_pattern_in_lines(
                lines.as_slice(),
                pattern.as_str(),
            ),
            Target::Regex { pattern, .. } => find_regex_in_lines(
                lines.as_slice(),
                pattern.as_str(),
            ),
            Target::AoB { .. } => None,
            Target::Separator => None,
        },
        Content::Binary(bytes) => match target {
            Target::Fixed { .. } => None,
            Target::Pattern { pattern, .. } => find_pattern_in_bytes(bytes, pattern.as_str()),
            Target::Regex { pattern, .. } => find_regex_in_bytes(bytes, pattern.as_str()),
            Target::AoB { signature, .. } => find_aob_in_bytes(bytes, signature.as_str()),
            Target::Separator => None,
        },
    }
}

/// Scans the content for every signature of the catalog. The report holds
/// one result for each signature, in catalog order, and none for a separator.
pub fn scan(content: &Content, targets: &[(OffsetCategory, Vec<Target>)]) -> (results: Vec<
    OffsetResult,
>)
    ensures
        report_view(results@) == report(content@, catalog_view(targets@)),
{
    let ghost catalog = catalog_view(targets@);
    let mut results: Vec<OffsetResult> = Vec::new();
    let mut c: usize = 0;
    assert(catalog.take(0) =~= Seq::empty());
    assert(report_view(results@) =~= Seq::empty());
    while c < targets.len()
        invariant
            c <= targets@.len(),
            catalog == catalog_view(targets@),
            report_view(results@) == report(content@, catalog.take(c as int)),
        decreases targets@.len() - c,
    {
        let category = targets[c].0;
        let signatures = &targets[c].1;
        let ghost listed = targets_view(signatures@);
        let ghost before = report_view(results@);
        let mut t: usize = 0;
        assert(listed.take(0) =~= Seq::empty());
        assert(before + category_entries(content@, category, listed.take(0)) =~= before);
        while t < signatures.len()
            invariant
                t <= signatures@.len(),
                listed == targets_view(signatures@),
                report_view(results@) == before + category_entries(
                    content@,
                    category,
                    listed.take(t as int),
                ),
            decreases signatures@.len() - t,
        {
            let target = &signatures[t];
            let ghost sofar = report_view(results@);
            match target.name() {
                Some(name) => {
                    let result = OffsetResult {
                        name: name.to_owned(),
                        offset: resolve_target(content, target),
                        category: category.name().to_owned(),
                    };
                    results.push(result);
                    assert(report_view(results@) =~= sofar + seq![result@]);
                },
                None => {},
            }
            proof {
                assert(listed.take(t + 1).drop_last() =~= listed.take(t as int));
                assert(listed.take(t + 1).last() == target@);
                assert(report_view(results@) =~= sofar + entry(content@, category, target@));
            }
            t += 1;
        }
        proof {
            assert(listed.take(signatures@.len() as int) =~= listed);
            assert(catalog.take(c + 1).drop_last() =~= catalog.take(c as int));
            assert(catalog.take(c + 1).last() == (category, listed));
        }
        c += 1;
    }
    assert(catalog.take(targets@.len() as int) =~= catalog);
    results
}

/// Scans the text of a dump, line by line.
pub fn scan_text(content: &str, targets: &[(OffsetCategory, Vec<Target>)]) -> (results: Vec<
    OffsetResult,
>)
    ensures
        report_view(results@) == report(
            ContentView::Text(text_lines(content@)),
            catalog_view(targets@),
        ),
{
    let content = Content::Text(split_lines(content));
    scan(&content, targets)
}

/// Scans the bytes of a binary image.
pub fn scan_binary(bytes: &[u8], targets: &[(OffsetCategory, Vec<Target>)]) -> (results: Vec<
    OffsetResult,
>)
    ensures
        report_view(results@) == report(ContentView::Binary(bytes@), catalog_view(targets@)),
{
    let content = Content::Binary(bytes);
    scan(&content, targets)
}

/// The name under which a catalog entry is listed: a separator is listed
/// under the empty name.
pub open spec fn listed_name(target: TargetView) -> Seq<char> {
    match target.name() {
        Some(name) => name,
        None => seq![],
    }
}

/// One pair of a flat listing, as a value of the model.
pub open spec fn listing_view(listing: Seq<(String, Option<String>)>) -> Seq<
    (Seq<char>, Option<Seq<char>>),
> {
    Seq::new(listing.len(), |i: int| (listing[i].0@, opt_text(listing[i].1)))
}

/// The flat listing of a single-list catalog against the lines of a dump:
/// one pair of name and offset for each entry, a separator as the empty
/// name without an offset.
pub open spec fn listing(lines: Seq<Seq<char>>, targets: Seq<TargetView>) -> Seq<
    (Seq<char>, Option<Seq<char>>),
> {
    Seq::new(targets.len(), |i: int| (listed_name(targets[i]), text_offset(lines, targets[i])))
}

/// Scans the text of a dump for the entries of a single-list catalog, and
/// keeps a place for each separator: the result holds one pair for each
/// entry, in order.
pub fn search_offsets(content: &str, targets: &[Target]) -> (results: Vec<(String, Option<String>)>)
    ensures
        listing_view(results@) == listing(text_lines(content@), targets_view(targets@)),
{
    let lines = Content::Text(split_lines(content));
    let mut results: Vec<(String, Option<String>)> = Vec::new();
    let mut i: usize = 0;
    while i < targets.len()
        invariant
            i <= targets@.len(),
            lines@ == ContentView::Text(text_lines(content@)),
            results@.len() == i,
            forall|j: int|
                0 <= j < i ==> (#[trigger] results@[j]).0@ == listed_name(targets@[j]@) && opt_text(
                    results@[j].1,
                ) == text_offset(text_lines(content@), targets@[j]@),
        decreases targets@.len() - i,
    {
        let name = match targets[i].name() {
            Some(name) => name.to_owned(),
            None => String::new(),
        };
        let offset = resolve_target(&lines, &targets[i]);
        results.push((name, offset));
        i += 1;
    }
    assert(listing_view(results@) =~= listing(text_lines(content@), targets_view(targets@)));
    results
}

/// The number of pairs of a flat listing that stand for a signature: those
/// whose name is not empty.
pub open spec fn listed_count(listing: Seq<(Seq<char>, Option<Seq<char>>)>) -> nat
    decreases listing.len(),
{
    if listing.len() == 0 {
        0
    } else {
        listed_count(listing.drop_last()) + if listing.last().0.len() > 0 {
            1nat
        } else {
            0nat
        }
    }
}

/// The number of pairs of a flat listing that stand for a signature and
/// hold an offset.
pub open spec fn listed_found(listing: Seq<(Seq<char>, Option<Seq<char>>)>) -> nat
    decreases listing.len(),
{
    if listing.len() == 0 {
        0
    } else {
        listed_found(listing.drop_last()) + if listing.last().0.len() > 0
            && listing.last().1 is Some {
            1nat
        } else {
            0nat
        }
    }
}

/// Counts the signatures of a flat listing and those of them that were
/// found: `(found, total)`. The places of separators are not counted.
pub fn count_listed(results: &[(String, Option<String>)]) -> (counts: (usize, usize))
    ensures
        counts.0 == listed_found(listing_view(results@)),
        counts.1 == listed_count(listing_view(results@)),
{
    let ghost all = listing_view(results@);
    let mut found: usize = 0;
    let mut total: usize = 0;
    let mut i: usize = 0;
    assert(all.take(0) =~= Seq::empty());
    while i < results.len()
        invariant
            i <= results@.len(),
            all == listing_view(results@),
            found == listed_found(all.take(i as int)),
            total == listed_count(all.take(i as int)),
            found <= total <= i,
        decreases results@.len() - i,
    {
        proof {
            assert(all.take(i + 1).drop_last() =~= all.take(i as int));
            assert(all.take(i + 1).last() == (results@[i as int].0@, opt_text(results@[i as int].1)));
        }
        if results[i].0.as_str().unicode_len() > 0 {
            total += 1;
            if results[i].1.is_some() {
                found += 1;
            }
        }
        i += 1;
    }
    assert(all.take(results@.len() as int) =~= all);
    (found, total)
}

/// The encoding of `text` ends with that of `suffix`.
pub open spec fn has_suffix(text: Seq<char>, suffix: Seq<char>) -> bool {
    occurs_at(
        encode_utf8(text),
        encode_utf8(suffix),
        encode_utf8(text).len() - encode_utf8(suffix).len(),
    )
}

/// The name is that of a binary image: it ends in `.bin`, `.so` or `.dll`.
pub open spec fn is_binary_name(path: Seq<char>) -> bool {
    has_suffix(path, ".bin"@) || has_suffix(path, ".so"@) || has_suffix(path, ".dll"@)
}

/// What was read of an artifact, as a value of the model: its bytes, or the
/// reason why it could not be read.
pub open spec fn loaded_view(loaded: Result<Vec<u8>, String>) -> Result<Seq<u8>, Seq<char>> {
    match loaded {
        Ok(data) => Ok(data@),
        Err(reason) => Err(reason@),
    }
}

/// The outcome of a scan, as a value of the model.
pub open spec fn outcome_view(outcome: Result<Vec<OffsetResult>, String>) -> Result<
    Seq<OffsetResultView>,
    Seq<char>,
> {
    match outcome {
        Ok(results) => Ok(report_view(results@)),
        Err(message) => Err(message@),
    }
}

/// What the scan of one artifact gives. The name decides between text and
/// binary. An artifact that could not be read, or in text mode is not
/// well-formed UTF-8, gives one error and no report.
pub open spec fn scan_outcome(
    path: Seq<char>,
    loaded: Result<Seq<u8>, Seq<char>>,
    catalog: Seq<(OffsetCategory, Seq<TargetView>)>,
) -> Result<Seq<OffsetResultView>, Seq<char>> {
    if is_binary_name(path) {
        match loaded {
            Ok(data) => Ok(report(ContentView::Binary(data), catalog)),
            Err(reason) => Err("Error reading binary file: "@ + reason),
        }
    } else {
        match loaded {
            Ok(data) => if valid_utf8(data) {
                Ok(report(ContentView::Text(text_lines(decode_utf8(data))), catalog))
            } else {
                Err("Error reading file: "@ + "stream did not contain valid UTF-8"@)
            },
            Err(reason) => Err("Error reading file: "@ + reason),
        }
    }
}

fn ends_with(text: &str, suffix: &str) -> (r: bool)
    ensures
        r == has_suffix(text@, suffix@),
{
    let hay = text.as_bytes();
    let needle = suffix.as_bytes();
    if needle.len() > hay.len() {
        false
    } else {
        matches_at(hay, needle, hay.len() - needle.len())
    }
}

/// Whether an artifact of this name is scanned as a binary image.
pub fn is_binary_artifact(path: &str) -> (r: bool)
    ensures
        r == is_binary_name(path@),
{
    ends_with(path, ".bin") || ends_with(path, ".so") || ends_with(path, ".dll")
}

/// Scans one artifact, given what was read of it: its bytes, or the reason
/// why it could not be read. The name decides whether the bytes are scanned
/// as a binary image or, decoded, as the text of a dump.
pub fn scan_file(
    file_path: &str,
    loaded: &Result<Vec<u8>, String>,
    targets: &[(OffsetCategory, Vec<Target>)],
) -> (outcome: Result<Vec<OffsetResult>, String>)
    ensures
        outcome_view(outcome) == scan_outcome(
            file_path@,
            loaded_view(*loaded),
            catalog_view(targets@),
        ),
{
    if is_binary_artifact(file_path) {
        match loaded {
            Ok(data) => Ok(scan_binary(data.as_slice(), targets)),
            Err(reason) => Err("Error reading binary file: ".to_owned().concat(reason.as_str())),
        }
    } else {
        match loaded {
            Ok(data) => match decode_text(data.as_slice()) {
                Some(text) => {
                    proof {
                        encode_utf8_decode_utf8(text@);
                    }
                    Ok(scan_text(text, targets))
                },
                None => Err(
                    "Error reading file: ".to_owned().concat("stream did not contain valid UTF-8"),
                ),
            },
            Err(reason) => Err("Error reading file: ".to_owned().concat(reason.as_str())),
        }
    }
}

/// Scans many artifacts against one catalog, each by itself: the outcome for
/// one artifact does not depend on the others, and an artifact that fails
/// leaves the others their reports.
pub fn batch_scan(
    artifacts: &[(String, Result<Vec<u8>, String>)],
    targets: &[(OffsetCategory, Vec<Target>)],
) -> (outcomes: Vec<(String, Result<Vec<OffsetResult>, String>)>)
    ensures
        outcomes@.len() == artifacts@.len(),
        forall|i: int|
            0 <= i < artifacts@.len() ==> {
                &&& (#[trigger] outcomes@[i]).0@ == artifacts@[i].0@
                &&& outcome_view(outcomes@[i].1) == scan_outcome(
                    artifacts@[i].0@,
                    loaded_view(artifacts@[i].1),
                    catalog_view(targets@),
                )
            },
{
    let mut outcomes: Vec<(String, Result<Vec<OffsetResult>, String>)> = Vec::new();
    let mut i: usize = 0;
    while i < artifacts.len()
        invariant
            i <= artifacts@.len(),
            outcomes@.len() == i,
            forall|j: int|
                0 <= j < i ==> {
                    &&& (#[trigger] outcomes@[j]).0@ == artifacts@[j].0@
                    &&& outcome_view(outcomes@[j].1) == scan_outcome(
                        artifacts@[j].0@,
                        loaded_view(artifacts@[j].1),
                        catalog_view(targets@),
                    )
                },
        decreases artifacts@.len() - i,
    {
        let path = &artifacts[i].0;
        let outcome = scan_file(path.as_str(), &artifacts[i].1, targets);
        outcomes.push((path.clone(), outcome));
        i += 1;
    }
    outcomes
}

} // verus!
