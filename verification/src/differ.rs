//! Comparing two reports by signature name, and counting what a report found.

use crate::hex::opt_text;
use crate::models::{OffsetResult, OffsetResultView};
use crate::scanner::report_view;
use crate::text::same_text;
use vstd::prelude::*;
use vstd::string::*;

verus! {

/// One change between two reports: the signature's name, its offset in the
/// old report and its offset in the new one.
pub type ChangeView = (Seq<char>, Option<Seq<char>>, Option<Seq<char>>);

/// A change, as a value of the model.
pub open spec fn change_view(change: (String, Option<String>, Option<String>)) -> ChangeView {
    (change.0@, opt_text(change.1), opt_text(change.2))
}

/// A list of changes, as a value of the model.
pub open spec fn changes_view(changes: Seq<(String, Option<String>, Option<String>)>) -> Seq<
    ChangeView,
> {
    Seq::new(changes.len(), |i: int| change_view(changes[i]))
}

/// The offset of the first entry from `start` on that carries `name`;
/// `None` where no entry carries it, or that entry has no offset.
pub open spec fn offset_from(report: Seq<OffsetResultView>, name: Seq<char>, start: int) -> Option<
    Seq<char>,
>
    decreases report.len() - start,
{
    if start < 0 || start >= report.len() {
        None
    } else if report[start].name == name {
        report[start].offset
    } else {
        offset_from(report, name, start + 1)
    }
}

/// The offset that a report holds for a name.
pub open spec fn offset_of(report: Seq<OffsetResultView>, name: Seq<char>) -> Option<Seq<char>> {
    offset_from(report, name, 0)
}

/// What one entry of the new report adds to the comparison: a change where
/// its offset differs from the old report's offset for its name.
pub open spec fn change_of(old: Seq<OffsetResultView>, entry: OffsetResultView) -> Seq<
    ChangeView,
> {
    if offset_of(old, entry.name) != entry.offset {
        seq![(entry.name, offset_of(old, entry.name), entry.offset)]
    } else {
        seq![]
    }
}

/// The changes from `old` to `new`, in the order of `new`. Names that only
/// `old` holds are not looked at.
pub open spec fn changes(old: Seq<OffsetResultView>, new: Seq<OffsetResultView>) -> Seq<
    ChangeView,
>
    decreases new.len(),
{
    if new.len() == 0 {
        seq![]
    } else {
        changes(old, new.drop_last()) + change_of(old, new.last())
    }
}

/// No two entries of the report carry the same name.
pub open spec fn names_unique(report: Seq<OffsetResultView>) -> bool {
    forall|i: int, j: int|
        0 <= i < j < report.len() ==> (#[trigger] report[i]).name != (#[trigger] report[j]).name
}

/// A name that no entry before `i` carries is looked up from `i` on.
proof fn lemma_offset_skips(report: Seq<OffsetResultView>, name: Seq<char>, start: int, i: int)
    requires
        0 <= start <= i <= report.len(),
        forall|j: int| start <= j < i ==> (#[trigger] report[j]).name != name,
    ensures
        offset_from(report, name, start) == offset_from(report, name, i),
    decreases i - start,
{
    if start < i {
        lemma_offset_skips(report, name, start + 1, i);
    }
}

/// In a report without repeated names, the offset held for an entry's name
/// is that entry's offset.
pub proof fn lemma_offset_of_own_name(report: Seq<OffsetResultView>, i: int)
    requires
        names_unique(report),
        0 <= i < report.len(),
    ensures
        offset_of(report, report[i].name) == report[i].offset,
{
    lemma_offset_skips(report, report[i].name, 0, i);
}

/// A change is listed exactly where an entry of the new report carries its
/// name and its new offset, the old report holds its old offset for that
/// name, and the two offsets differ.
pub proof fn lemma_changes_membership(
    old: Seq<OffsetResultView>,
    new: Seq<OffsetResultView>,
    change: ChangeView,
)
    ensures
        changes(old, new).contains(change) <==> (exists|i: int|
            0 <= i < new.len() && (#[trigger] new[i]).name == change.0 && new[i].offset == change.2
                && offset_of(old, change.0) == change.1 && change.1 != change.2),
    decreases new.len(),
{
    let listed = exists|i: int|
        0 <= i < new.len() && (#[trigger] new[i]).name == change.0 && new[i].offset == change.2
            && offset_of(old, change.0) == change.1 && change.1 != change.2;
    if new.len() > 0 {
        let front = new.drop_last();
        let last = new.last();
        lemma_changes_membership(old, front, change);
        let earlier = changes(old, front);
        let added = change_of(old, last);
        if changes(old, new).contains(change) {
            let k = choose|k: int| 0 <= k < (earlier + added).len() && (earlier + added)[k] == change;
            if k < earlier.len() {
                assert(earlier[k] == change);
                assert(earlier.contains(change));
                let i = choose|i: int|
                    0 <= i < front.len() && (#[trigger] front[i]).name == change.0
                        && front[i].offset == change.2 && offset_of(old, change.0) == change.1
                        && change.1 != change.2;
                assert(new[i] == front[i]);
            } else {
                assert(added[k - earlier.len()] == change);
                assert(new[new.len() - 1] == last);
            }
            assert(listed);
        }
        if listed {
            let i = choose|i: int|
                0 <= i < new.len() && (#[trigger] new[i]).name == change.0 && new[i].offset
                    == change.2 && offset_of(old, change.0) == change.1 && change.1 != change.2;
            if i < front.len() {
                assert(front[i] == new[i]);
                assert(earlier.contains(change));
                let k = choose|k: int| 0 <= k < earlier.len() && earlier[k] == change;
                assert((earlier + added)[k] == change);
            } else {
                assert(added =~= seq![change]);
                assert((earlier + added)[earlier.len() as int] == change);
            }
            assert(changes(old, new).contains(change));
        }
    }
}

/// The changes from a report to any number of its own leading entries are
/// none, where the report repeats no name.
proof fn lemma_no_change_to_prefix(report: Seq<OffsetResultView>, n: int)
    requires
        names_unique(report),
        0 <= n <= report.len(),
    ensures
        changes(report, report.take(n)) == Seq::<ChangeView>::empty(),
    decreases n,
{
    if n > 0 {
        lemma_no_change_to_prefix(report, n - 1);
        assert(report.take(n).drop_last() =~= report.take(n - 1));
        lemma_offset_of_own_name(report, n - 1);
        assert(changes(report, report.take(n)) =~= Seq::<ChangeView>::empty());
    }
}

/// A report that repeats no name does not differ from itself.
pub proof fn lemma_no_change_to_itself(report: Seq<OffsetResultView>)
    requires
        names_unique(report),
    ensures
        changes(report, report) == Seq::<ChangeView>::empty(),
{
    lemma_no_change_to_prefix(report, report.len() as int);
    assert(report.take(report.len() as int) =~= report);
}

fn clone_offset(offset: &Option<String>) -> (r: Option<String>)
    ensures
        opt_text(r) == opt_text(*offset),
{
    match offset {
        Some(text) => Some(text.clone()),
        None => None,
    }
}

fn same_offset(a: &Option<String>, b: &Option<String>) -> (r: bool)
    ensures
        r == (opt_text(*a) == opt_text(*b)),
{
    match a {
        Some(x) => match b {
            Some(y) => *x == *y,
            None => false,
        },
        None => b.is_none(),
    }
}

/// The offset that a report holds for a name: that of the first entry that
/// carries the name.
pub fn find_offset(results: &[OffsetResult], name: &str) -> (offset: Option<String>)
    ensures
        opt_text(offset) == offset_of(report_view(results@), name@),
{
    let mut i: usize = 0;
    while i < results.len()
        invariant
            i <= results@.len(),
            offset_of(report_view(results@), name@) == offset_from(
                report_view(results@),
                name@,
                i as int,
            ),
        decreases results@.len() - i,
    {
        if same_text(results[i].name.as_str(), name) {
            return clone_offset(&results[i].offset);
        }
        i += 1;
    }
    None
}

/// Lists what changed from the old report to the new one: for each entry of
/// the new report whose offset differs from the old report's offset for the
/// same name, the name with both offsets, in the order of the new report.
pub fn compare_offsets(old_results: &[OffsetResult], new_results: &[OffsetResult]) -> (comparisons:
    Vec<(String, Option<String>, Option<String>)>)
    ensures
        changes_view(comparisons@) == changes(
            report_view(old_results@),
            report_view(new_results@),
        ),
{
    let ghost old = report_view(old_results@);
    let ghost new = report_view(new_results@);
    let mut comparisons: Vec<(String, Option<String>, Option<String>)> = Vec::new();
    let mut i: usize = 0;
    assert(new.take(0) =~= Seq::empty());
    assert(changes_view(comparisons@) =~= Seq::empty());
    while i < new_results.len()
        invariant
            i <= new_results@.len(),
            old == report_view(old_results@),
            new == report_view(new_results@),
            changes_view(comparisons@) == changes(old, new.take(i as int)),
        decreases new_results@.len() - i,
    {
        let entry = &new_results[i];
        let before = find_offset(old_results, entry.name.as_str());
        let ghost sofar = changes_view(comparisons@);
        if !same_offset(&before, &entry.offset) {
            let change = (entry.name.clone(), before, clone_offset(&entry.offset));
            comparisons.push(change);
            assert(changes_view(comparisons@) =~= sofar + seq![change_view(change)]);
        }
        proof {
            assert(new.take(i + 1).drop_last() =~= new.take(i as int));
            assert(new.take(i + 1).last() == entry@);
            assert(changes_view(comparisons@) =~= sofar + change_of(old, entry@));
        }
        i += 1;
    }
    assert(new.take(new_results@.len() as int) =~= new);
    comparisons
}

/// How many signatures a report lists, and how many of them were located.
#[derive(Debug, Clone, Copy, PartialEq, Eq, Structural)]
pub struct Statistics {
    pub total: usize,
    pub found: usize,
    pub missing: usize,
}

/// The number of entries that hold an offset.
pub open spec fn found_count(report: Seq<OffsetResultView>) -> nat
    decreases report.len(),
{
    if report.len() == 0 {
        0
    } else {
        found_count(report.drop_last()) + if report.last().offset is Some {
            1nat
        } else {
            0nat
        }
    }
}

/// No more entries hold an offset than there are entries.
pub proof fn lemma_found_count_bounded(report: Seq<OffsetResultView>)
    ensures
        found_count(report) <= report.len(),
    decreases report.len(),
{
    if report.len() > 0 {
        lemma_found_count_bounded(report.drop_last());
    }
}

/// Counts the entries of a report, those that hold an offset and those that
/// hold none.
pub fn statistics(results: &[OffsetResult]) -> (stats: Statistics)
    ensures
        stats.total == results@.len(),
        stats.found == found_count(report_view(results@)),
        stats.missing == stats.total - stats.found,
{
    let ghost report = report_view(results@);
    let mut found: usize = 0;
    let mut i: usize = 0;
    assert(report.take(0) =~= Seq::empty());
    while i < results.len()
        invariant
            i <= results@.len(),
            report == report_view(results@),
            found == found_count(report.take(i as int)),
            found <= i,
        decreases results@.len() - i,
    {
        proof {
            assert(report.take(i + 1).drop_last() =~= report.take(i as int));
            assert(report.take(i + 1).last() == results@[i as int]@);
        }
        if results[i].offset.is_some() {
            found += 1;
        }
        i += 1;
    }
    assert(report.take(results@.len() as int) =~= report);
    Statistics { total: results.len(), found, missing: results.len() - found }
}

} // verus!
