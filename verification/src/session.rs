use vstd::prelude::*;
use crate::collector::is_counted;
use crate::collector::line_recorded;
use crate::filter::is_synthetic;
use crate::filter::regex_match;
use crate::range::SourceRange;
use crate::stats::bump_all;
use crate::stats::capped;
use crate::stats::count_in;
use crate::stats::file_counts;
use crate::stats::hits;
use crate::stats::record;
use crate::stats::Counts;
use crate::stats::Table;

verus! {

/// One notification of a line as the collector reads it from the frame: the
/// file, and the source ranges that the frame reports for the line.
pub struct LineNote {
    pub path: Seq<char>,
    pub ranges: Seq<SourceRange>,
}

/// The table after a collector with the filter `pattern`, starting from
/// `table`, has been given `notes` one after the other.
pub open spec fn after_lines(pattern: Seq<char>, table: Table, notes: Seq<LineNote>) -> Table
    decreases notes.len(),
{
    if notes.len() == 0 {
        table
    } else {
        line_recorded(
            pattern,
            after_lines(pattern, table, notes.drop_last()),
            notes.last().path,
            notes.last().ranges,
        )
    }
}

/// How often `range` occurs in `ranges`.
pub open spec fn occurrences(ranges: Seq<SourceRange>, range: SourceRange) -> nat
    decreases ranges.len(),
{
    if ranges.len() == 0 {
        0
    } else {
        occurrences(ranges.drop_last(), range) + if ranges.last() == range {
            1nat
        } else {
            0nat
        }
    }
}

/// How often `notes` report `range` in the file `path`.
pub open spec fn reported(notes: Seq<LineNote>, path: Seq<char>, range: SourceRange) -> nat
    decreases notes.len(),
{
    if notes.len() == 0 {
        0
    } else {
        reported(notes.drop_last(), path, range) + if notes.last().path == path {
            occurrences(notes.last().ranges, range)
        } else {
            0nat
        }
    }
}

proof fn lemma_bump_all_hits(counts: Counts, ranges: Seq<SourceRange>, range: SourceRange)
    requires
        hits(counts, range) <= u64::MAX,
    ensures
        hits(bump_all(counts, ranges), range) == capped(
            hits(counts, range) + occurrences(ranges, range),
        ),
    decreases ranges.len(),
{
    if ranges.len() > 0 {
        lemma_bump_all_hits(counts, ranges.drop_last(), range);
    }
}

proof fn lemma_record_count(
    table: Table,
    path: Seq<char>,
    ranges: Seq<SourceRange>,
    p: Seq<char>,
    range: SourceRange,
)
    requires
        count_in(table, p, range) <= u64::MAX,
    ensures
        count_in(record(table, path, ranges), p, range) == if p == path {
            capped(count_in(table, p, range) + occurrences(ranges, range))
        } else {
            count_in(table, p, range)
        },
{
    if p == path {
        lemma_bump_all_hits(file_counts(table, path), ranges, range);
    }
}

proof fn lemma_after_lines_count(
    pattern: Seq<char>,
    notes: Seq<LineNote>,
    path: Seq<char>,
    range: SourceRange,
)
    requires
        forall|i: int| 0 <= i < notes.len() ==> is_counted(pattern, (#[trigger] notes[i]).path),
    ensures
        count_in(after_lines(pattern, Map::empty(), notes), path, range) == capped(
            reported(notes, path, range),
        ),
    decreases notes.len(),
{
    if notes.len() > 0 {
        let earlier = notes.drop_last();
        assert forall|i: int| 0 <= i < earlier.len() implies is_counted(
            pattern,
            (#[trigger] earlier[i]).path,
        ) by {
            assert(earlier[i] == notes[i]);
        }
        lemma_after_lines_count(pattern, earlier, path, range);
        let before = after_lines(pattern, Map::empty(), earlier);
        assert(is_counted(pattern, notes[notes.len() - 1].path));
        lemma_record_count(before, notes.last().path, notes.last().ranges, path, range);
    }
}

/// Counts are exact. Where every note is for a file that is counted, the
/// count that a collector holds for a range of a file, having started with
/// nothing, is the number of times that the notes report the range in that
/// file, as long as that number fits the counter; beyond that the counter
/// stays at its largest value.
pub proof fn lemma_counts_are_exact(
    pattern: Seq<char>,
    notes: Seq<LineNote>,
    path: Seq<char>,
    range: SourceRange,
)
    requires
        forall|i: int| 0 <= i < notes.len() ==> is_counted(pattern, (#[trigger] notes[i]).path),
    ensures
        count_in(after_lines(pattern, Map::empty(), notes), path, range) == capped(
            reported(notes, path, range),
        ),
        reported(notes, path, range) <= u64::MAX ==> count_in(
            after_lines(pattern, Map::empty(), notes),
            path,
            range,
        ) == reported(notes, path, range),
{
    lemma_after_lines_count(pattern, notes, path, range);
}

proof fn lemma_uncounted_path_untouched(
    pattern: Seq<char>,
    table: Table,
    notes: Seq<LineNote>,
    path: Seq<char>,
)
    requires
        !is_counted(pattern, path),
    ensures
        after_lines(pattern, table, notes).dom().contains(path) == table.dom().contains(path),
        file_counts(after_lines(pattern, table, notes), path) == file_counts(table, path),
    decreases notes.len(),
{
    if notes.len() > 0 {
        lemma_uncounted_path_untouched(pattern, table, notes.drop_last(), path);
    }
}

/// A file that the filter rejects never gets an entry, whatever is notified
/// and however often: it is in the table afterwards only if it was before,
/// with the counts it had.
pub proof fn lemma_rejected_path_never_recorded(
    pattern: Seq<char>,
    table: Table,
    notes: Seq<LineNote>,
    path: Seq<char>,
)
    requires
        !regex_match(pattern, path),
    ensures
        after_lines(pattern, table, notes).dom().contains(path) == table.dom().contains(path),
        file_counts(after_lines(pattern, table, notes), path) == file_counts(table, path),
        !after_lines(pattern, Map::empty(), notes).dom().contains(path),
{
    lemma_uncounted_path_untouched(pattern, table, notes, path);
    lemma_uncounted_path_untouched(pattern, Map::empty(), notes, path);
}

/// A path that names no file never gets an entry, whatever the filter
/// accepts: it is in the table afterwards only if it was before, with the
/// counts it had.
pub proof fn lemma_synthetic_path_never_recorded(
    pattern: Seq<char>,
    table: Table,
    notes: Seq<LineNote>,
    path: Seq<char>,
)
    requires
        is_synthetic(path),
    ensures
        after_lines(pattern, table, notes).dom().contains(path) == table.dom().contains(path),
        file_counts(after_lines(pattern, table, notes), path) == file_counts(table, path),
        !after_lines(pattern, Map::empty(), notes).dom().contains(path),
{
    lemma_uncounted_path_untouched(pattern, table, notes, path);
    lemma_uncounted_path_untouched(pattern, Map::empty(), notes, path);
}

/// A file has an entry exactly when a note for it was counted and reported
/// at least one range.
pub proof fn lemma_entry_iff_hit(pattern: Seq<char>, notes: Seq<LineNote>, path: Seq<char>)
    ensures
        after_lines(pattern, Map::empty(), notes).dom().contains(path) <==> exists|i: int|
            0 <= i < notes.len() && (#[trigger] notes[i]).path == path && is_counted(pattern, path)
                && notes[i].ranges.len() > 0,
    decreases notes.len(),
{
    if notes.len() > 0 {
        let earlier = notes.drop_last();
        lemma_entry_iff_hit(pattern, earlier, path);
        let last = notes.len() - 1;
        if after_lines(pattern, Map::empty(), notes).dom().contains(path) {
            if after_lines(pattern, Map::empty(), earlier).dom().contains(path) {
                let i = choose|i: int|
                    0 <= i < earlier.len() && (#[trigger] earlier[i]).path == path && is_counted(
                        pattern,
                        path,
                    ) && earlier[i].ranges.len() > 0;
                assert(notes[i] == earlier[i]);
            } else {
                assert(notes[last].path == path);
            }
        }
        if exists|i: int|
            0 <= i < notes.len() && (#[trigger] notes[i]).path == path && is_counted(pattern, path)
                && notes[i].ranges.len() > 0 {
            let i = choose|i: int|
                0 <= i < notes.len() && (#[trigger] notes[i]).path == path && is_counted(
                    pattern,
                    path,
                ) && notes[i].ranges.len() > 0;
            if i < last {
                assert(earlier[i] == notes[i]);
            }
        }
    }
}

} // verus!
