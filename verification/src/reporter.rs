use vstd::prelude::*;
use vstd::string::StringExecFns;
use crate::collector::Collector;
use crate::range::SourceRange;
use crate::stats::FileListing;
use crate::stats::RangeCount;

verus! {

/// The character of the decimal digit `d`.
pub open spec fn digit(d: nat) -> char {
    if d == 0 {
        '0'
    } else if d == 1 {
        '1'
    } else if d == 2 {
        '2'
    } else if d == 3 {
        '3'
    } else if d == 4 {
        '4'
    } else if d == 5 {
        '5'
    } else if d == 6 {
        '6'
    } else if d == 7 {
        '7'
    } else if d == 8 {
        '8'
    } else {
        '9'
    }
}

/// `n` written in decimal, without sign or leading zeros.
pub open spec fn decimal(n: nat) -> Seq<char>
    decreases n,
{
    if n < 10 {
        seq![digit(n)]
    } else {
        decimal(n / 10).push(digit(n % 10))
    }
}

/// A range as it is printed: its four coordinates in round brackets.
pub open spec fn range_text(range: SourceRange) -> Seq<char> {
    "("@ + decimal(range.start_line as nat) + ", "@ + decimal(range.end_line as nat) + ", "@
        + decimal(range.start_col as nat) + ", "@ + decimal(range.end_col as nat) + ")"@
}

/// The line of the report for one range of a file.
pub open spec fn entry_line(entry: RangeCount) -> Seq<char> {
    "  "@ + range_text(entry.range) + ": "@ + decimal(entry.count as nat)
}

/// The line of the report that opens the part of a file.
pub open spec fn heading(path: Seq<char>) -> Seq<char> {
    path + ":"@
}

/// The lines of the report for the ranges of one file.
pub open spec fn entry_lines(entries: Seq<RangeCount>) -> Seq<Seq<char>> {
    Seq::new(entries.len(), |j: int| entry_line(entries[j]))
}

/// The lines of the report for `listing`: for each file its heading and
/// then one line for each of its ranges.
pub open spec fn report_of(listing: Seq<FileListing>) -> Seq<Seq<char>>
    decreases listing.len(),
{
    if listing.len() == 0 {
        Seq::empty()
    } else {
        report_of(listing.drop_last()) + seq![heading(listing.last().path)] + entry_lines(
            listing.last().entries,
        )
    }
}

/// What the strings of `lines` hold.
pub open spec fn texts(lines: Seq<String>) -> Seq<Seq<char>> {
    Seq::new(lines.len(), |i: int| lines[i]@)
}

/// Calls `ToString::to_string` on a `u64`, which writes the number in
/// decimal, without sign or leading zeros.
#[verifier::external_body]
fn decimal_string(n: u64) -> (text: String)
    ensures
        text@ == decimal(n as nat),
{
    n.to_string()
}

fn range_string(range: SourceRange) -> (text: String)
    ensures
        text@ == range_text(range),
{
    let mut text = String::from_str("(");
    text.append(decimal_string(range.start_line as u64).as_str());
    text.append(", ");
    text.append(decimal_string(range.end_line as u64).as_str());
    text.append(", ");
    text.append(decimal_string(range.start_col as u64).as_str());
    text.append(", ");
    text.append(decimal_string(range.end_col as u64).as_str());
    text.append(")");
    text
}

fn entry_string(entry: RangeCount) -> (text: String)
    ensures
        text@ == entry_line(entry),
{
    let mut text = String::from_str("  ");
    text.append(range_string(entry.range).as_str());
    text.append(": ");
    text.append(decimal_string(entry.count).as_str());
    text
}

/// The report of what `collector` has counted, line by line: the files in
/// the order in which they were first hit, and below each file its ranges in
/// that order.
pub fn report(collector: &Collector) -> (lines: Vec<String>)
    ensures
        texts(lines@) == report_of(collector.listing()),
{
    let stats = collector.stats();
    let mut lines: Vec<String> = Vec::new();
    let mut i: usize = 0;
    assert(texts(lines@) =~= report_of(stats.listing().take(0)));
    while i < stats.len()
        invariant
            stats.wf(),
            i <= stats.listing().len(),
            texts(lines@) == report_of(stats.listing().take(i as int)),
        decreases stats.listing().len() - i,
    {
        let ghost before = texts(lines@);
        let ghost file = stats.listing()[i as int];
        let mut head = stats.path_at(i).clone();
        head.append(":");
        lines.push(head);
        let entries = stats.entries_at(i);
        let mut j: usize = 0;
        assert(texts(lines@) =~= before + seq![heading(file.path)] + entry_lines(
            entries@.take(0),
        ));
        while j < entries.len()
            invariant
                j <= entries.len(),
                texts(lines@) == before + seq![heading(file.path)] + entry_lines(
                    entries@.take(j as int),
                ),
            decreases entries.len() - j,
        {
            let ghost sofar = texts(lines@);
            lines.push(entry_string(entries[j]));
            assert(texts(lines@) =~= sofar.push(entry_line(entries[j as int])));
            assert(entry_lines(entries@.take(j + 1)) =~= entry_lines(entries@.take(j as int)).push(
                entry_line(entries[j as int]),
            ));
            assert(texts(lines@) =~= before + seq![heading(file.path)] + entry_lines(
                entries@.take(j + 1),
            ));
            j += 1;
        }
        proof {
            assert(entries@.take(entries.len() as int) =~= entries@);
            let next = stats.listing().take(i + 1);
            assert(next.drop_last() =~= stats.listing().take(i as int));
            assert(next.last() == file);
        }
        i += 1;
    }
    assert(stats.listing().take(stats.listing().len() as int) =~= stats.listing());
    lines
}

} // verus!
