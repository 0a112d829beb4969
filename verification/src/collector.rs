use vstd::prelude::*;
use crate::filter::is_synthetic;
use crate::filter::path_is_synthetic;
use crate::filter::regex_match;
use crate::filter::Filter;
use crate::host::call0;
use crate::host::extract_position;
use crate::host::extract_string;
use crate::host::getattr;
use crate::host::into_bound;
use crate::host::iter;
use crate::host::next;
use crate::range::SourceRange;
use crate::stats::record;
use crate::stats::Stats;
use crate::stats::Table;
use crate::tracer::TraceEvent;
use crate::tracer::Tracer;

verus! {

/// Whether a collector whose filter was compiled from `pattern` counts the
/// lines of the file `path`.
pub open spec fn is_counted(pattern: Seq<char>, path: Seq<char>) -> bool {
    !is_synthetic(path) && regex_match(pattern, path)
}

/// `table` after a collector with the filter `pattern` has been told that a
/// line of `path` is about to run, on which the frame reports `ranges`.
pub open spec fn line_recorded(
    pattern: Seq<char>,
    table: Table,
    path: Seq<char>,
    ranges: Seq<SourceRange>,
) -> Table {
    if is_counted(pattern, path) {
        record(table, path, ranges)
    } else {
        table
    }
}

/// Counts, for every file that its filter accepts, how often each source
/// range was about to run.
pub struct Collector {
    filter: Filter,
    stats: Stats,
}

impl Collector {
    #[verifier::type_invariant]
    spec fn inv(self) -> bool {
        self.stats.wf()
    }

    /// The pattern of this collector's filter.
    pub closed spec fn pattern(self) -> Seq<char> {
        self.filter.pattern()
    }

    /// The table of hit counts.
    pub closed spec fn view(self) -> Table {
        self.stats.view()
    }

    /// The counted files with their entries, in the order of first hit.
    pub closed spec fn listing(self) -> Seq<crate::stats::FileListing> {
        self.stats.listing()
    }

    /// A collector that has counted nothing yet.
    pub fn new(filter: Filter) -> (c: Self)
        ensures
            c.pattern() == filter.pattern(),
            c.view() == Map::<Seq<char>, crate::stats::Counts>::empty(),
    {
        Collector { filter, stats: Stats::new() }
    }

    /// The filter that decides which files are counted.
    pub fn filter(&self) -> (f: &Filter)
        ensures
            f.pattern() == self.pattern(),
    {
        &self.filter
    }

    /// The hit counts.
    pub fn stats(&self) -> (s: &Stats)
        ensures
            s.wf(),
            s.view() == self.view(),
            s.listing() == self.listing(),
    {
        proof {
            use_type_invariant(self);
        }
        &self.stats
    }

    /// Whether the lines of the file `path` are counted.
    pub fn tracks(&self, path: &str) -> (b: bool)
        ensures
            b == is_counted(self.pattern(), path@),
    {
        if path_is_synthetic(path) {
            false
        } else {
            self.filter.is_match(path)
        }
    }

    /// Takes note that a line of `path` is about to run, on which the frame
    /// reports `ranges`: each of them is hit once, where the file is counted.
    pub fn record_line(&mut self, path: &str, ranges: &Vec<SourceRange>)
        ensures
            final(self).pattern() == old(self).pattern(),
            final(self).view() == line_recorded(old(self).pattern(), old(self).view(), path@, ranges@),
    {
        if self.tracks(path) {
            self.record_hits(path, ranges);
        }
    }

    fn record_hits(&mut self, path: &str, ranges: &Vec<SourceRange>)
        ensures
            final(self).pattern() == old(self).pattern(),
            final(self).view() == record(old(self).view(), path@, ranges@),
    {
        proof {
            use_type_invariant(&*self);
        }
        let mut stats = Stats::new();
        core::mem::swap(&mut self.stats, &mut stats);
        stats.record(path, ranges);
        core::mem::swap(&mut self.stats, &mut stats);
    }
}

/// The source ranges that the code object `code` lists through its
/// `co_positions`: every item that reads as four unsigned numbers, in the
/// order in which the listing yields them. Anything that fails on the way is
/// left out.
fn listed_ranges<'py>(code: &pyo3::Bound<'py, pyo3::PyAny>) -> (ranges: Vec<SourceRange>) {
    let mut ranges: Vec<SourceRange> = Vec::new();
    let positions = match getattr(code, "co_positions") {
        Ok(positions) => positions,
        Err(_) => {
            return ranges;
        },
    };
    let listing = match call0(&positions) {
        Ok(listing) => listing,
        Err(_) => {
            return ranges;
        },
    };
    let mut items = match iter(&listing) {
        Ok(items) => items,
        Err(_) => {
            return ranges;
        },
    };
    let mut steps: usize = 0;
    while steps < usize::MAX
        invariant
            steps <= usize::MAX,
        decreases usize::MAX - steps,
    {
        steps += 1;
        match next(&mut items) {
            None => {
                break ;
            },
            Some(Ok(item)) => {
                match range_of(extract_position(&item)) {
                    Some(range) => {
                        ranges.push(range);
                    },
                    None => {},
                }
            },
            Some(Err(_)) => {},
        }
    }
    ranges
}

/// The name of the file that the code object `code` was compiled from, where
/// it can be read.
fn file_name<'py>(code: &pyo3::Bound<'py, pyo3::PyAny>) -> (name: Option<String>) {
    match getattr(code, "co_filename") {
        Ok(object) => name_of(extract_string(&object)),
        Err(_) => None,
    }
}

/// The range that a listed position stands for: its four numbers are the
/// start line, the end line, the start column and the end column. A position
/// that did not read as four numbers stands for none.
pub fn range_of(read: Result<(u32, u32, u32, u32), pyo3::PyErr>) -> (range: Option<SourceRange>)
    ensures
        range == match read {
            Ok(position) => Some(
                SourceRange {
                    start_line: position.0,
                    end_line: position.1,
                    start_col: position.2,
                    end_col: position.3,
                },
            ),
            Err(_) => None::<SourceRange>,
        },
{
    match read {
        Ok((start_line, end_line, start_col, end_col)) => Some(
            SourceRange::new(start_line, end_line, start_col, end_col),
        ),
        Err(_) => None,
    }
}

/// The file name that was read from a code object: the text where the
/// reading gave one, none where it failed.
pub fn name_of(read: Result<String, pyo3::PyErr>) -> (name: Option<String>)
    ensures
        name == match read {
            Ok(text) => Some(text),
            Err(_) => None::<String>,
        },
{
    match read {
        Ok(text) => Some(text),
        Err(_) => None,
    }
}

impl Tracer<TraceEvent> for Collector {
    /// A collector never fails and keeps its filter. It leaves its table
    /// alone on every event but a line; on a line it records what the frame
    /// told it.
    open spec fn observes(
        before: Self,
        event: TraceEvent,
        after: Self,
        outcome: Result<(), pyo3::PyErr>,
    ) -> bool {
        &&& outcome is Ok
        &&& after.pattern() == before.pattern()
        &&& !(event is Line) ==> after.view() == before.view()
        &&& exists|path: Seq<char>, ranges: Seq<SourceRange>|
            after.view() == #[trigger] line_recorded(before.pattern(), before.view(), path, ranges)
    }

    /// Counts the ranges of the line that is about to run; every other event
    /// is ignored. A frame that does not tell its file is skipped, and so is
    /// a file that is not counted: the call never fails.
    fn trace<'py>(
        &mut self,
        frame: pyo3::Py<pyo3::PyAny>,
        event: TraceEvent,
        py: pyo3::Python<'py>,
    ) -> (r: Result<(), pyo3::PyErr>)
    {
        let ghost nothing: Seq<SourceRange> = Seq::empty();
        proof {
            assert(self.view() == line_recorded(self.pattern(), self.view(), Seq::empty(), nothing));
        }
        match event {
            TraceEvent::Line => {},
            _ => {
                return Ok(());
            },
        }
        let frame = into_bound(frame, py);
        let code = match getattr(&frame, "f_code") {
            Ok(code) => code,
            Err(_) => {
                return Ok(());
            },
        };
        let path = match file_name(&code) {
            Some(path) => path,
            None => {
                return Ok(());
            },
        };
        if !self.tracks(path.as_str()) {
            return Ok(());
        }
        let ranges = listed_ranges(&code);
        self.record_hits(path.as_str(), &ranges);
        proof {
            assert(self.view() == line_recorded(old(self).pattern(), old(self).view(), path@, ranges@));
        }
        Ok(())
    }
}

} // verus!
