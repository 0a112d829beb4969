use vstd::prelude::*;
use crate::range::SourceRange;

verus! {

/// Hit counts by source range, as a mathematical map. A range outside the
/// domain has not been hit.
pub type Counts = Map<SourceRange, nat>;

/// The number of hits that `counts` records for `range`.
pub open spec fn hits(counts: Counts, range: SourceRange) -> nat {
    if counts.dom().contains(range) {
        counts[range]
    } else {
        0
    }
}

/// The value a counter holds after it has been asked to reach `n`: counters
/// stop at `u64::MAX` and never wrap.
pub open spec fn capped(n: nat) -> nat {
    if n <= u64::MAX {
        n
    } else {
        u64::MAX as nat
    }
}

/// `counts` after one more hit of `range`.
pub open spec fn bump(counts: Counts, range: SourceRange) -> Counts {
    counts.insert(range, capped(hits(counts, range) + 1))
}

/// `counts` after one hit of each element of `ranges`, a range that occurs
/// several times being hit as often.
pub open spec fn bump_all(counts: Counts, ranges: Seq<SourceRange>) -> Counts
    decreases ranges.len(),
{
    if ranges.len() == 0 {
        counts
    } else {
        bump(bump_all(counts, ranges.drop_last()), ranges.last())
    }
}

/// Hit counts by file path and source range, as a mathematical map. A path
/// outside the domain has no recorded hit.
pub type Table = Map<Seq<char>, Counts>;

/// The counts that `table` holds for `path`: empty for a path without entry.
pub open spec fn file_counts(table: Table, path: Seq<char>) -> Counts {
    if table.dom().contains(path) {
        table[path]
    } else {
        Map::empty()
    }
}

/// The number of hits that `table` records for `range` in the file `path`.
pub open spec fn count_in(table: Table, path: Seq<char>, range: SourceRange) -> nat {
    hits(file_counts(table, path), range)
}

/// `table` after one hit of each element of `ranges` in the file `path`. The
/// file gets its entry with its first hit: without a range nothing changes.
pub open spec fn record(table: Table, path: Seq<char>, ranges: Seq<SourceRange>) -> Table {
    if ranges.len() == 0 {
        table
    } else {
        table.insert(path, bump_all(file_counts(table, path), ranges))
    }
}

/// One recorded range with its counter.
#[derive(Clone, Copy, Debug, PartialEq, Eq, Structural)]
pub struct RangeCount {
    pub range: SourceRange,
    pub count: u64,
}

/// The hit counts of one file, in the order in which the ranges were first hit.
pub struct LineStats {
    entries: Vec<RangeCount>,
}

impl LineStats {
    /// No range is recorded twice.
    pub closed spec fn wf(self) -> bool {
        forall|i: int, j: int|
            0 <= i < j < self.entries.len() ==> #[trigger] self.entries[i].range
                != #[trigger] self.entries[j].range
    }

    /// The recorded ranges with their counters, in the order of first hit.
    pub closed spec fn entries(self) -> Seq<RangeCount> {
        self.entries@
    }

    spec fn position(self, range: SourceRange) -> int {
        choose|i: int| 0 <= i < self.entries.len() && self.entries[i].range == range
    }

    /// The counts that these statistics stand for.
    pub closed spec fn view(self) -> Counts {
        Map::new(
            |r: SourceRange| exists|i: int| 0 <= i < self.entries.len() && #[trigger] self.entries[i].range == r,
            |r: SourceRange| self.entries[self.position(r)].count as nat,
        )
    }

    spec fn domain_upto(self, n: int) -> Set<SourceRange> {
        Set::new(|r: SourceRange| exists|i: int| 0 <= i < n && #[trigger] self.entries[i].range == r)
    }

    proof fn lemma_domain(self, n: int)
        requires
            self.wf(),
            0 <= n <= self.entries.len(),
        ensures
            self.domain_upto(n).finite(),
            self.domain_upto(n).len() == n,
        decreases n,
    {
        if n == 0 {
            assert(self.domain_upto(0) =~= Set::<SourceRange>::empty());
        } else {
            self.lemma_domain(n - 1);
            let r = self.entries[n - 1].range;
            assert(!self.domain_upto(n - 1).contains(r)) by {
                if self.domain_upto(n - 1).contains(r) {
                    let i = choose|i: int| 0 <= i < n - 1 && #[trigger] self.entries[i].range == r;
                    assert(self.entries[i].range != self.entries[n - 1].range);
                }
            }
            assert(self.domain_upto(n) =~= self.domain_upto(n - 1).insert(r)) by {
                assert forall|x: SourceRange| self.domain_upto(n).contains(x) <==> self.domain_upto(n - 1).insert(r).contains(x) by {
                    if self.domain_upto(n).contains(x) {
                        let i = choose|i: int| 0 <= i < n && #[trigger] self.entries[i].range == x;
                        if i < n - 1 {
                            assert(self.domain_upto(n - 1).contains(x));
                        }
                    }
                    if self.domain_upto(n - 1).contains(x) {
                        let i = choose|i: int| 0 <= i < n - 1 && #[trigger] self.entries[i].range == x;
                        assert(self.entries[i].range == x);
                    }
                    if x == r {
                        assert(self.entries[n - 1].range == x);
                    }
                }
            }
        }
    }

    /// What the map holds for the range at index `i`.
    proof fn lemma_entry(self, i: int)
        requires
            self.wf(),
            0 <= i < self.entries.len(),
        ensures
            self.view().dom().contains(self.entries[i].range),
            self.view()[self.entries[i].range] == self.entries[i].count,
            self.position(self.entries[i].range) == i,
    {
        let r = self.entries[i].range;
        let p = self.position(r);
        assert(0 <= p < self.entries.len() && self.entries[p].range == r);
        if p < i {
            assert(self.entries[p].range != self.entries[i].range);
        } else if i < p {
            assert(self.entries[i].range != self.entries[p].range);
        }
    }

    /// Statistics without any hit.
    pub fn new() -> (s: Self)
        ensures
            s.wf(),
            s.view() == Map::<SourceRange, nat>::empty(),
            s.entries() == Seq::<RangeCount>::empty(),
    {
        let s = LineStats { entries: Vec::new() };
        assert(s.view() =~= Map::<SourceRange, nat>::empty());
        s
    }

    fn find(&self, range: SourceRange) -> (r: Option<usize>)
        ensures
            match r {
                Some(i) => i < self.entries.len() && self.entries[i as int].range == range,
                None => forall|i: int| 0 <= i < self.entries.len() ==> self.entries[i].range != range,
            },
    {
        let mut i: usize = 0;
        while i < self.entries.len()
            invariant
                i <= self.entries.len(),
                forall|k: int| 0 <= k < i ==> self.entries[k].range != range,
            decreases self.entries.len() - i,
        {
            if self.entries[i].range == range {
                return Some(i);
            }
            i += 1;
        }
        None
    }

    /// The number of hits recorded for `range`.
    pub fn get(&self, range: SourceRange) -> (n: u64)
        requires
            self.wf(),
        ensures
            n == hits(self.view(), range),
    {
        match self.find(range) {
            Some(i) => {
                self.entries[i].count
            },
            None => 0,
        }
    }

    /// Records one hit of `range`. A counter that has reached `u64::MAX`
    /// stays there.
    pub fn bump(&mut self, range: SourceRange)
        requires
            old(self).wf(),
        ensures
            final(self).wf(),
            final(self).view() == bump(old(self).view(), range),
    {
        match self.find(range) {
            Some(i) => {
                let c = self.entries[i].count;
                let next = if c < u64::MAX { c + 1 } else { c };
                self.entries.set(i, RangeCount { range, count: next });
                proof {
                    let pre = *old(self);
                    let post = *self;
                    assert forall|k: int, l: int| 0 <= k < l < post.entries.len() implies #[trigger] post.entries[k].range != #[trigger] post.entries[l].range by {
                        assert(pre.entries[k].range != pre.entries[l].range);
                    }
                    pre.lemma_entry(i as int);
                    assert forall|r: SourceRange| #[trigger] post.view().dom().contains(r) <==> bump(pre.view(), range).dom().contains(r) by {
                        if post.view().dom().contains(r) {
                            let k = choose|k: int| 0 <= k < post.entries.len() && #[trigger] post.entries[k].range == r;
                            assert(pre.entries[k].range == r);
                        }
                        if pre.view().dom().contains(r) {
                            let k = choose|k: int| 0 <= k < pre.entries.len() && #[trigger] pre.entries[k].range == r;
                            assert(post.entries[k].range == r);
                        }
                        if r == range {
                            assert(post.entries[i as int].range == r);
                        }
                    }
                    assert forall|r: SourceRange| post.view().dom().contains(r) implies #[trigger] post.view()[r] == bump(pre.view(), range)[r] by {
                        let k = choose|k: int| 0 <= k < post.entries.len() && #[trigger] post.entries[k].range == r;
                        post.lemma_entry(k);
                        pre.lemma_entry(k);
                    }
                    assert(post.view() =~= bump(pre.view(), range));
                }
            },
            None => {
                self.entries.push(RangeCount { range, count: 1 });
                proof {
                    let pre = *old(self);
                    let post = *self;
                    let n = pre.entries.len() as int;
                    assert forall|k: int, l: int| 0 <= k < l < post.entries.len() implies #[trigger] post.entries[k].range != #[trigger] post.entries[l].range by {
                        if l < n {
                            assert(pre.entries[k].range != pre.entries[l].range);
                        } else {
                            assert(pre.entries[k].range != range);
                        }
                    }
                    assert forall|r: SourceRange| #[trigger] post.view().dom().contains(r) <==> bump(pre.view(), range).dom().contains(r) by {
                        if post.view().dom().contains(r) {
                            let k = choose|k: int| 0 <= k < post.entries.len() && #[trigger] post.entries[k].range == r;
                            if k < n {
                                assert(pre.entries[k].range == r);
                            }
                        }
                        if pre.view().dom().contains(r) {
                            let k = choose|k: int| 0 <= k < pre.entries.len() && #[trigger] pre.entries[k].range == r;
                            assert(post.entries[k].range == r);
                        }
                        if r == range {
                            assert(post.entries[n].range == r);
                        }
                    }
                    assert forall|r: SourceRange| post.view().dom().contains(r) implies #[trigger] post.view()[r] == bump(pre.view(), range)[r] by {
                        let k = choose|k: int| 0 <= k < post.entries.len() && #[trigger] post.entries[k].range == r;
                        post.lemma_entry(k);
                        if k < n {
                            pre.lemma_entry(k);
                        }
                    }
                    assert(post.view() =~= bump(pre.view(), range));
                }
            },
        }
    }
    /// Records one hit of each element of `ranges`, in order.
    pub fn bump_all(&mut self, ranges: &Vec<SourceRange>)
        requires
            old(self).wf(),
        ensures
            final(self).wf(),
            final(self).view() == bump_all(old(self).view(), ranges@),
    {
        let mut i: usize = 0;
        while i < ranges.len()
            invariant
                i <= ranges.len(),
                self.wf(),
                self.view() == bump_all(old(self).view(), ranges@.take(i as int)),
            decreases ranges.len() - i,
        {
            self.bump(ranges[i]);
            proof {
                let next = ranges@.take(i + 1);
                assert(next.drop_last() =~= ranges@.take(i as int));
                assert(next.last() == ranges@[i as int]);
            }
            i += 1;
        }
        assert(ranges@.take(ranges.len() as int) =~= ranges@);
    }

    /// The number of ranges that have been hit.
    pub fn len(&self) -> (n: usize)
        requires
            self.wf(),
        ensures
            self.view().dom().finite(),
            n == self.view().dom().len(),
            n == self.entries().len(),
    {
        proof {
            self.lemma_domain(self.entries.len() as int);
            assert(self.domain_upto(self.entries.len() as int) =~= self.view().dom());
        }
        self.entries.len()
    }

    /// The entries list the map: each entry is a range of the map with its
    /// count, no range is listed twice, and every range of the map is listed.
    pub proof fn lemma_entries(self)
        requires
            self.wf(),
        ensures
            forall|i: int|
                0 <= i < self.entries().len() ==> self.view().dom().contains(
                    (#[trigger] self.entries()[i]).range,
                ) && self.view()[self.entries()[i].range] == self.entries()[i].count,
            forall|i: int, j: int|
                0 <= i < j < self.entries().len() ==> (#[trigger] self.entries()[i]).range != (
                #[trigger] self.entries()[j]).range,
            forall|r: SourceRange|
                self.view().dom().contains(r) ==> exists|i: int|
                    0 <= i < self.entries().len() && (#[trigger] self.entries()[i]).range == r,
    {
        assert forall|i: int| 0 <= i < self.entries().len() implies self.view().dom().contains(
            (#[trigger] self.entries()[i]).range,
        ) && self.view()[self.entries()[i].range] == self.entries()[i].count by {
            self.lemma_entry(i);
        }
        assert forall|r: SourceRange| self.view().dom().contains(r) implies exists|i: int|
            0 <= i < self.entries().len() && (#[trigger] self.entries()[i]).range == r by {
            let i = choose|i: int| 0 <= i < self.entries.len() && #[trigger] self.entries[i].range == r;
            assert(self.entries()[i].range == r);
        }
    }

    /// The recorded ranges with their counters, in the order of first hit.
    pub fn to_vec(&self) -> (v: Vec<RangeCount>)
        requires
            self.wf(),
        ensures
            v@ == self.entries(),
    {
        self.entries.clone()
    }
}

/// One file of a listing: its path, and its ranges with their counters.
pub struct FileListing {
    pub path: Seq<char>,
    pub entries: Seq<RangeCount>,
}

/// The hit counts of every counted file, in the order in which the files were
/// first hit.
pub struct Stats {
    paths: Vec<String>,
    lines: Vec<LineStats>,
}

impl Stats {
    /// No path is recorded twice, and every file's counts are well formed.
    pub closed spec fn wf(self) -> bool {
        &&& self.paths.len() == self.lines.len()
        &&& forall|i: int, j: int|
            0 <= i < j < self.paths.len() ==> #[trigger] self.paths[i]@ != #[trigger] self.paths[j]@
        &&& forall|i: int| 0 <= i < self.lines.len() ==> (#[trigger] self.lines[i]).wf()
    }

    /// The recorded files with their entries, in the order of first hit.
    pub closed spec fn listing(self) -> Seq<FileListing> {
        Seq::new(
            self.paths.len() as nat,
            |i: int| FileListing { path: self.paths[i]@, entries: self.lines[i].entries() },
        )
    }

    /// The listing lists the table: each listed file is a file of the table,
    /// its entries are those of the file's counts, no file is listed twice,
    /// and every file of the table is listed.
    pub proof fn lemma_listing(self)
        requires
            self.wf(),
        ensures
            forall|i: int|
                0 <= i < self.listing().len() ==> self.view().dom().contains(
                    (#[trigger] self.listing()[i]).path,
                ),
            forall|i: int, j: int|
                0 <= i < self.listing().len() && 0 <= j < self.listing()[i].entries.len() ==> hits(
                    self.view()[self.listing()[i].path],
                    (#[trigger] self.listing()[i].entries[j]).range,
                ) == self.listing()[i].entries[j].count && self.view()[self.listing()[i].path].dom().contains(
                    self.listing()[i].entries[j].range,
                ),
            forall|i: int, j: int|
                0 <= i < j < self.listing().len() ==> (#[trigger] self.listing()[i]).path != (
                #[trigger] self.listing()[j]).path,
            forall|p: Seq<char>|
                self.view().dom().contains(p) ==> exists|i: int|
                    0 <= i < self.listing().len() && (#[trigger] self.listing()[i]).path == p,
    {
        assert forall|i: int| 0 <= i < self.listing().len() implies self.view().dom().contains(
            (#[trigger] self.listing()[i]).path,
        ) by {
            self.lemma_entry(i);
        }
        assert forall|i: int, j: int|
            0 <= i < self.listing().len() && 0 <= j < self.listing()[i].entries.len() implies hits(
            self.view()[self.listing()[i].path],
            (#[trigger] self.listing()[i].entries[j]).range,
        ) == self.listing()[i].entries[j].count && self.view()[self.listing()[i].path].dom().contains(
            self.listing()[i].entries[j].range,
        ) by {
            self.lemma_entry(i);
            assert(self.lines[i].wf());
            self.lines[i].lemma_entries();
        }
        assert forall|i: int, j: int| 0 <= i < j < self.listing().len() implies (
        #[trigger] self.listing()[i]).path != (#[trigger] self.listing()[j]).path by {
            assert(self.paths[i]@ != self.paths[j]@);
        }
        assert forall|p: Seq<char>| self.view().dom().contains(p) implies exists|i: int|
            0 <= i < self.listing().len() && (#[trigger] self.listing()[i]).path == p by {
            let i = choose|i: int| 0 <= i < self.paths.len() && #[trigger] self.paths[i]@ == p;
            assert(self.listing()[i].path == p);
        }
    }

    spec fn position(self, path: Seq<char>) -> int {
        choose|i: int| 0 <= i < self.paths.len() && self.paths[i]@ == path
    }

    /// The table that these statistics stand for.
    pub closed spec fn view(self) -> Table {
        Map::new(
            |p: Seq<char>| exists|i: int| 0 <= i < self.paths.len() && #[trigger] self.paths[i]@ == p,
            |p: Seq<char>| self.lines[self.position(p)].view(),
        )
    }

    proof fn lemma_entry(self, i: int)
        requires
            self.wf(),
            0 <= i < self.paths.len(),
        ensures
            self.view().dom().contains(self.paths[i]@),
            self.view()[self.paths[i]@] == self.lines[i].view(),
            self.position(self.paths[i]@) == i,
    {
        let p = self.paths[i]@;
        let k = self.position(p);
        assert(0 <= k < self.paths.len() && self.paths[k]@ == p);
        if k < i {
            assert(self.paths[k]@ != self.paths[i]@);
        } else if i < k {
            assert(self.paths[i]@ != self.paths[k]@);
        }
    }

    /// Statistics without any file.
    pub fn new() -> (s: Self)
        ensures
            s.wf(),
            s.view() == Map::<Seq<char>, Counts>::empty(),
            s.listing() == Seq::<FileListing>::empty(),
    {
        let s = Stats { paths: Vec::new(), lines: Vec::new() };
        assert(s.view() =~= Map::<Seq<char>, Counts>::empty());
        assert(s.listing() =~= Seq::<FileListing>::empty());
        s
    }

    /// The number of files with an entry.
    pub fn len(&self) -> (n: usize)
        requires
            self.wf(),
        ensures
            n == self.listing().len(),
    {
        self.paths.len()
    }

    /// The path of the file that is listed at `index`.
    pub fn path_at(&self, index: usize) -> (path: &String)
        requires
            self.wf(),
            index < self.listing().len(),
        ensures
            path@ == self.listing()[index as int].path,
    {
        &self.paths[index]
    }

    /// The entries of the file that is listed at `index`, in the order of
    /// first hit.
    pub fn entries_at(&self, index: usize) -> (entries: Vec<RangeCount>)
        requires
            self.wf(),
            index < self.listing().len(),
        ensures
            entries@ == self.listing()[index as int].entries,
    {
        self.lines[index].to_vec()
    }

    fn find(&self, path: &String) -> (r: Option<usize>)
        requires
            self.wf(),
        ensures
            match r {
                Some(i) => i < self.paths.len() && self.paths[i as int]@ == path@,
                None => forall|i: int| 0 <= i < self.paths.len() ==> self.paths[i]@ != path@,
            },
            r is Some <==> self.view().dom().contains(path@),
    {
        let mut i: usize = 0;
        while i < self.paths.len()
            invariant
                self.wf(),
                i <= self.paths.len(),
                forall|k: int| 0 <= k < i ==> self.paths[k]@ != path@,
            decreases self.paths.len() - i,
        {
            if self.paths[i] == *path {
                proof {
                    self.lemma_entry(i as int);
                }
                return Some(i);
            }
            i += 1;
        }
        None
    }

    /// Whether the file `path` has an entry.
    pub fn contains(&self, path: &str) -> (b: bool)
        requires
            self.wf(),
        ensures
            b == self.view().dom().contains(path@),
    {
        let owned = path.to_owned();
        self.find(&owned).is_some()
    }

    /// The number of hits recorded for `range` in the file `path`.
    pub fn count(&self, path: &str, range: SourceRange) -> (n: u64)
        requires
            self.wf(),
        ensures
            n == count_in(self.view(), path@, range),
    {
        let owned = path.to_owned();
        match self.find(&owned) {
            Some(i) => {
                proof {
                    self.lemma_entry(i as int);
                }
                self.lines[i].get(range)
            },
            None => 0,
        }
    }

    /// Records one hit of each element of `ranges` in the file `path`.
    pub fn record(&mut self, path: &str, ranges: &Vec<SourceRange>)
        requires
            old(self).wf(),
        ensures
            final(self).wf(),
            final(self).view() == record(old(self).view(), path@, ranges@),
    {
        if ranges.len() == 0 {
            return ;
        }
        let owned = path.to_owned();
        match self.find(&owned) {
            Some(i) => {
                proof {
                    self.lemma_entry(i as int);
                }
                self.lines[i].bump_all(ranges);
                proof {
                    let pre = *old(self);
                    let post = *self;
                    assert(post.paths == pre.paths);
                    assert forall|k: int| 0 <= k < post.lines.len() implies (#[trigger] post.lines[k]).wf() by {
                        if k != i {
                            assert(pre.lines[k].wf());
                        }
                    }
                    assert forall|p: Seq<char>| post.view().dom().contains(p) implies #[trigger] post.view()[p] == record(pre.view(), path@, ranges@)[p] by {
                        let k = choose|k: int| 0 <= k < post.paths.len() && #[trigger] post.paths[k]@ == p;
                        post.lemma_entry(k);
                        pre.lemma_entry(k);
                    }
                    assert(post.view() =~= record(pre.view(), path@, ranges@));
                }
            },
            None => {
                let mut fresh = LineStats::new();
                fresh.bump_all(ranges);
                self.paths.push(owned);
                self.lines.push(fresh);
                proof {
                    let pre = *old(self);
                    let post = *self;
                    let n = pre.paths.len() as int;
                    assert forall|k: int, l: int| 0 <= k < l < post.paths.len() implies #[trigger] post.paths[k]@ != #[trigger] post.paths[l]@ by {
                        if l < n {
                            assert(pre.paths[k]@ != pre.paths[l]@);
                        } else {
                            assert(pre.paths[k]@ != path@);
                        }
                    }
                    assert forall|k: int| 0 <= k < post.lines.len() implies (#[trigger] post.lines[k]).wf() by {
                        if k < n {
                            assert(pre.lines[k].wf());
                        }
                    }
                    assert forall|p: Seq<char>| #[trigger] post.view().dom().contains(p) <==> record(pre.view(), path@, ranges@).dom().contains(p) by {
                        if post.view().dom().contains(p) {
                            let k = choose|k: int| 0 <= k < post.paths.len() && #[trigger] post.paths[k]@ == p;
                            if k < n {
                                assert(pre.paths[k]@ == p);
                            }
                        }
                        if pre.view().dom().contains(p) {
                            let k = choose|k: int| 0 <= k < pre.paths.len() && #[trigger] pre.paths[k]@ == p;
                            assert(post.paths[k]@ == p);
                        }
                        if p == path@ {
                            assert(post.paths[n]@ == p);
                        }
                    }
                    assert forall|p: Seq<char>| post.view().dom().contains(p) implies #[trigger] post.view()[p] == record(pre.view(), path@, ranges@)[p] by {
                        let k = choose|k: int| 0 <= k < post.paths.len() && #[trigger] post.paths[k]@ == p;
                        post.lemma_entry(k);
                        if k < n {
                            pre.lemma_entry(k);
                        }
                    }
                    assert(post.view() =~= record(pre.view(), path@, ranges@));
                }
            },
        }
    }
}

} // verus!
