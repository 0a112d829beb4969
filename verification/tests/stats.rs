use fine_coverage::range::SourceRange;
use fine_coverage::stats::{LineStats, Stats};

#[test]
fn ranges_compare_by_their_coordinates() {
    let range = SourceRange::new(1, 2, 3, 4);
    assert_eq!(range.start_line, 1);
    assert_eq!(range.end_line, 2);
    assert_eq!(range.start_col, 3);
    assert_eq!(range.end_col, 4);
    assert_eq!(range.as_tuple(), (1, 2, 3, 4));
    assert_eq!(range, SourceRange::new(1, 2, 3, 4));
    assert_ne!(range, SourceRange::new(2, 1, 3, 4));
    assert_ne!(range, SourceRange::new(1, 2, 4, 3));
}

#[test]
fn line_stats_start_at_zero() {
    let stats = LineStats::new();
    assert_eq!(stats.len(), 0);
    assert_eq!(stats.get(SourceRange::new(1, 1, 0, 0)), 0);
    assert!(stats.to_vec().is_empty());
}

#[test]
fn bump_counts_each_hit() {
    let a = SourceRange::new(1, 1, 0, 4);
    let b = SourceRange::new(1, 1, 0, 5);
    let mut stats = LineStats::new();
    stats.bump(a);
    assert_eq!(stats.get(a), 1);
    assert_eq!(stats.get(b), 0);
    stats.bump(b);
    stats.bump(a);
    assert_eq!(stats.get(a), 2);
    assert_eq!(stats.get(b), 1);
    assert_eq!(stats.len(), 2);
    let entries = stats.to_vec();
    assert_eq!((entries[0].range, entries[0].count), (a, 2));
    assert_eq!((entries[1].range, entries[1].count), (b, 1));
}

#[test]
fn bump_all_counts_repeats() {
    let a = SourceRange::new(1, 1, 0, 4);
    let b = SourceRange::new(9, 9, 9, 9);
    let mut stats = LineStats::new();
    stats.bump_all(&vec![a, b, a, a]);
    assert_eq!(stats.get(a), 3);
    assert_eq!(stats.get(b), 1);
    stats.bump_all(&Vec::new());
    assert_eq!(stats.get(a), 3);
    assert_eq!(stats.len(), 2);
}

#[test]
fn record_keeps_files_apart() {
    let a = SourceRange::new(1, 1, 0, 4);
    let mut stats = Stats::new();
    assert_eq!(stats.len(), 0);
    assert!(!stats.contains("x.py"));
    stats.record("x.py", &vec![a]);
    stats.record("y.py", &vec![a, a]);
    stats.record("x.py", &vec![a]);
    assert_eq!(stats.count("x.py", a), 2);
    assert_eq!(stats.count("y.py", a), 2);
    assert_eq!(stats.count("z.py", a), 0);
    assert!(stats.contains("x.py"));
    assert!(stats.contains("y.py"));
    assert!(!stats.contains("z.py"));
    assert!(!stats.contains("x.p"));
    assert_eq!(stats.len(), 2);
    assert_eq!(stats.path_at(0), "x.py");
    assert_eq!(stats.path_at(1), "y.py");
    assert_eq!(stats.entries_at(1).len(), 1);
}

#[test]
fn record_without_ranges_changes_nothing() {
    let mut stats = Stats::new();
    stats.record("x.py", &Vec::new());
    assert_eq!(stats.len(), 0);
    assert!(!stats.contains("x.py"));
    stats.record("x.py", &vec![SourceRange::new(1, 1, 1, 1)]);
    stats.record("x.py", &Vec::new());
    assert_eq!(stats.len(), 1);
    assert_eq!(stats.count("x.py", SourceRange::new(1, 1, 1, 1)), 1);
}
