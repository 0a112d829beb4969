/// The collector: per file and source range, how often a line was about to run.
pub mod collector;
/// The predicate that decides which files are counted.
pub mod filter;
/// The calls into the Python interpreter that the library makes.
pub mod host;
/// Source ranges.
pub mod range;
/// Who is registered with the interpreter, and who owns the observer.
pub mod registry;
/// The report of what was counted, as lines of text.
pub mod reporter;
/// What holds of a whole run of line notifications.
pub mod session;
/// The table of hit counts.
pub mod stats;
/// Events, their classification, and the dispatch to an observer.
pub mod tracer;
