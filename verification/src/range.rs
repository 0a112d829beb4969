use vstd::prelude::*;

verus! {

/// A span of source text inside one file: the lines and columns at which it
/// starts and ends. Two ranges are the same when all four coordinates agree.
#[derive(Clone, Copy, Debug, PartialEq, Eq, Hash, Structural)]
pub struct SourceRange {
    pub start_line: u32,
    pub end_line: u32,
    pub start_col: u32,
    pub end_col: u32,
}

impl SourceRange {
    /// The range with the given coordinates.
    pub fn new(start_line: u32, end_line: u32, start_col: u32, end_col: u32) -> (r: Self)
        ensures
            r == (SourceRange { start_line, end_line, start_col, end_col }),
    {
        SourceRange { start_line, end_line, start_col, end_col }
    }

    /// The four coordinates in the order start line, end line, start column,
    /// end column.
    pub fn as_tuple(&self) -> (t: (u32, u32, u32, u32))
        ensures
            t == (self.start_line, self.end_line, self.start_col, self.end_col),
    {
        (self.start_line, self.end_line, self.start_col, self.end_col)
    }
}

} // verus!
