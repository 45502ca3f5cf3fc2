use vstd::prelude::*;
use vstd::string::StringExecFns;
use crate::common::text::{decimal, number_to_string};

verus! {

/// A source coordinate: a row and a column.
#[derive(Debug, Clone, Copy, PartialEq, Eq, Structural)]
pub struct FilePosition {
    pub row: usize,
    pub col: usize,
}

/// The range of source text that a token or a node occupies.
#[derive(Debug, Clone, Copy, PartialEq, Eq, Structural)]
pub struct FileSpan {
    pub begin: FilePosition,
    pub end: FilePosition,
}

impl FilePosition {
    /// The written form of the position: its row, then its column.
    pub open spec fn text(self) -> Seq<char> {
        "row "@ + decimal(self.row as nat) + ", col "@ + decimal(self.col as nat)
    }

    /// The written form of the position.
    pub fn to_string(&self) -> (s: String)
        ensures
            s@ == self.text(),
    {
        let mut s = String::from_str("row ");
        s.append(number_to_string(self.row).as_str());
        s.append(", col ");
        s.append(number_to_string(self.col).as_str());
        s
    }

    pub fn new(row: usize, col: usize) -> (p: Self)
        ensures
            p.row == row,
            p.col == col,
    {
        Self { row, col }
    }
}

impl FileSpan {
    /// The written form of the span: where it begins, then where it ends.
    pub open spec fn text(self) -> Seq<char> {
        "from "@ + self.begin.text() + ", to "@ + self.end.text()
    }

    /// The written form of the span.
    pub fn to_string(&self) -> (s: String)
        ensures
            s@ == self.text(),
    {
        let mut s = String::from_str("from ");
        s.append(self.begin.to_string().as_str());
        s.append(", to ");
        s.append(self.end.to_string().as_str());
        s
    }

    /// The span from `begin` to `end`, both on the row `row`.
    pub open spec fn on_row(row: usize, begin: usize, end: usize) -> FileSpan {
        FileSpan {
            begin: FilePosition { row, col: begin },
            end: FilePosition { row, col: end },
        }
    }

    pub fn new(begin: FilePosition, end: FilePosition) -> (s: Self)
        ensures
            s.begin == begin,
            s.end == end,
    {
        Self { begin, end }
    }

    /// The span that starts where `first` starts and ends where `last` ends.
    pub open spec fn spec_combine(first: FileSpan, last: FileSpan) -> FileSpan {
        FileSpan { begin: first.begin, end: last.end }
    }

    pub fn combine(first: &FileSpan, last: &FileSpan) -> (s: Self)
        ensures
            s == Self::spec_combine(*first, *last),
            s.begin == first.begin,
            s.end == last.end,
    {
        Self { begin: first.begin, end: last.end }
    }
}

} // verus!
