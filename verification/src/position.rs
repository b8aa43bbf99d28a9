//! Positions, spans, and the one test of whether a position lies in a span.
//!
//! Every descent of the navigator is decided by [`Span::contains`]; nothing
//! else in the crate looks at lines and columns.

use vstd::prelude::*;

verus! {

/// A place in a source file. Without a column it stands for its whole line.
#[derive(Clone, Debug, PartialEq, Eq)]
pub struct Position {
    pub file: String,
    pub line: u32,
    pub column: Option<u32>,
}

/// The extent of a syntax node: from its first character to its last, both
/// included.
#[derive(Clone, Debug, PartialEq, Eq)]
pub struct Span {
    pub file: String,
    pub start_line: u32,
    pub start_column: u32,
    pub end_line: u32,
    pub end_column: u32,
}

/// A line and, where there is one, a column in it.
pub type Place = (int, Option<int>);

/// `first` is the same place as `second` or comes before it. Lines are
/// compared first and columns second; a place without a column matches
/// every column of its line.
pub open spec fn at_or_before(first: Place, second: Place) -> bool {
    first.0 < second.0 || (first.0 == second.0 && match (first.1, second.1) {
        (Some(c1), Some(c2)) => c1 <= c2,
        _ => true,
    })
}

impl Position {
    /// The line and the column of the position.
    pub open spec fn place(&self) -> Place {
        (
            self.line as int,
            match self.column {
                Some(column) => Some(column as int),
                None => None,
            },
        )
    }

    /// The position of the whole first line of `file`.
    pub fn first_line(file: String) -> (pos: Position)
        ensures
            pos.file == file,
            pos.line == 1,
            pos.column is None,
    {
        Position { file, line: 1, column: None }
    }

    /// A copy with the same file, line and column.
    pub fn duplicate(&self) -> (copy: Position)
        ensures
            copy == *self,
    {
        Position { file: self.file.clone(), line: self.line, column: self.column }
    }
}

impl Span {
    /// Where the span starts.
    pub open spec fn start(&self) -> Place {
        (self.start_line as int, Some(self.start_column as int))
    }

    /// Where the span ends: the last place that belongs to it.
    pub open spec fn end(&self) -> Place {
        (self.end_line as int, Some(self.end_column as int))
    }

    /// The start does not come after the end.
    pub open spec fn wf(&self) -> bool {
        at_or_before(self.start(), self.end())
    }

    /// The position lies in this span: in the same file, and between start and
    /// end, both included. A position without a column is held to the lines
    /// only.
    pub open spec fn contains(&self, pos: &Position) -> bool {
        &&& self.file@ == pos.file@
        &&& at_or_before(self.start(), pos.place())
        &&& at_or_before(pos.place(), self.end())
    }

    /// Whether `pos` lies in this span.
    pub fn contains_pos(&self, pos: &Position) -> (inside: bool)
        ensures
            inside == self.contains(pos),
    {
        if self.file != pos.file {
            return false;
        }
        match pos.column {
            Some(column) => {
                let after_start = self.start_line < pos.line || (self.start_line == pos.line
                    && self.start_column <= column);
                let before_end = pos.line < self.end_line || (pos.line == self.end_line && column
                    <= self.end_column);
                after_start && before_end
            },
            None => self.start_line <= pos.line && pos.line <= self.end_line,
        }
    }

    /// A copy with the same file and the same four bounds.
    pub fn duplicate(&self) -> (copy: Span)
        ensures
            copy == *self,
    {
        Span {
            file: self.file.clone(),
            start_line: self.start_line,
            start_column: self.start_column,
            end_line: self.end_line,
            end_column: self.end_column,
        }
    }
}

/// Both ends of a span belong to it: a position of the span's file that sits
/// exactly on the start, or exactly on the end, is contained.
pub proof fn lemma_bounds_are_inside(span: Span, pos: Position)
    requires
        span.wf(),
        pos.file@ == span.file@,
        (pos.line == span.start_line && pos.column == Some(span.start_column)) || (pos.line
            == span.end_line && pos.column == Some(span.end_column)),
    ensures
        span.contains(&pos),
{
}

/// One column before the start, or one column after the end, is outside: the
/// bounds are the last places that belong to the span.
pub proof fn lemma_beyond_bounds_is_outside(span: Span, pos: Position)
    requires
        pos.column is Some,
        (pos.line == span.start_line && pos.column->0 < span.start_column) || (pos.line
            == span.end_line && pos.column->0 > span.end_column),
    ensures
        !span.contains(&pos),
{
}

/// A position without a column is contained exactly when its line is one of
/// the span's lines, whatever the span's columns are.
pub proof fn lemma_whole_line(span: Span, pos: Position)
    requires
        pos.column is None,
        pos.file@ == span.file@,
    ensures
        span.contains(&pos) <==> span.start_line <= pos.line <= span.end_line,
{
}

/// A position of another file is in no span.
pub proof fn lemma_other_file_is_outside(span: Span, pos: Position)
    requires
        pos.file@ != span.file@,
    ensures
        !span.contains(&pos),
{
}

} // verus!
