use vstd::prelude::*;

verus! {

/// Base type for line and column numbers.
pub type Counter = u32;

/// Increment a counter by one, staying at the largest representable value
/// instead of wrapping around. Line and column counters saturate rather than
/// overflow, so advancing a position is total and never panics.
pub open spec fn sat_inc(c: Counter) -> Counter {
    if c == Counter::MAX {
        c
    } else {
        (c + 1) as Counter
    }
}

/// Position in a text by line and column numbers.
#[derive(Clone, Copy, Debug, PartialEq, Eq, Structural)]
pub struct Position {
    /// line number (starts counting with 1)
    pub line: Counter,
    /// character number within the current line (starts counting with 1)
    pub column: Counter,
}

impl Position {
    /// Creates an invalid `Position` (line = 0, column = 0), the sentinel
    /// meaning "not positioned in any text".
    pub fn new() -> (r: Self)
        ensures
            r == (Position { line: 0, column: 0 }),
    {
        Position::with(0, 0)
    }

    /// Creates a new `Position` with the given line and column number.
    pub fn with(line: Counter, column: Counter) -> (r: Self)
        ensures
            r == (Position { line, column }),
    {
        Position { line, column }
    }

    /// Advance position by one (non-new-line) character.
    pub fn advance_char(&mut self)
        ensures
            final(self).line == old(self).line,
            final(self).column == sat_inc(old(self).column),
    {
        if self.column < Counter::MAX {
            self.column = self.column + 1;
        }
    }

    /// Advance position by one line. Sets the column to the position of the
    /// first character within the new line.
    pub fn advance_line(&mut self)
        ensures
            final(self).line == sat_inc(old(self).line),
            final(self).column == 1,
    {
        if self.line < Counter::MAX {
            self.line = self.line + 1;
        }
        self.column = 1;
    }
}

} // verus!
