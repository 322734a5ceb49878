//! Positions and sizes on the character grid, and the scrolling policy that
//! keeps a tracked position inside a window of fixed size.

use std::ops::{Add, Sub};
use vstd::prelude::*;
use vstd::std_specs::convert::FromSpecImpl;
use vstd::std_specs::ops::{AddSpecImpl, SubSpecImpl};

verus! {

/// The line terminator.
pub const EOL: char = '\n';

/// A zero-based location in a text: a line, and a column on that line.
///
/// Positions are ordered by line first and by column second; the derived
/// order is that one, and contracts state it as [`Position::at_most`].
#[derive(Debug, Clone, Copy, PartialEq, Eq, PartialOrd, Ord, Hash, Structural)]
pub struct Position {
    pub line: usize,
    pub column: usize,
}

/// The extent of a window, or the distance between two positions.
#[derive(Debug, Clone, Copy, PartialEq, Eq, Hash, Structural)]
pub struct Size {
    pub lines: usize,
    pub columns: usize,
}

/// Where a window of `extent` cells that starts at `offset` has to start so
/// that it shows `target`: where it is, if `target` is already inside
/// `[offset, offset + extent)`; otherwise half an extent before `target`, or
/// at zero when `target` is closer to zero than that.
pub open spec fn slide(offset: usize, target: usize, extent: usize) -> usize {
    if offset <= target < offset + extent {
        offset
    } else if target >= extent / 2 {
        (target - extent / 2) as usize
    } else {
        0
    }
}

/// `n` plus one, or the largest number when there is no greater one.
pub open spec fn raised(n: usize) -> usize {
    if n < usize::MAX {
        (n + 1) as usize
    } else {
        n
    }
}

/// `n` minus one, or zero when there is no smaller one.
pub open spec fn lowered(n: usize) -> usize {
    if n > 0 {
        (n - 1) as usize
    } else {
        n
    }
}

impl Position {
    /// The origin: line zero, column zero.
    pub open spec fn origin() -> Position {
        Position { line: 0, column: 0 }
    }

    /// The lexicographic order on (line, column): `self` ≤ `other`.
    pub open spec fn at_most(self, other: Position) -> bool {
        self.line < other.line || (self.line == other.line && self.column <= other.column)
    }

    /// The strict order: `self` < `other`.
    pub open spec fn before(self, other: Position) -> bool {
        self.line < other.line || (self.line == other.line && self.column < other.column)
    }

    /// The position after reading `character` at `self`.
    pub open spec fn stepped(self, character: char) -> Position {
        if character == EOL {
            Position { line: (self.line + 1) as usize, column: 0 }
        } else {
            Position { line: self.line, column: (self.column + 1) as usize }
        }
    }

    /// Whether reading `character` at `self` stays within the machine's
    /// numbers.
    pub open spec fn can_step(self, character: char) -> bool {
        if character == EOL {
            self.line < usize::MAX
        } else {
            self.column < usize::MAX
        }
    }

    /// The offset of a window of `size` after it has been moved, on each
    /// axis by itself, to show `target`.
    pub open spec fn shifted(self, target: Position, size: Size) -> Position {
        Position {
            line: slide(self.line, target.line, size.lines),
            column: slide(self.column, target.column, size.columns),
        }
    }

    /// Whether `self` lies in the window of `size` that starts at `offset`.
    pub open spec fn within(self, offset: Position, size: Size) -> bool {
        &&& offset.line <= self.line < offset.line + size.lines
        &&& offset.column <= self.column < offset.column + size.columns
    }

    /// The first position of any text.
    pub fn start() -> (position: Position)
        ensures
            position == Position::origin(),
    {
        Position { line: 0, column: 0 }
    }

    /// The position past every position of any text.
    pub fn end() -> (position: Position)
        ensures
            position == (Position { line: usize::MAX, column: usize::MAX }),
            forall|other: Position| other.at_most(position),
    {
        Position { line: usize::MAX, column: usize::MAX }
    }

    /// Advances over one character: to the start of the next line over the
    /// line terminator, one column to the right over any other character.
    pub fn next(self, character: char) -> (position: Position)
        requires
            self.can_step(character),
        ensures
            position == self.stepped(character),
            character == EOL ==> position.line == self.line + 1 && position.column == 0,
            character != EOL ==> position.line == self.line && position.column == self.column + 1,
            self.before(position),
    {
        if character == EOL {
            Position { line: self.line + 1, column: 0 }
        } else {
            Position { line: self.line, column: self.column + 1 }
        }
    }

    /// Whether `self` ≤ `other` in the order of positions.
    pub fn precedes(self, other: Position) -> (holds: bool)
        ensures
            holds == self.at_most(other),
    {
        self.line < other.line || (self.line == other.line && self.column <= other.column)
    }

    /// The scrolling policy. `self` is the offset of a window of `size`;
    /// the result is the offset that shows `position`, and whether that is
    /// another offset than before. An axis on which `position` is inside the
    /// window keeps its offset; on the other axis the window is centred on
    /// `position`, as far as the text's edge allows.
    pub fn shift(self, position: Position, size: Size) -> (moved: (Position, bool))
        ensures
            moved.0 == self.shifted(position, size),
            moved.1 == (moved.0 != self),
            moved.0.line <= position.line,
            moved.0.column <= position.column,
            size.lines > 0 && size.columns > 0 ==> position.within(moved.0, size),
    {
        let mut offset = self;
        if position.line < self.line || position.line - self.line >= size.lines {
            if position.line >= size.lines / 2 {
                offset.line = position.line - size.lines / 2;
            } else {
                offset.line = 0;
            }
        }
        if position.column < self.column || position.column - self.column >= size.columns {
            if position.column >= size.columns / 2 {
                offset.column = position.column - size.columns / 2;
            } else {
                offset.column = 0;
            }
        }
        (offset, offset.line != self.line || offset.column != self.column)
    }

    /// The target of a move one line up: the same column on the line
    /// before, or `self` on the first line.
    pub fn up(self) -> (target: Position)
        ensures
            target == (Position { line: lowered(self.line), column: self.column }),
    {
        Position { line: if self.line > 0 { self.line - 1 } else { 0 }, column: self.column }
    }

    /// The target of a move one line down: the same column on the line
    /// after.
    pub fn down(self) -> (target: Position)
        ensures
            target == (Position { line: raised(self.line), column: self.column }),
    {
        Position {
            line: if self.line < usize::MAX { self.line + 1 } else { self.line },
            column: self.column,
        }
    }

    /// The target of a move one character back: the column before, or from
    /// a line's first column whatever ends the line before, or `self` at the
    /// origin.
    pub fn left(self) -> (target: Position)
        ensures
            target == if self.column > 0 {
                Position { line: self.line, column: (self.column - 1) as usize }
            } else if self.line > 0 {
                Position { line: (self.line - 1) as usize, column: usize::MAX }
            } else {
                self
            },
    {
        if self.column > 0 {
            Position { line: self.line, column: self.column - 1 }
        } else if self.line > 0 {
            Position { line: self.line - 1, column: usize::MAX }
        } else {
            self
        }
    }

    /// The target of a move one character on within the line.
    pub fn right(self) -> (target: Position)
        ensures
            target == (Position { line: self.line, column: raised(self.column) }),
    {
        Position {
            line: self.line,
            column: if self.column < usize::MAX { self.column + 1 } else { self.column },
        }
    }

    /// The target of a move to the first column of the line.
    pub fn line_start(self) -> (target: Position)
        ensures
            target == (Position { line: self.line, column: 0 }),
    {
        Position { line: self.line, column: 0 }
    }

    /// The target of a move to the end of the line: past any column of it.
    pub fn line_end(self) -> (target: Position)
        ensures
            target == (Position { line: self.line, column: usize::MAX }),
    {
        Position { line: self.line, column: usize::MAX }
    }

    /// The start of the line below: where a move to the right lands from
    /// the end of a line.
    pub fn below(self) -> (target: Position)
        ensures
            target == (Position { line: raised(self.line), column: 0 }),
    {
        Position { line: if self.line < usize::MAX { self.line + 1 } else { self.line }, column: 0 }
    }

    /// The position of a terminal cell given as (column, row), both counted
    /// from one.
    pub fn from_cell(cell: (u16, u16)) -> (position: Position)
        requires
            cell.0 >= 1,
            cell.1 >= 1,
        ensures
            position.line == cell.1 - 1,
            position.column == cell.0 - 1,
    {
        Position { line: (cell.1 - 1) as usize, column: (cell.0 - 1) as usize }
    }

    /// The terminal cell of this position as (column, row), both counted
    /// from one; `None` where one of them is more than a terminal can
    /// address.
    pub fn to_cell(self) -> (cell: Option<(u16, u16)>)
        ensures
            cell is Some <==> self.column < u16::MAX && self.line < u16::MAX,
            cell matches Some(pair) ==> pair.0 == self.column + 1 && pair.1 == self.line + 1,
    {
        if self.column < 0xffff && self.line < 0xffff {
            Some(((self.column + 1) as u16, (self.line + 1) as u16))
        } else {
            None
        }
    }
}

impl Size {
    /// The extent as (columns, rows) of a terminal; `None` where one of them
    /// is more than a terminal can have.
    pub fn to_cells(self) -> (cells: Option<(u16, u16)>)
        ensures
            cells is Some <==> self.columns <= u16::MAX && self.lines <= u16::MAX,
            cells matches Some(pair) ==> pair.0 == self.columns && pair.1 == self.lines,
    {
        if self.columns <= 0xffff && self.lines <= 0xffff {
            Some((self.columns as u16, self.lines as u16))
        } else {
            None
        }
    }
}

impl From<(u16, u16)> for Size {
    /// The size of a terminal that reports (columns, rows).
    fn from(cells: (u16, u16)) -> (size: Size) {
        Size { lines: cells.1 as usize, columns: cells.0 as usize }
    }
}

impl FromSpecImpl<(u16, u16)> for Size {
    open spec fn obeys_from_spec() -> bool {
        true
    }

    open spec fn from_spec(cells: (u16, u16)) -> Size {
        Size { lines: cells.1 as usize, columns: cells.0 as usize }
    }
}

impl Add<Size> for Position {
    type Output = Position;

    /// Moves a position by a size.
    fn add(self: Position, size: Size) -> (position: Position) {
        Position { line: self.line + size.lines, column: self.column + size.columns }
    }
}

impl AddSpecImpl<Size> for Position {
    open spec fn obeys_add_spec() -> bool {
        true
    }

    open spec fn add_req(self, size: Size) -> bool {
        self.line + size.lines <= usize::MAX && self.column + size.columns <= usize::MAX
    }

    open spec fn add_spec(self, size: Size) -> Position {
        Position {
            line: (self.line + size.lines) as usize,
            column: (self.column + size.columns) as usize,
        }
    }
}

impl Sub<Position> for Position {
    type Output = Size;

    /// The distance from `position` to `self`, which is on neither axis
    /// before it.
    fn sub(self: Position, position: Position) -> (size: Size) {
        Size { lines: self.line - position.line, columns: self.column - position.column }
    }
}

impl SubSpecImpl<Position> for Position {
    open spec fn obeys_sub_spec() -> bool {
        true
    }

    open spec fn sub_req(self, position: Position) -> bool {
        position.line <= self.line && position.column <= self.column
    }

    open spec fn sub_spec(self, position: Position) -> Size {
        Size {
            lines: (self.line - position.line) as usize,
            columns: (self.column - position.column) as usize,
        }
    }
}

/// Scrolling settles at once: after a window has been shifted to show a
/// target, shifting it again for the same target and size changes nothing.
pub proof fn shift_is_idempotent(offset: Position, target: Position, size: Size)
    ensures
        offset.shifted(target, size).shifted(target, size) == offset.shifted(target, size),
{
}

/// The order of positions is total, and a partial order.
pub proof fn order_is_total(a: Position, b: Position, c: Position)
    ensures
        a.at_most(b) || b.at_most(a),
        a.at_most(b) && b.at_most(a) ==> a == b,
        a.at_most(b) && b.at_most(c) ==> a.at_most(c),
        a.before(b) <==> a.at_most(b) && a != b,
{
}

} // verus!
