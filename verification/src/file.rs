//! A file session: the text of one open file, the cursor in it and the
//! window on it.

use crate::coords::{lowered, raised, Position, Size, EOL};
use crate::mapper::{
    lands_where_walk_stops, reach, reach_is_bounded, reach_is_increasing, reachable, resolve,
    resolved,
};
use crate::utils::{clipped, lines, lines_of, window};
use vstd::prelude::*;

verus! {

/// When a file was last modified, as the file system reports it: the whole
/// seconds and the nanoseconds between that moment and the epoch, and
/// whether the moment lies before the epoch.
#[derive(Debug, Clone, Copy, PartialEq, Eq, Hash, Structural)]
pub struct Timestamp {
    pub early: bool,
    pub seconds: u64,
    pub nanoseconds: u32,
}

/// A move of the cursor.
#[derive(Debug, Clone, Copy, PartialEq, Eq, Hash, Structural)]
pub enum Motion {
    Up,
    Down,
    Left,
    Right,
    LineStart,
    LineEnd,
    Start,
    End,
}

/// An open file.
#[derive(Debug, Clone, PartialEq, Eq)]
pub struct File {
    pub path: String,
    pub timestamp: Timestamp,
    pub content: String,
    pub position: Position,
    pub offset: Position,
}

/// Where `motion` leads from `position` in `content`.
///
/// Every move but the one to the right is a request for one target. To the
/// right the cursor goes one column on, and where the line has no such
/// column, to the start of the line below.
pub open spec fn moved(content: Seq<char>, position: Position, motion: Motion) -> Position {
    match motion {
        Motion::Up => resolved(
            content,
            Position { line: lowered(position.line), column: position.column },
        ),
        Motion::Down => resolved(
            content,
            Position { line: raised(position.line), column: position.column },
        ),
        Motion::Left => resolved(
            content,
            if position.column > 0 {
                Position { line: position.line, column: (position.column - 1) as usize }
            } else if position.line > 0 {
                Position { line: (position.line - 1) as usize, column: usize::MAX }
            } else {
                position
            },
        ),
        Motion::Right => {
            let along = resolved(
                content,
                Position { line: position.line, column: raised(position.column) },
            );
            if along != position {
                along
            } else {
                resolved(content, Position { line: raised(position.line), column: 0 })
            }
        },
        Motion::LineStart => resolved(content, Position { line: position.line, column: 0 }),
        Motion::LineEnd => resolved(content, Position { line: position.line, column: usize::MAX }),
        Motion::Start => resolved(content, Position::origin()),
        Motion::End => resolved(content, Position { line: usize::MAX, column: usize::MAX }),
    }
}

/// The sum of two numbers, or the largest number where the sum is greater.
pub open spec fn capped(a: usize, b: usize) -> usize {
    if a + b > usize::MAX {
        usize::MAX
    } else {
        (a + b) as usize
    }
}

/// What a window of `size` at `offset` shows of `content`: of each line
/// from line `offset.line` on, and of `size.lines` lines at most, the part
/// whose bytes lie at `offset.column` and in the `size.columns` after it.
pub open spec fn visible(content: Seq<char>, offset: Position, size: Size) -> Seq<Seq<char>> {
    window(lines_of(content), offset.line as int, size.lines as int).map_values(
        |line: Seq<char>|
            clipped(line, offset.column as int, capped(offset.column, size.columns) as int),
    )
}

impl File {
    /// Whether the cursor stands on a character boundary of the text.
    pub open spec fn well_formed(self) -> bool {
        reachable(self.content@, self.position)
    }

    /// The session of the file at `path`, which holds `content` and was last
    /// modified at `timestamp`: cursor and window at the start.
    pub fn open(path: &str, content: String, timestamp: Timestamp) -> (file: File)
        ensures
            file.path@ == path@,
            file.content == content,
            file.timestamp == timestamp,
            file.position == Position::origin(),
            file.offset == Position::origin(),
            file.well_formed(),
    {
        assert(reach(content@, 0) == Position::origin());
        File {
            path: path.to_owned(),
            timestamp,
            content,
            position: Position::start(),
            offset: Position::start(),
        }
    }

    /// Takes in what was read from the file: `content`, last modified at
    /// `timestamp`. The cursor stays as near to where it was as the new
    /// text allows.
    pub fn read(&mut self, content: String, timestamp: Timestamp)
        ensures
            final(self).path == old(self).path,
            final(self).content == content,
            final(self).timestamp == timestamp,
            final(self).position == resolved(content@, old(self).position),
            final(self).offset == old(self).offset,
            final(self).well_formed(),
    {
        self.content = content;
        self.timestamp = timestamp;
        let position = self.position;
        self.goto(position);
    }

    /// Whether the file has to be read again: `timestamp`, at which the
    /// file on disk was last modified, is not the one of this session.
    pub fn refresh(&self, timestamp: Timestamp) -> (stale: bool)
        ensures
            stale == (timestamp != self.timestamp),
    {
        timestamp.early != self.timestamp.early || timestamp.seconds != self.timestamp.seconds
            || timestamp.nanoseconds != self.timestamp.nanoseconds
    }

    /// Records that the text was written to the file, which since then was
    /// last modified at `timestamp`.
    pub fn written(&mut self, timestamp: Timestamp)
        ensures
            final(self).timestamp == timestamp,
            final(self).path == old(self).path,
            final(self).content == old(self).content,
            final(self).position == old(self).position,
            final(self).offset == old(self).offset,
    {
        self.timestamp = timestamp;
    }

    /// Scrolls the window of `size` to the cursor, and returns the cursor:
    /// first where it is in the text, then where it is in the window.
    pub fn display(&mut self, size: Size) -> (cursor: (Position, Position))
        ensures
            final(self).offset == old(self).offset.shifted(old(self).position, size),
            final(self).path == old(self).path,
            final(self).timestamp == old(self).timestamp,
            final(self).content == old(self).content,
            final(self).position == old(self).position,
            cursor.0 == old(self).position,
            cursor.1.line == old(self).position.line - final(self).offset.line,
            cursor.1.column == old(self).position.column - final(self).offset.column,
            size.lines > 0 ==> cursor.1.line < size.lines,
            size.columns > 0 ==> cursor.1.column < size.columns,
    {
        let (offset, _) = self.offset.shift(self.position, size);
        self.offset = offset;
        let distance = self.position - self.offset;
        let relative = Position::start() + distance;
        (self.position, relative)
    }

    /// What the window of `size` shows of the text, row by row.
    pub fn rows(&self, size: Size) -> (rows: Vec<String>)
        ensures
            crate::listing::texts(rows@) == visible(self.content@, self.offset, size),
    {
        let whole = lines(self.content.as_str(), self.offset.line, size.lines);
        let end = self.offset.column.saturating_add(size.columns);
        let mut rows: Vec<String> = Vec::new();
        let mut index: usize = 0;
        while index < whole.len()
            invariant
                index <= whole.len(),
                end == capped(self.offset.column, size.columns),
                rows@.len() == index,
                forall|at: int|
                    0 <= at < index ==> (#[trigger] rows@[at])@ == clipped(
                        whole@[at]@,
                        self.offset.column as int,
                        end as int,
                    ),
            decreases whole.len() - index,
        {
            let part = crate::utils::sub(whole[index].as_str(), self.offset.column..end);
            rows.push(part.to_owned());
            index = index + 1;
        }
        assert(crate::listing::texts(rows@) =~= visible(self.content@, self.offset, size));
        rows
    }

    /// Moves the cursor to where a request for `target` lands.
    pub fn goto(&mut self, target: Position)
        ensures
            final(self).position == resolved(old(self).content@, target),
            final(self).path == old(self).path,
            final(self).timestamp == old(self).timestamp,
            final(self).content == old(self).content,
            final(self).offset == old(self).offset,
            final(self).well_formed(),
    {
        self.position = resolve(self.content.as_str(), target);
    }

    /// Moves the cursor as `motion` says.
    pub fn travel(&mut self, motion: Motion)
        ensures
            final(self).position == moved(old(self).content@, old(self).position, motion),
            final(self).path == old(self).path,
            final(self).timestamp == old(self).timestamp,
            final(self).content == old(self).content,
            final(self).offset == old(self).offset,
            final(self).well_formed(),
    {
        let position = self.position;
        match motion {
            Motion::Up => self.goto(position.up()),
            Motion::Down => self.goto(position.down()),
            Motion::Left => self.goto(position.left()),
            Motion::Right => {
                self.goto(position.right());
                if self.position == position {
                    self.goto(position.below());
                }
            },
            Motion::LineStart => self.goto(position.line_start()),
            Motion::LineEnd => self.goto(position.line_end()),
            Motion::Start => self.goto(Position::start()),
            Motion::End => self.goto(Position::end()),
        }
    }
}

/// The cursor moves by characters: from the position after `count`
/// characters a move to the left leads to the one after `count - 1`, and a
/// move to the right to the one after `count + 1`. At the start of the text
/// a move to the left, and at its end a move to the right, leads nowhere.
pub proof fn sideways_is_by_character(content: Seq<char>, count: nat)
    requires
        count <= content.len() <= usize::MAX,
    ensures
        moved(content, reach(content, count), Motion::Left) == reach(
            content,
            if count > 0 {
                (count - 1) as nat
            } else {
                count
            },
        ),
        moved(content, reach(content, count), Motion::Right) == reach(
            content,
            if count < content.len() {
                count + 1
            } else {
                count
            },
        ),
{
    let position = reach(content, count);
    reach_is_bounded(content, count);
    if count > 0 {
        reach_is_bounded(content, (count - 1) as nat);
        reach_is_increasing(content, (count - 1) as nat, count);
        let target = if position.column > 0 {
            Position { line: position.line, column: (position.column - 1) as usize }
        } else {
            Position { line: (position.line - 1) as usize, column: usize::MAX }
        };
        lands_where_walk_stops(content, target, (count - 1) as nat);
    } else {
        lands_where_walk_stops(content, position, 0);
    }
    let along = Position { line: position.line, column: raised(position.column) };
    let below = Position { line: raised(position.line), column: 0 };
    if count < content.len() {
        reach_is_bounded(content, count + 1);
        if content[count as int] == EOL {
            lands_where_walk_stops(content, along, count);
            if count + 1 < content.len() {
                reach_is_increasing(content, count + 1, count + 2);
            }
            lands_where_walk_stops(content, below, count + 1);
        } else {
            if count + 1 < content.len() {
                reach_is_increasing(content, count + 1, count + 2);
            }
            lands_where_walk_stops(content, along, count + 1);
        }
    } else {
        lands_where_walk_stops(content, along, count);
        lands_where_walk_stops(content, below, count);
    }
}

} // verus!
