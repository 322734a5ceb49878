//! What is drawn: the strokes that make up a frame, and the texts on it.

use vstd::prelude::*;
use vstd::string::StringExecFns;

verus! {

/// A background colour.
#[derive(Debug, Clone, Copy, PartialEq, Eq, Hash, Structural)]
pub enum Color {
    Green,
    DarkGrey,
    Blue,
}

/// One instruction to the terminal.
#[derive(Debug, Clone, PartialEq, Eq)]
pub enum Draw {
    /// Go back to the terminal's own colours.
    Reset,
    /// Put the cursor at a column and a row, both counted from zero.
    MoveTo(u16, u16),
    /// Put the cursor at the start of the next row.
    NextLine,
    /// Clear the screen.
    ClearAll,
    /// Clear the row of the cursor.
    ClearLine,
    /// Print on this background from now on.
    Background(Color),
    /// Print this text at the cursor.
    Print(String),
}

/// A [`Draw`] as contracts see it.
pub enum Stroke {
    Reset,
    MoveTo(u16, u16),
    NextLine,
    ClearAll,
    ClearLine,
    Background(Color),
    Print(Seq<char>),
}

impl View for Draw {
    type V = Stroke;

    open spec fn view(&self) -> Stroke {
        match self {
            Draw::Reset => Stroke::Reset,
            Draw::MoveTo(column, row) => Stroke::MoveTo(*column, *row),
            Draw::NextLine => Stroke::NextLine,
            Draw::ClearAll => Stroke::ClearAll,
            Draw::ClearLine => Stroke::ClearLine,
            Draw::Background(color) => Stroke::Background(*color),
            Draw::Print(text) => Stroke::Print(text@),
        }
    }
}

/// What each of the instructions of `frame` says.
pub open spec fn strokes(frame: Seq<Draw>) -> Seq<Stroke> {
    frame.map_values(|draw: Draw| draw@)
}

/// The strokes that print `rows` one below the other: each row, and after
/// each the step to the next row.
pub open spec fn printed(rows: Seq<Seq<char>>) -> Seq<Stroke> {
    Seq::new(
        2 * rows.len(),
        |index: int|
            if index % 2 == 0 {
                Stroke::Print(rows[index / 2])
            } else {
                Stroke::NextLine
            },
    )
}

/// The strokes that draw a bar on `row`: a row in the colour `color`, with
/// `text` on it if there is one.
pub open spec fn bar(row: u16, color: Color, text: Option<Seq<char>>) -> Seq<Stroke> {
    let ground = seq![Stroke::MoveTo(0, row), Stroke::Background(color), Stroke::ClearLine];
    match text {
        Some(text) => ground.push(Stroke::Print(text)),
        None => ground,
    }
}

/// The character of a digit.
pub open spec fn digit(value: nat) -> char {
    if value == 0 {
        '0'
    } else if value == 1 {
        '1'
    } else if value == 2 {
        '2'
    } else if value == 3 {
        '3'
    } else if value == 4 {
        '4'
    } else if value == 5 {
        '5'
    } else if value == 6 {
        '6'
    } else if value == 7 {
        '7'
    } else if value == 8 {
        '8'
    } else {
        '9'
    }
}

/// A number in decimal digits.
pub open spec fn decimal(number: nat) -> Seq<char>
    decreases number,
{
    if number < 10 {
        seq![digit(number)]
    } else {
        decimal(number / 10).push(digit(number % 10))
    }
}

/// The text of a place in a file: the path, a blank, and line and column
/// with a colon between them, both counted from one.
pub open spec fn place(path: Seq<char>, line: nat, column: nat) -> Seq<char> {
    path + seq![' '] + decimal(line + 1) + seq![':'] + decimal(column + 1)
}

/// The text of the file picker: the directory, a blank, and the query.
pub open spec fn prompt(path: Seq<char>, query: Seq<char>) -> Seq<char> {
    path + seq![' '] + query
}

/// Adds to `frame` the strokes that print `rows`.
pub fn print(frame: &mut Vec<Draw>, rows: Vec<String>)
    ensures
        strokes(final(frame)@) == strokes(old(frame)@) + printed(crate::listing::texts(rows@)),
{
    let ghost before = strokes(frame@);
    let ghost texts = crate::listing::texts(rows@);
    let mut rows = rows;
    let mut index: usize = 0;
    assert(strokes(frame@) =~= before + printed(texts.take(0)));
    while index < rows.len()
        invariant
            index <= rows.len(),
            texts == crate::listing::texts(rows@),
            strokes(frame@) == before + printed(texts.take(index as int)),
        decreases rows.len() - index,
    {
        let row = rows[index].clone();
        let ghost drawn = strokes(frame@);
        frame.push(Draw::Print(row));
        frame.push(Draw::NextLine);
        proof {
            assert(strokes(frame@) =~= drawn.push(Stroke::Print(texts[index as int])).push(
                Stroke::NextLine,
            ));
            assert(printed(texts.take(index + 1)) =~= printed(texts.take(index as int)).push(
                Stroke::Print(texts[index as int]),
            ).push(Stroke::NextLine));
        }
        index = index + 1;
    }
    assert(texts.take(rows.len() as int) =~= texts);
}

/// Adds to `frame` the strokes of a bar.
pub fn draw_bar(frame: &mut Vec<Draw>, row: u16, color: Color, text: Option<String>)
    ensures
        strokes(final(frame)@) == strokes(old(frame)@) + bar(
            row,
            color,
            match text {
                Some(text) => Some(text@),
                None => None,
            },
        ),
{
    let ghost before = strokes(frame@);
    frame.push(Draw::MoveTo(0, row));
    frame.push(Draw::Background(color));
    frame.push(Draw::ClearLine);
    match text {
        Some(text) => {
            let ghost shown = text@;
            frame.push(Draw::Print(text));
            assert(strokes(frame@) =~= before + bar(row, color, Some(shown)));
        },
        None => {
            assert(strokes(frame@) =~= before + bar(row, color, None));
        },
    }
}

/// The character of the digit `value`.
fn digit_of(value: u128) -> (character: char)
    requires
        value < 10,
    ensures
        character == digit(value as nat),
{
    if value == 0 {
        '0'
    } else if value == 1 {
        '1'
    } else if value == 2 {
        '2'
    } else if value == 3 {
        '3'
    } else if value == 4 {
        '4'
    } else if value == 5 {
        '5'
    } else if value == 6 {
        '6'
    } else if value == 7 {
        '7'
    } else if value == 8 {
        '8'
    } else {
        '9'
    }
}

/// Appends `number` to `text` in decimal digits.
pub fn write_decimal(text: &mut String, number: u128)
    ensures
        final(text)@ == old(text)@ + decimal(number as nat),
    decreases number,
{
    if number < 10 {
        text.push(digit_of(number));
        assert(text@ =~= old(text)@ + decimal(number as nat));
    } else {
        write_decimal(text, number / 10);
        text.push(digit_of(number % 10));
        assert(text@ =~= old(text)@ + decimal(number as nat));
    }
}

/// The text of a place in a file.
pub fn place_text(path: &str, line: usize, column: usize) -> (text: String)
    ensures
        text@ == place(path@, line as nat, column as nat),
{
    let mut text = path.to_owned();
    text.push(' ');
    write_decimal(&mut text, line as u128 + 1);
    text.push(':');
    write_decimal(&mut text, column as u128 + 1);
    assert(text@ =~= place(path@, line as nat, column as nat));
    text
}

/// The text of the file picker.
pub fn prompt_text(path: &str, query: &str) -> (text: String)
    ensures
        text@ == prompt(path@, query@),
{
    let mut text = path.to_owned();
    text.push(' ');
    text.append(query);
    assert(text@ =~= prompt(path@, query@));
    text
}

} // verus!
