//! The editor: the sessions that are open, the file picker, and the state
//! machine that keys and signals drive.

use crate::coords::{Position, Size};
use crate::file::{moved, visible, File, Motion, Timestamp};
use crate::listing::{
    ascending, empty_query_selects_all, filtered, listing, lists, matching, texts, Entry,
};
use crate::mapper::resolved;
use crate::screen::{bar, draw_bar, place, place_text, print, printed, prompt, prompt_text};
use crate::screen::{strokes, Color, Draw, Stroke};
use crate::utils::{slice, window};
use vstd::prelude::*;

verus! {

/// The command key that makes the session before the current one current.
pub const PREVIOUS: char = 'c';

/// The command key that makes the session after the current one current.
pub const NEXT: char = 'v';

/// The command key that stops the process for a while.
pub const PAUSE: char = 'b';

/// The command key that ends the run.
pub const STOP: char = 'B';

/// The command key that closes the current session.
pub const CLOSE: char = 'n';

/// The command key that reads the file of the current session again.
pub const RELOAD: char = 'N';

/// The command key that writes every session.
pub const SAVE_ALL: char = 'm';

/// The command key that writes the current session.
pub const SAVE: char = 'M';

/// The command key that moves the cursor up, as the arrow does.
pub const UP: char = 'a';

/// The command key that moves the cursor to the start of the text.
pub const START: char = 'A';

/// The command key that moves the cursor down, as the arrow does.
pub const DOWN: char = 's';

/// The command key that moves the cursor to the end of the text.
pub const END: char = 'S';

/// The command key that moves the cursor left, as the arrow does.
pub const LEFT: char = 'd';

/// The command key that moves the cursor to the start of the line.
pub const LINE_START: char = 'D';

/// The command key that moves the cursor right, as the arrow does.
pub const RIGHT: char = 'f';

/// The command key that moves the cursor to the end of the line.
pub const LINE_END: char = 'F';

/// How the editor reads its keys.
#[derive(Debug, Clone, Copy, PartialEq, Eq, Hash, Structural)]
pub enum Mode {
    /// Keys move the cursor and manage the sessions.
    Command,
    /// Keys go to the file picker.
    Switch,
}

/// A key press.
#[derive(Debug, Clone, Copy, PartialEq, Eq, Hash, Structural)]
pub enum Key {
    Tab,
    BackTab,
    Up,
    Down,
    Left,
    Right,
    Backspace,
    Enter,
    Char(char),
    Other,
}

/// What a confirmation does in the file picker where the view has no
/// entry to select.
#[derive(Debug, Clone, Copy, PartialEq, Eq, Hash, Structural)]
pub enum Unmatched {
    /// The query is opened as a path.
    Open,
    /// Nothing happens.
    Ignore,
    /// The editor fails.
    Fail,
}

/// A signal to the process.
#[derive(Debug, Clone, Copy, PartialEq, Eq, Hash, Structural)]
pub enum Signal {
    /// The user interrupts the process.
    Interrupt,
    /// The process is asked to end.
    Terminate,
    /// The user quits the process.
    Quit,
    /// The process is asked to stop for a while.
    Suspend,
    /// The process goes on after a stop.
    Resume,
}

/// What the editor is told: a key or a signal.
#[derive(Debug, Clone, Copy, PartialEq, Eq, Hash, Structural)]
pub enum Event {
    Key(Key),
    Signal(Signal),
}

/// What the editor asks of its surroundings after an event.
#[derive(Debug, Clone, PartialEq, Eq)]
pub enum Action {
    Nothing,
    /// Walk the working directory, and hand what is found to `list`.
    List,
    /// Read the file at this path, and hand it to `open`.
    Open(String),
    /// Read the file of the current session again, and hand it to `read`.
    Read,
    /// Write the current session to its file, and tell `written`.
    Save,
    /// Write every session to its file, and tell `written` of each.
    SaveAll,
    /// Write the current session to its file, then `close` it.
    Close,
    /// Give the terminal back and stop the process until it is resumed.
    Pause,
    /// Take the terminal again.
    Unpause,
    /// Give up: a confirmation found nothing to open.
    Fail,
}

/// An [`Action`] as contracts see it.
pub enum Effect {
    Nothing,
    List,
    Open(Seq<char>),
    Read,
    Save,
    SaveAll,
    Close,
    Pause,
    Unpause,
    Fail,
}

impl View for Action {
    type V = Effect;

    open spec fn view(&self) -> Effect {
        match self {
            Action::Nothing => Effect::Nothing,
            Action::List => Effect::List,
            Action::Open(path) => Effect::Open(path@),
            Action::Read => Effect::Read,
            Action::Save => Effect::Save,
            Action::SaveAll => Effect::SaveAll,
            Action::Close => Effect::Close,
            Action::Pause => Effect::Pause,
            Action::Unpause => Effect::Unpause,
            Action::Fail => Effect::Fail,
        }
    }
}

/// The move that a key asks for where keys move the cursor.
pub open spec fn motion_of(key: Key) -> Option<Motion> {
    match key {
        Key::Up => Some(Motion::Up),
        Key::Down => Some(Motion::Down),
        Key::Left => Some(Motion::Left),
        Key::Right => Some(Motion::Right),
        Key::Char(character) => if character == UP {
            Some(Motion::Up)
        } else if character == START {
            Some(Motion::Start)
        } else if character == DOWN {
            Some(Motion::Down)
        } else if character == END {
            Some(Motion::End)
        } else if character == LEFT {
            Some(Motion::Left)
        } else if character == LINE_START {
            Some(Motion::LineStart)
        } else if character == RIGHT {
            Some(Motion::Right)
        } else if character == LINE_END {
            Some(Motion::LineEnd)
        } else {
            None
        },
        _ => None,
    }
}

/// The move that `key` asks for where keys move the cursor.
pub fn motion(key: Key) -> (asked: Option<Motion>)
    ensures
        asked == motion_of(key),
{
    match key {
        Key::Up => Some(Motion::Up),
        Key::Down => Some(Motion::Down),
        Key::Left => Some(Motion::Left),
        Key::Right => Some(Motion::Right),
        Key::Char(character) => if character == UP {
            Some(Motion::Up)
        } else if character == START {
            Some(Motion::Start)
        } else if character == DOWN {
            Some(Motion::Down)
        } else if character == END {
            Some(Motion::End)
        } else if character == LEFT {
            Some(Motion::Left)
        } else if character == LINE_START {
            Some(Motion::LineStart)
        } else if character == RIGHT {
            Some(Motion::Right)
        } else if character == LINE_END {
            Some(Motion::LineEnd)
        } else {
            None
        },
        _ => None,
    }
}

/// Whether `size` is one that a terminal reports, with a row for the bar:
/// at least one line, and no more lines or columns than a terminal can
/// count.
pub open spec fn drawable(size: Size) -> bool {
    1 <= size.lines <= u16::MAX && size.columns <= u16::MAX
}

/// The part of a terminal of `size` above the bar on its last row.
pub open spec fn body(size: Size) -> Size {
    Size { lines: (size.lines - 1) as usize, columns: size.columns }
}

/// The editor as contracts see it.
pub struct State {
    pub mode: Mode,
    /// Whether the editor goes on.
    pub run: bool,
    /// Whether the screen has to be drawn again.
    pub display: bool,
    /// The working directory.
    pub path: Seq<char>,
    /// Whether hidden files are left out of the listing.
    pub hide: bool,
    /// The listing: the files under the working directory.
    pub list: Seq<Seq<char>>,
    pub query: Seq<char>,
    /// The filtered view: what of the listing the query selects.
    pub view: Seq<Seq<char>>,
    /// Where the window on the view starts.
    pub offset: Position,
    /// The selection: its line is an index into the view.
    pub position: Position,
    /// The open sessions.
    pub files: Seq<File>,
    /// The index of the current session.
    pub current: nat,
    /// What a confirmation does where the view has no entry.
    pub unmatched: Unmatched,
}

impl State {
    /// What holds of the editor at all times: the current index is one of
    /// a session, or zero where there is none; the listing is in ascending
    /// order; the view is what the query selects of the listing; and the
    /// selection is an entry of the view, or the first line where there is
    /// none.
    pub open spec fn well_formed(self) -> bool {
        &&& self.current < self.files.len() || self.current == 0
        &&& self.picker_well_formed()
    }

    /// What holds of the file picker at all times.
    pub open spec fn picker_well_formed(self) -> bool {
        &&& self.list.len() <= usize::MAX
        &&& self.view.len() <= usize::MAX
        &&& ascending(self.list)
        &&& self.view == matching(self.list, self.query)
        &&& self.position.line < self.view.len() || self.position.line == 0
    }

    /// The state in which the session before the current one is current:
    /// the last one before the first.
    pub open spec fn previous(self) -> State {
        State {
            current: if self.files.len() == 0 {
                0
            } else if self.current == 0 {
                (self.files.len() - 1) as nat
            } else {
                (self.current - 1) as nat
            },
            ..self
        }
    }

    /// The state after the session `file` was opened: it is the last of
    /// the sessions and the current one, and keys are commands.
    pub open spec fn opened(self, file: File) -> State {
        State {
            files: self.files.push(file),
            current: self.files.len(),
            mode: Mode::Command,
            ..self
        }
    }

    /// The state after the current session was closed: without it, and
    /// with the session before it current.
    pub open spec fn closed(self) -> State {
        if self.current < self.files.len() {
            (State { files: self.files.remove(self.current as int), ..self }).previous()
        } else {
            self
        }
    }

    /// The state with the view that the query selects, and the selection
    /// and the window at its start.
    pub open spec fn filtered(self) -> State {
        State {
            view: matching(self.list, self.query),
            position: Position::origin(),
            offset: Position::origin(),
            ..self
        }
    }

    /// The state after `entries` were found under the directory `path`:
    /// with `list` as their listing, no query, and all of the listing in
    /// view.
    pub open spec fn listed(self, path: Seq<char>, list: Seq<Seq<char>>) -> State {
        (State { path, list, query: Seq::empty(), ..self }).filtered()
    }

    /// What a confirmation asks for: that the selected entry of the view
    /// be opened, or, where the view has no entry, what the editor is set
    /// to do then.
    pub open spec fn selected(self) -> Effect {
        if self.position.line < self.view.len() {
            Effect::Open(self.view[self.position.line as int])
        } else {
            match self.unmatched {
                Unmatched::Open => Effect::Open(self.query),
                Unmatched::Ignore => Effect::Nothing,
                Unmatched::Fail => Effect::Fail,
            }
        }
    }

    /// Whether the file of the current session has to be read again, when
    /// the file on disk was last modified at `timestamp`.
    pub open spec fn stale(self, timestamp: Timestamp) -> bool {
        self.current < self.files.len() && self.files[self.current as int].timestamp != timestamp
    }

    /// The state after the file of the current session was read again: the
    /// session holds `content`, its cursor is as near to where it was as
    /// `content` allows, and the screen has to be drawn again.
    pub open spec fn reloaded(self, content: String, timestamp: Timestamp) -> State {
        if self.current < self.files.len() {
            let file = self.files[self.current as int];
            State {
                files: self.files.update(
                    self.current as int,
                    File {
                        content,
                        timestamp,
                        position: resolved(content@, file.position),
                        ..file
                    },
                ),
                display: true,
                ..self
            }
        } else {
            self
        }
    }

    /// The state after the session at `index` was written to its file,
    /// which since then was last modified at `timestamp`.
    pub open spec fn written(self, index: nat, timestamp: Timestamp) -> State {
        if index < self.files.len() {
            State {
                files: self.files.update(
                    index as int,
                    File { timestamp, ..self.files[index as int] },
                ),
                ..self
            }
        } else {
            self
        }
    }

    /// The state after the cursor of the current session has moved.
    pub open spec fn travelled(self, motion: Motion) -> State {
        if self.current < self.files.len() {
            let file = self.files[self.current as int];
            State {
                files: self.files.update(
                    self.current as int,
                    File { position: moved(file.content@, file.position, motion), ..file },
                ),
                ..self
            }
        } else {
            self
        }
    }

    /// The state after a key in command mode, and what the key asks for.
    pub open spec fn on_command(self, key: Key) -> (State, Effect) {
        if key == Key::Tab {
            (State { mode: Mode::Switch, ..self }, Effect::List)
        } else if key == Key::Char(PREVIOUS) {
            (self.previous(), Effect::Nothing)
        } else if key == Key::Char(NEXT) {
            (self.next(), Effect::Nothing)
        } else if key == Key::Char(PAUSE) {
            (self, Effect::Pause)
        } else if key == Key::Char(STOP) {
            (State { run: false, ..self }, Effect::SaveAll)
        } else if key == Key::Char(SAVE_ALL) {
            (self, Effect::SaveAll)
        } else if self.current >= self.files.len() {
            (self, Effect::Nothing)
        } else if key == Key::Char(CLOSE) {
            (self, Effect::Close)
        } else if key == Key::Char(RELOAD) {
            (self, Effect::Read)
        } else if key == Key::Char(SAVE) {
            (self, Effect::Save)
        } else if let Some(motion) = motion_of(key) {
            (self.travelled(motion), Effect::Nothing)
        } else {
            (self, Effect::Nothing)
        }
    }

    /// The state after a key in switch mode, and what the key asks for.
    pub open spec fn on_switch(self, key: Key) -> (State, Effect) {
        match key {
            Key::Tab => (State { mode: Mode::Command, ..self }, Effect::Nothing),
            Key::BackTab => (State { hide: !self.hide, ..self }, Effect::List),
            Key::Down => (
                if self.position.line + 1 < self.view.len() {
                    State {
                        position: Position {
                            line: (self.position.line + 1) as usize,
                            column: self.position.column,
                        },
                        ..self
                    }
                } else {
                    self
                },
                Effect::Nothing,
            ),
            Key::Up => (
                if self.position.line > 0 {
                    State {
                        position: Position {
                            line: (self.position.line - 1) as usize,
                            column: self.position.column,
                        },
                        ..self
                    }
                } else {
                    self
                },
                Effect::Nothing,
            ),
            Key::Backspace => (
                (State {
                    query: if self.query.len() > 0 {
                        self.query.drop_last()
                    } else {
                        self.query
                    },
                    ..self
                }).filtered(),
                Effect::Nothing,
            ),
            Key::Enter => (self, self.selected()),
            Key::Char(character) => (
                (State { query: self.query.push(character), ..self }).filtered(),
                Effect::Nothing,
            ),
            _ => (self, Effect::Nothing),
        }
    }

    /// The state after a key, and what the key asks for.
    pub open spec fn on_key(self, key: Key) -> (State, Effect) {
        match self.mode {
            Mode::Command => self.on_command(key),
            Mode::Switch => self.on_switch(key),
        }
    }

    /// The state after the screen was drawn in command mode, and what was
    /// drawn: the window of the current session scrolled to its cursor,
    /// the rows that it shows, a bar with the place of the cursor, and the
    /// cursor. Without a session, the bar alone. On a terminal on which no
    /// frame can be drawn, nothing.
    pub open spec fn shown_command(self, size: Size) -> (State, Seq<Stroke>) {
        let row = (size.lines - 1) as u16;
        if !drawable(size) {
            (self, Seq::empty())
        } else if self.current < self.files.len() {
            let file = self.files[self.current as int];
            let offset = file.offset.shifted(file.position, body(size));
            (
                State {
                    files: self.files.update(self.current as int, File { offset, ..file }),
                    ..self
                },
                printed(visible(file.content@, offset, body(size))) + bar(
                    row,
                    Color::Green,
                    Some(place(file.path@, file.position.line as nat, file.position.column as nat)),
                ).push(
                    Stroke::MoveTo(
                        (file.position.column - offset.column) as u16,
                        (file.position.line - offset.line) as u16,
                    ),
                ),
            )
        } else {
            (self, bar(row, Color::Green, None))
        }
    }

    /// The state after the screen was drawn in switch mode, and what was
    /// drawn: the window on the view scrolled to the selection, the entries
    /// that it shows, the selected entry once more on a bar of its own, and
    /// on the last row a bar with the directory and the query. A bar on a
    /// row that a terminal cannot address is left out, and that bar alone.
    /// On a terminal without a line nothing is drawn and nothing changes.
    pub open spec fn shown_switch(self, size: Size) -> (State, Seq<Stroke>) {
        let offset = self.offset.shifted(self.position, body(size));
        let row = self.position.line - offset.line;
        let last = size.lines - 1;
        if size.lines == 0 {
            (self, Seq::empty())
        } else {
            (
                State { offset, ..self },
                printed(window(self.view, offset.line as int, body(size).lines as int)) + (
                if self.position.line < self.view.len() && row <= u16::MAX {
                    bar(row as u16, Color::DarkGrey, Some(self.view[self.position.line as int]))
                } else {
                    Seq::empty()
                }) + (if last <= u16::MAX {
                    bar(last as u16, Color::Blue, Some(prompt(self.path, self.query)))
                } else {
                    Seq::empty()
                }),
            )
        }
    }

    /// The state after the screen was drawn, and what was drawn: the
    /// screen is cleared, and then drawn as the mode has it.
    pub open spec fn displayed(self, size: Size) -> (State, Seq<Stroke>) {
        let (state, drawn) = match self.mode {
            Mode::Command => self.shown_command(size),
            Mode::Switch => self.shown_switch(size),
        };
        (
            State { display: false, ..state },
            seq![Stroke::Reset, Stroke::MoveTo(0, 0), Stroke::ClearAll] + drawn,
        )
    }

    /// The state after a signal, and what the signal asks for. A signal
    /// that interrupts, ends or quits the process ends the run, with every
    /// session to be written. After the process was resumed the screen has
    /// to be drawn again.
    pub open spec fn on_signal(self, signal: Signal) -> (State, Effect) {
        match signal {
            Signal::Interrupt | Signal::Terminate | Signal::Quit => (
                State { run: false, ..self },
                Effect::SaveAll,
            ),
            Signal::Suspend => (self, Effect::Pause),
            Signal::Resume => (State { display: true, ..self }, Effect::Unpause),
        }
    }

    /// The state after an event, and what the event asks for. After a key
    /// the screen has to be drawn again.
    pub open spec fn after(self, event: Event) -> (State, Effect) {
        match event {
            Event::Key(key) => {
                let (state, effect) = self.on_key(key);
                (State { display: true, ..state }, effect)
            },
            Event::Signal(signal) => self.on_signal(signal),
        }
    }

    /// The state in which the session after the current one is current:
    /// the first one after the last.
    pub open spec fn next(self) -> State {
        State {
            current: if self.files.len() == 0 || self.current + 1 == self.files.len() {
                0
            } else {
                self.current + 1
            },
            ..self
        }
    }
}

/// The editor.
pub struct Editor {
    mode: Mode,
    run: bool,
    display: bool,
    path: String,
    hide: bool,
    list: Vec<String>,
    query: String,
    view: Vec<String>,
    offset: Position,
    position: Position,
    files: Vec<File>,
    current: usize,
    unmatched: Unmatched,
}

impl View for Editor {
    type V = State;

    closed spec fn view(&self) -> State {
        State {
            mode: self.mode,
            run: self.run,
            display: self.display,
            path: self.path@,
            hide: self.hide,
            list: texts(self.list@),
            query: self.query@,
            view: texts(self.view@),
            offset: self.offset,
            position: self.position,
            files: self.files@,
            current: self.current as nat,
            unmatched: self.unmatched,
        }
    }
}

impl Editor {
    /// Whether the editor is in a state that it can be in.
    pub open spec fn well_formed(&self) -> bool {
        self@.well_formed()
    }

    /// An editor with no session, in command mode, that leaves hidden files
    /// out, opens the query where a confirmation finds no entry, and has
    /// yet to draw the screen.
    pub fn create() -> (editor: Editor)
        ensures
            editor.well_formed(),
            editor@ == (State {
                mode: Mode::Command,
                run: true,
                display: true,
                path: Seq::empty(),
                hide: true,
                list: Seq::empty(),
                query: Seq::empty(),
                view: Seq::empty(),
                offset: Position::origin(),
                position: Position::origin(),
                files: Seq::empty(),
                current: 0,
                unmatched: Unmatched::Open,
            }),
    {
        let editor = Editor {
            run: true,
            display: true,
            mode: Mode::Command,
            path: String::new(),
            hide: true,
            list: Vec::new(),
            query: String::new(),
            view: Vec::new(),
            offset: Position::start(),
            position: Position::start(),
            files: Vec::new(),
            current: 0,
            unmatched: Unmatched::Open,
        };
        proof {
            assert(texts(editor.list@) =~= Seq::empty());
            assert(texts(editor.view@) =~= Seq::empty());
            assert(matching(Seq::empty(), Seq::empty()) =~= Seq::<Seq<char>>::empty());
        }
        editor
    }

    /// Makes the session before the current one current. The current index
    /// may be that of a session, or the one after the last.
    pub fn previous(&mut self)
        requires
            old(self)@.picker_well_formed(),
            old(self)@.current <= old(self)@.files.len(),
        ensures
            final(self).well_formed(),
            final(self)@ == old(self)@.previous(),
    {
        let length = self.files.len();
        if length == 0 {
            self.current = 0;
            return ;
        }
        if self.current == 0 {
            self.current = length - 1;
        } else {
            self.current -= 1;
        }
    }

    /// Makes the session after the current one current.
    pub fn next(&mut self)
        requires
            old(self).well_formed(),
        ensures
            final(self).well_formed(),
            final(self)@ == old(self)@.next(),
    {
        let length = self.files.len();
        if length == 0 {
            self.current = 0;
            return ;
        }
        if self.current + 1 == length {
            self.current = 0;
        } else {
            self.current += 1;
        }
    }

    /// Takes `file` in as a new session, which becomes the current one, and
    /// has keys read as commands.
    pub fn open(&mut self, file: File)
        requires
            old(self).well_formed(),
        ensures
            final(self).well_formed(),
            final(self)@ == old(self)@.opened(file),
    {
        self.files.push(file);
        self.current = self.files.len() - 1;
        self.mode = Mode::Command;
    }

    /// Closes the current session, which has been written: takes it off
    /// the sessions and makes the one before it current. Without a session
    /// nothing changes.
    pub fn close(&mut self)
        requires
            old(self).well_formed(),
        ensures
            final(self).well_formed(),
            final(self)@ == old(self)@.closed(),
    {
        if self.current < self.files.len() {
            self.files.remove(self.current);
            self.previous();
        }
    }

    /// Takes in what a walk of the directory `path` found: makes the
    /// listing of `entries`, clears the query, and shows all of the listing
    /// with the first entry selected.
    pub fn list(&mut self, path: String, entries: &Vec<Entry>)
        requires
            old(self).well_formed(),
        ensures
            final(self).well_formed(),
            lists(final(self)@.list, entries@, old(self)@.hide),
            final(self)@ == old(self)@.listed(path@, final(self)@.list),
            final(self)@.view == final(self)@.list,
    {
        self.path = path;
        self.list = listing(entries, self.hide);
        self.query = String::new();
        self.filter();
        proof {
            empty_query_selects_all(self@.list);
        }
    }

    /// Makes the view what the query selects of the listing, and selects
    /// its first entry.
    pub fn filter(&mut self)
        requires
            ascending(old(self)@.list),
            old(self)@.current < old(self)@.files.len() || old(self)@.current == 0,
        ensures
            final(self).well_formed(),
            final(self)@ == old(self)@.filtered(),
    {
        self.view = filtered(&self.list, self.query.as_str());
        self.position = Position::start();
        self.offset = Position::start();
        proof {
            assert(texts(self.list@).len() == self.list.len());
            assert(texts(self.view@).len() == self.view.len());
        }
    }

    /// Has keys read as commands.
    pub fn command(&mut self)
        requires
            old(self).well_formed(),
        ensures
            final(self).well_formed(),
            final(self)@ == (State { mode: Mode::Command, ..old(self)@ }),
    {
        self.mode = Mode::Command;
    }

    /// Has keys go to the file picker, which asks for the directory to be
    /// listed.
    pub fn switch(&mut self) -> (action: Action)
        requires
            old(self).well_formed(),
        ensures
            final(self).well_formed(),
            final(self)@ == (State { mode: Mode::Switch, ..old(self)@ }),
            action@ == Effect::List,
    {
        self.mode = Mode::Switch;
        Action::List
    }

    /// Ends the run: every session is to be written, and the editor does
    /// not go on.
    pub fn stop(&mut self) -> (action: Action)
        requires
            old(self).well_formed(),
        ensures
            final(self).well_formed(),
            final(self)@ == (State { run: false, ..old(self)@ }),
            action@ == Effect::SaveAll,
    {
        self.run = false;
        Action::SaveAll
    }

    /// The confirmation of the file picker: asks for the selected entry to
    /// be opened, or, where the view has no entry, does what the editor is
    /// set to do then.
    pub fn select(&self) -> (action: Action)
        ensures
            action@ == self@.selected(),
    {
        if self.position.line < self.view.len() {
            Action::Open(self.view[self.position.line].clone())
        } else {
            match self.unmatched {
                Unmatched::Open => Action::Open(self.query.clone()),
                Unmatched::Ignore => Action::Nothing,
                Unmatched::Fail => Action::Fail,
            }
        }
    }

    /// Sets what a confirmation does where the view has no entry.
    pub fn set_unmatched(&mut self, unmatched: Unmatched)
        requires
            old(self).well_formed(),
        ensures
            final(self).well_formed(),
            final(self)@ == (State { unmatched, ..old(self)@ }),
    {
        self.unmatched = unmatched;
    }

    /// Whether the file of the current session has to be read again, when
    /// the file on disk was last modified at `timestamp`.
    pub fn refresh(&self, timestamp: Timestamp) -> (stale: bool)
        ensures
            stale == self@.stale(timestamp),
    {
        self.current < self.files.len() && self.files[self.current].refresh(timestamp)
    }

    /// Takes in what was read from the file of the current session:
    /// `content`, last modified at `timestamp`. The screen has to be drawn
    /// again. Without a session nothing changes.
    pub fn read(&mut self, content: String, timestamp: Timestamp)
        requires
            old(self).well_formed(),
        ensures
            final(self).well_formed(),
            final(self)@ == old(self)@.reloaded(content, timestamp),
    {
        if self.current < self.files.len() {
            let ghost file = self.files@[self.current as int];
            self.files[self.current].read(content, timestamp);
            assert(self.files@[self.current as int] == (File {
                content,
                timestamp,
                position: resolved(content@, file.position),
                ..file
            }));
            self.display = true;
        }
    }

    /// Records that the session at `index` was written to its file, which
    /// since then was last modified at `timestamp`. Without such a session
    /// nothing changes.
    pub fn written(&mut self, index: usize, timestamp: Timestamp)
        requires
            old(self).well_formed(),
        ensures
            final(self).well_formed(),
            final(self)@ == old(self)@.written(index as nat, timestamp),
    {
        if index < self.files.len() {
            let ghost file = self.files@[index as int];
            self.files[index].written(timestamp);
            assert(self.files@[index as int] == (File { timestamp, ..file }));
        }
    }

    /// How keys are read.
    pub fn mode(&self) -> (mode: Mode)
        ensures
            mode == self@.mode,
    {
        self.mode
    }

    /// Whether the editor goes on.
    pub fn running(&self) -> (run: bool)
        ensures
            run == self@.run,
    {
        self.run
    }

    /// Whether the screen has to be drawn again.
    pub fn redraw(&self) -> (display: bool)
        ensures
            display == self@.display,
    {
        self.display
    }

    /// Whether hidden files are left out of the listing.
    pub fn hides(&self) -> (hide: bool)
        ensures
            hide == self@.hide,
    {
        self.hide
    }

    /// What a confirmation does where the view has no entry.
    pub fn unmatched(&self) -> (unmatched: Unmatched)
        ensures
            unmatched == self@.unmatched,
    {
        self.unmatched
    }

    /// The working directory.
    pub fn directory(&self) -> (path: &String)
        ensures
            path@ == self@.path,
    {
        &self.path
    }

    /// The query.
    pub fn query(&self) -> (query: &String)
        ensures
            query@ == self@.query,
    {
        &self.query
    }

    /// The listing.
    pub fn listing(&self) -> (list: &Vec<String>)
        ensures
            texts(list@) == self@.list,
    {
        &self.list
    }

    /// The filtered view.
    pub fn filtered_view(&self) -> (view: &Vec<String>)
        ensures
            texts(view@) == self@.view,
    {
        &self.view
    }

    /// The selection: its line is an index into the filtered view.
    pub fn selection(&self) -> (position: Position)
        ensures
            position == self@.position,
    {
        self.position
    }

    /// Where the window on the filtered view starts.
    pub fn window(&self) -> (offset: Position)
        ensures
            offset == self@.offset,
    {
        self.offset
    }

    /// The open sessions.
    pub fn sessions(&self) -> (files: &Vec<File>)
        ensures
            files@ == self@.files,
    {
        &self.files
    }

    /// The index of the current session.
    pub fn current(&self) -> (current: usize)
        ensures
            current == self@.current,
    {
        self.current
    }

    /// The current session, if there is one.
    pub fn session(&self) -> (file: Option<&File>)
        ensures
            file is Some <==> self@.current < self@.files.len(),
            file matches Some(file) ==> *file == self@.files[self@.current as int],
    {
        if self.current < self.files.len() {
            Some(&self.files[self.current])
        } else {
            None
        }
    }

    /// Moves the cursor of the current session, if there is one.
    pub fn travel(&mut self, motion: Motion)
        requires
            old(self).well_formed(),
        ensures
            final(self).well_formed(),
            final(self)@ == old(self)@.travelled(motion),
    {
        if self.current < self.files.len() {
            let ghost before = self.files@[self.current as int];
            self.files[self.current].travel(motion);
            proof {
                let after = self.files@[self.current as int];
                assert(after == (File {
                    position: moved(before.content@, before.position, motion),
                    ..before
                }));
            }
        }
    }

    /// A key in command mode.
    pub fn handle_command(&mut self, key: Key) -> (action: Action)
        requires
            old(self).well_formed(),
            old(self)@.mode == Mode::Command,
        ensures
            final(self).well_formed(),
            (final(self)@, action@) == old(self)@.on_command(key),
    {
        match key {
            Key::Tab => {
                return self.switch();
            },
            Key::Char(character) => {
                if character == PREVIOUS {
                    self.previous();
                    return Action::Nothing;
                } else if character == NEXT {
                    self.next();
                    return Action::Nothing;
                } else if character == PAUSE {
                    return Action::Pause;
                } else if character == STOP {
                    return self.stop();
                } else if character == SAVE_ALL {
                    return Action::SaveAll;
                }
            },
            _ => {},
        }
        if self.current >= self.files.len() {
            return Action::Nothing;
        }
        match key {
            Key::Char(character) => {
                if character == CLOSE {
                    return Action::Close;
                } else if character == RELOAD {
                    return Action::Read;
                } else if character == SAVE {
                    return Action::Save;
                }
            },
            _ => {},
        }
        match motion(key) {
            Some(asked) => self.travel(asked),
            None => {},
        }
        Action::Nothing
    }

    /// A key in switch mode.
    pub fn handle_switch(&mut self, key: Key) -> (action: Action)
        requires
            old(self).well_formed(),
            old(self)@.mode == Mode::Switch,
        ensures
            final(self).well_formed(),
            (final(self)@, action@) == old(self)@.on_switch(key),
    {
        match key {
            Key::Tab => {
                self.command();
            },
            Key::BackTab => {
                self.hide = !self.hide;
                return Action::List;
            },
            Key::Down => {
                if self.view.len() > 0 && self.position.line < self.view.len() - 1 {
                    self.position.line += 1;
                }
            },
            Key::Up => {
                if self.position.line > 0 {
                    self.position.line -= 1;
                }
            },
            Key::Backspace => {
                self.query.pop();
                self.filter();
            },
            Key::Enter => {
                return self.select();
            },
            Key::Char(character) => {
                self.query.push(character);
                self.filter();
            },
            _ => {},
        }
        Action::Nothing
    }

    /// A key: a command, or a key of the file picker, as the mode has it.
    pub fn handle_input(&mut self, key: Key) -> (action: Action)
        requires
            old(self).well_formed(),
        ensures
            final(self).well_formed(),
            (final(self)@, action@) == old(self)@.on_key(key),
    {
        match self.mode {
            Mode::Command => self.handle_command(key),
            Mode::Switch => self.handle_switch(key),
        }
    }

    /// One step of the editor: takes an event in, changes state, and says
    /// what is to be done about it.
    pub fn step(&mut self, event: Event) -> (action: Action)
        requires
            old(self).well_formed(),
        ensures
            final(self).well_formed(),
            (final(self)@, action@) == old(self)@.after(event),
    {
        match event {
            Event::Key(key) => {
                let action = self.handle_input(key);
                self.display = true;
                action
            },
            Event::Signal(signal) => self.handle_signal(signal),
        }
    }

    /// A signal to the process.
    pub fn handle_signal(&mut self, signal: Signal) -> (action: Action)
        requires
            old(self).well_formed(),
        ensures
            final(self).well_formed(),
            (final(self)@, action@) == old(self)@.on_signal(signal),
    {
        match signal {
            Signal::Interrupt | Signal::Terminate | Signal::Quit => self.stop(),
            Signal::Suspend => Action::Pause,
            Signal::Resume => {
                self.display = true;
                Action::Unpause
            },
        }
    }

    /// Draws the screen of a terminal of `size`: returns the frame, and
    /// notes that the screen is drawn.
    pub fn display(&mut self, size: Size) -> (frame: Vec<Draw>)
        requires
            old(self).well_formed(),
        ensures
            final(self).well_formed(),
            (final(self)@, strokes(frame@)) == old(self)@.displayed(size),
    {
        let mut frame: Vec<Draw> = Vec::new();
        frame.push(Draw::Reset);
        frame.push(Draw::MoveTo(0, 0));
        frame.push(Draw::ClearAll);
        assert(strokes(frame@) =~= seq![Stroke::Reset, Stroke::MoveTo(0, 0), Stroke::ClearAll]);
        match self.mode {
            Mode::Command => self.display_command(size, &mut frame),
            Mode::Switch => self.display_switch(size, &mut frame),
        }
        self.display = false;
        frame
    }

    /// Adds to `frame` what is drawn in command mode.
    pub fn display_command(&mut self, size: Size, frame: &mut Vec<Draw>)
        requires
            old(self).well_formed(),
        ensures
            final(self).well_formed(),
            final(self)@ == old(self)@.shown_command(size).0,
            strokes(final(frame)@) == strokes(old(frame)@) + old(self)@.shown_command(size).1,
    {
        let ghost before = strokes(frame@);
        let rows = match size.to_cells() {
            Some((_, rows)) => rows,
            None => 0,
        };
        if rows == 0 {
            assert(strokes(frame@) =~= before + Seq::empty());
            return ;
        }
        let inner = Size { lines: size.lines - 1, columns: size.columns };
        if self.current < self.files.len() {
            let ghost file = self.files@[self.current as int];
            let ghost offset = file.offset.shifted(file.position, inner);
            let (position, relative) = self.files[self.current].display(inner);
            assert(self.files@[self.current as int] == (File { offset, ..file }));
            let shown = self.files[self.current].rows(inner);
            print(frame, shown);
            let text = place_text(
                self.files[self.current].path.as_str(),
                position.line,
                position.column,
            );
            draw_bar(frame, rows - 1, Color::Green, Some(text));
            match relative.to_cell() {
                Some((column, row)) => {
                    let ghost drawn = strokes(frame@);
                    frame.push(Draw::MoveTo(column - 1, row - 1));
                    assert(strokes(frame@) =~= drawn.push(
                        Stroke::MoveTo((column - 1) as u16, (row - 1) as u16),
                    ));
                },
                None => {},
            }
            assert(strokes(frame@) =~= before + old(self)@.shown_command(size).1);
        } else {
            draw_bar(frame, rows - 1, Color::Green, None);
        }
    }

    /// Adds to `frame` what is drawn in switch mode.
    pub fn display_switch(&mut self, size: Size, frame: &mut Vec<Draw>)
        requires
            old(self).well_formed(),
        ensures
            final(self).well_formed(),
            final(self)@ == old(self)@.shown_switch(size).0,
            strokes(final(frame)@) == strokes(old(frame)@) + old(self)@.shown_switch(size).1,
    {
        let ghost before = strokes(frame@);
        if size.lines == 0 {
            assert(strokes(frame@) =~= before + Seq::empty());
            return ;
        }
        let inner = Size { lines: size.lines - 1, columns: size.columns };
        let (offset, _) = self.offset.shift(self.position, inner);
        self.offset = offset;
        print(frame, slice(&self.view, self.offset.line, inner.lines));
        if self.position.line < self.view.len() {
            let row = self.position.line - self.offset.line;
            if row <= 0xffff {
                draw_bar(
                    frame,
                    row as u16,
                    Color::DarkGrey,
                    Some(self.view[self.position.line].clone()),
                );
            }
        }
        if inner.lines <= 0xffff {
            let text = prompt_text(self.path.as_str(), self.query.as_str());
            draw_bar(frame, inner.lines as u16, Color::Blue, Some(text));
        }
        assert(strokes(frame@) =~= before + old(self)@.shown_switch(size).1);
    }
}

} // verus!
