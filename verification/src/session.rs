//! The editing session: buffer, cursor, accumulator and status, and the
//! transition that each key press makes.
//!
//! The session never touches the terminal or the file. It tells its
//! caller what to do through an [`Action`], and the caller reports how a
//! write went through [`Session::finish_save`].

use crate::accumulator::Accumulator;
use crate::buffer::{all_tokens, bytes_of, lemma_round_trip, tokens_of, Buffer};
use crate::cursor::{down_from, left_of, right_of, up_from, Cursor};
use crate::hex::{digit_value, is_hex, is_hex_digit, is_token};
use vstd::prelude::*;

verus! {

/// The number of bytes in a row of the grid unless another is asked for.
pub const BYTES_PER_ROW: usize = 8;

/// A key press, as far as the editor tells keys apart.
#[derive(Clone, Copy, Debug, PartialEq, Eq, Structural)]
pub enum Key {
    Char(char),
    Left,
    Right,
    Up,
    Down,
    Delete,
    Backspace,
    Enter,
    Other,
}

/// What a key press asks for.
#[derive(Clone, Copy, Debug, PartialEq, Eq, Structural)]
pub enum Command {
    Quit,
    MoveLeft,
    MoveRight,
    MoveUp,
    MoveDown,
    DeleteDigit,
    Save,
    Digit(char),
    Commit,
    Ignore,
}

/// The key bindings: `q` quits, `w` saves, the arrows move, delete and
/// backspace erase a digit, enter commits, a hexadecimal digit is
/// input, and every other key is ignored.
pub open spec fn command_for(key: Key) -> Command {
    match key {
        Key::Char(c) => if c == 'q' {
            Command::Quit
        } else if c == 'w' {
            Command::Save
        } else if is_hex_digit(c) {
            Command::Digit(c)
        } else {
            Command::Ignore
        },
        Key::Left => Command::MoveLeft,
        Key::Right => Command::MoveRight,
        Key::Up => Command::MoveUp,
        Key::Down => Command::MoveDown,
        Key::Delete => Command::DeleteDigit,
        Key::Backspace => Command::DeleteDigit,
        Key::Enter => Command::Commit,
        Key::Other => Command::Ignore,
    }
}

/// Looks a key press up in the key bindings.
pub fn dispatch(key: Key) -> (cmd: Command)
    ensures
        cmd == command_for(key),
{
    match key {
        Key::Char(c) => {
            if c == 'q' {
                Command::Quit
            } else if c == 'w' {
                Command::Save
            } else if is_hex(c) {
                Command::Digit(c)
            } else {
                Command::Ignore
            }
        },
        Key::Left => Command::MoveLeft,
        Key::Right => Command::MoveRight,
        Key::Up => Command::MoveUp,
        Key::Down => Command::MoveDown,
        Key::Delete => Command::DeleteDigit,
        Key::Backspace => Command::DeleteDigit,
        Key::Enter => Command::Commit,
        Key::Other => Command::Ignore,
    }
}

/// The outcome of the last save, until the next key press clears it.
#[derive(Clone, Copy, Debug, PartialEq, Eq, Structural)]
pub enum Status {
    Clear,
    Saved,
    SaveFailed,
}

impl Status {
    /// The message shown for the status.
    pub open spec fn text(self) -> Seq<char> {
        match self {
            Status::Clear => Seq::empty(),
            Status::Saved => "Save was successful"@,
            Status::SaveFailed => "Save was unsuccessful"@,
        }
    }

    /// The message to show.
    pub fn message(&self) -> (s: &'static str)
        ensures
            s@ == self.text(),
    {
        match self {
            Status::Clear => {
                proof {
                    reveal_strlit("");
                }
                ""
            },
            Status::Saved => "Save was successful",
            Status::SaveFailed => "Save was unsuccessful",
        }
    }
}

/// What the caller has to do after an event.
#[derive(Debug, PartialEq, Eq)]
pub enum Action {
    /// Nothing but to show the new state.
    Continue,
    /// Replace the file's contents with these bytes, then report the
    /// outcome with [`Session::finish_save`].
    Write(Vec<u8>),
    /// End the session.
    Quit,
}

/// An action, as contracts see it.
pub enum ActionView {
    Continue,
    Write(Seq<u8>),
    Quit,
}

impl View for Action {
    type V = ActionView;

    open spec fn view(&self) -> ActionView {
        match self {
            Action::Continue => ActionView::Continue,
            Action::Write(bytes) => ActionView::Write(bytes@),
            Action::Quit => ActionView::Quit,
        }
    }
}

/// What can happen to a session: a key is pressed, or the write that a
/// save asked for comes to an end.
#[derive(Clone, Copy, Debug, PartialEq, Eq, Structural)]
pub enum Event {
    Key(Key),
    SaveFinished(bool),
}

/// The state of a session, as contracts see it.
pub struct SessionView {
    /// The buffer's tokens.
    pub tokens: Seq<Seq<char>>,
    /// The index of the selected byte.
    pub cursor: int,
    /// The number of bytes in a row of the grid.
    pub width: int,
    /// The digits typed so far.
    pub input: Accumulator,
    /// The outcome of the last save.
    pub status: Status,
}

impl SessionView {
    /// The state in which a session on `raw` starts.
    pub open spec fn initial(raw: Seq<u8>, width: int) -> SessionView {
        SessionView {
            tokens: tokens_of(raw),
            cursor: 0,
            width,
            input: Accumulator::Empty,
            status: Status::Clear,
        }
    }

    /// The buffer is not empty and holds tokens only, the cursor is on
    /// one of them, a row has room for at least one byte, and the
    /// accumulator holds upper-case digits only.
    pub open spec fn wf(self) -> bool {
        &&& self.tokens.len() >= 1
        &&& all_tokens(self.tokens)
        &&& 0 <= self.cursor < self.tokens.len()
        &&& self.width >= 1
        &&& self.input.wf()
    }

    /// The bytes that would be written now.
    pub open spec fn bytes(self) -> Seq<u8>
        recommends
            self.wf(),
    {
        bytes_of(self.tokens)
    }

    /// The state after a commit: two digits replace the selected token
    /// and the accumulator starts over; fewer digits change nothing.
    pub open spec fn committed(self) -> SessionView {
        if self.input is TwoDigits {
            SessionView {
                tokens: self.tokens.update(self.cursor, self.input.digits()),
                input: Accumulator::Empty,
                ..self
            }
        } else {
            self
        }
    }

    /// The state after `cmd`. Every command clears the status first.
    /// Moving the cursor keeps the digits typed so far, which then aim
    /// at the newly selected byte.
    pub open spec fn after(self, cmd: Command) -> SessionView {
        let s = SessionView { status: Status::Clear, ..self };
        match cmd {
            Command::Quit => s,
            Command::Save => s,
            Command::Ignore => s,
            Command::MoveLeft => SessionView { cursor: left_of(s.cursor), ..s },
            Command::MoveRight => SessionView { cursor: right_of(s.cursor, s.tokens.len() as int), ..s },
            Command::MoveUp => SessionView { cursor: up_from(s.cursor, s.width), ..s },
            Command::MoveDown => SessionView {
                cursor: down_from(s.cursor, s.tokens.len() as int, s.width),
                ..s
            },
            Command::DeleteDigit => SessionView { input: s.input.erased(), ..s },
            Command::Digit(c) => SessionView { input: s.input.typed(c), ..s },
            Command::Commit => s.committed(),
        }
    }

    /// What `cmd` leaves for the caller to do: a quit ends the session,
    /// a save has the buffer's bytes written, and nothing else asks for
    /// anything.
    pub open spec fn action(self, cmd: Command) -> ActionView {
        match cmd {
            Command::Quit => ActionView::Quit,
            Command::Save => ActionView::Write(self.bytes()),
            _ => ActionView::Continue,
        }
    }

    /// The state after a write has ended. A failure is an error, and an
    /// error empties the accumulator; the buffer is never touched.
    pub open spec fn save_finished(self, written: bool) -> SessionView {
        if written {
            SessionView { status: Status::Saved, ..self }
        } else {
            SessionView { status: Status::SaveFailed, input: Accumulator::Empty, ..self }
        }
    }

    /// The state after one event.
    pub open spec fn step(self, event: Event) -> SessionView {
        match event {
            Event::Key(key) => self.after(command_for(key)),
            Event::SaveFinished(written) => self.save_finished(written),
        }
    }

    /// What one event leaves for the caller to do.
    pub open spec fn step_action(self, event: Event) -> ActionView {
        match event {
            Event::Key(key) => self.action(command_for(key)),
            Event::SaveFinished(_) => ActionView::Continue,
        }
    }

    /// The state after a run of events, the first one first.
    pub open spec fn run(self, events: Seq<Event>) -> SessionView
        decreases events.len(),
    {
        if events.len() == 0 {
            self
        } else {
            self.run(events.drop_last()).step(events.last())
        }
    }
}

/// An editing session on one file's contents.
pub struct Session {
    buffer: Buffer,
    cursor: Cursor,
    width: usize,
    input: Accumulator,
    status: Status,
}

impl View for Session {
    type V = SessionView;

    closed spec fn view(&self) -> SessionView {
        SessionView {
            tokens: self.buffer@,
            cursor: self.cursor.index as int,
            width: self.width as int,
            input: self.input,
            status: self.status,
        }
    }
}

impl Session {
    /// The session's invariant, which every constructor establishes and
    /// every method keeps.
    pub open spec fn wf(&self) -> bool {
        self@.wf()
    }

    /// Starts a session on a file's contents, with rows of
    /// [`BYTES_PER_ROW`] bytes.
    pub fn new(raw: Vec<u8>) -> (s: Session)
        requires
            raw.len() >= 1,
        ensures
            s@ == SessionView::initial(raw@, BYTES_PER_ROW as int),
            s.wf(),
            s@.bytes() == raw@,
    {
        Session::with_row_width(raw, BYTES_PER_ROW)
    }

    /// Starts a session on a file's contents, with rows of `width` bytes.
    pub fn with_row_width(raw: Vec<u8>, width: usize) -> (s: Session)
        requires
            raw.len() >= 1,
            width >= 1,
        ensures
            s@ == SessionView::initial(raw@, width as int),
            s.wf(),
            s@.bytes() == raw@,
    {
        Session {
            buffer: Buffer::load(raw),
            cursor: Cursor::new(),
            width,
            input: Accumulator::new(),
            status: Status::Clear,
        }
    }

    /// The number of bytes in the buffer.
    pub fn len(&self) -> (n: usize)
        ensures
            n == self@.tokens.len(),
    {
        self.buffer.len()
    }

    /// The index of the selected byte.
    pub fn cursor(&self) -> (index: usize)
        ensures
            index == self@.cursor,
    {
        self.cursor.index
    }

    /// The number of bytes in a row of the grid.
    pub fn row_width(&self) -> (width: usize)
        ensures
            width == self@.width,
    {
        self.width
    }

    /// The digits typed so far.
    pub fn input(&self) -> (input: Accumulator)
        ensures
            input == self@.input,
    {
        self.input
    }

    /// The outcome of the last save.
    pub fn status(&self) -> (status: Status)
        ensures
            status == self@.status,
    {
        self.status
    }

    /// The buffer's tokens, in order.
    pub fn tokens(&self) -> (t: &Vec<String>)
        ensures
            t.deep_view() == self@.tokens,
    {
        self.buffer.tokens()
    }

    /// Carries out one command and says what is left for the caller to
    /// do. A save hands out the buffer's bytes to be written.
    pub fn apply(&mut self, cmd: Command) -> (action: Action)
        requires
            old(self).wf(),
        ensures
            final(self)@ == old(self)@.after(cmd),
            final(self).wf(),
            action@ == old(self)@.action(cmd),
    {
        self.status = Status::Clear;
        match cmd {
            Command::Quit => Action::Quit,
            Command::Ignore => Action::Continue,
            Command::MoveLeft => {
                self.cursor.move_left();
                Action::Continue
            },
            Command::MoveRight => {
                self.cursor.move_right(self.buffer.len());
                Action::Continue
            },
            Command::MoveUp => {
                self.cursor.move_up(self.width);
                Action::Continue
            },
            Command::MoveDown => {
                self.cursor.move_down(self.buffer.len(), self.width);
                Action::Continue
            },
            Command::DeleteDigit => {
                self.input.delete();
                Action::Continue
            },
            Command::Digit(c) => {
                self.input.press(c);
                Action::Continue
            },
            Command::Commit => {
                match self.input.commit() {
                    Some(token) => self.buffer.overwrite(self.cursor.index, token),
                    None => {},
                }
                Action::Continue
            },
            Command::Save => match self.buffer.to_bytes() {
                Ok(bytes) => Action::Write(bytes),
                // Every token of a well-formed session decodes, so there
                // is always something to write. Should that ever fail,
                // nothing is written and the save has failed.
                Err(_) => {
                    self.status = Status::SaveFailed;
                    self.input.reset();
                    Action::Continue
                },
            },
        }
    }

    /// Takes one key press: looks it up in the key bindings and carries
    /// the command out.
    pub fn handle_key(&mut self, key: Key) -> (action: Action)
        requires
            old(self).wf(),
        ensures
            final(self)@ == old(self)@.after(command_for(key)),
            final(self).wf(),
            action@ == old(self)@.action(command_for(key)),
    {
        self.apply(dispatch(key))
    }

    /// Takes one event. Only a key press can ask the caller for
    /// anything; after the end of a write there is nothing left to do.
    pub fn handle(&mut self, event: Event) -> (action: Action)
        requires
            old(self).wf(),
        ensures
            final(self)@ == old(self)@.step(event),
            final(self).wf(),
            action@ == old(self)@.step_action(event),
    {
        match event {
            Event::Key(key) => self.handle_key(key),
            Event::SaveFinished(written) => {
                self.finish_save(written);
                Action::Continue
            },
        }
    }

    /// Records how the write that a save asked for has ended.
    pub fn finish_save(&mut self, written: bool)
        requires
            old(self).wf(),
        ensures
            final(self)@ == old(self)@.save_finished(written),
            final(self).wf(),
    {
        if written {
            self.status = Status::Saved;
        } else {
            self.status = Status::SaveFailed;
            self.input.reset();
        }
    }
}

/// Every command keeps a well-formed session well formed: the cursor
/// stays on a byte, the accumulator holds two digits at most, every
/// token stays a token, and the buffer keeps its length.
pub proof fn lemma_after_keeps_wf(s: SessionView, cmd: Command)
    requires
        s.wf(),
    ensures
        s.after(cmd).wf(),
        s.after(cmd).input.digits().len() <= 2,
        s.after(cmd).tokens.len() == s.tokens.len(),
        s.after(cmd).width == s.width,
{
    if cmd == Command::Commit && s.input is TwoDigits {
        let t = s.after(cmd).tokens;
        assert forall|i: int| 0 <= i < t.len() implies is_token(#[trigger] t[i]) by {
            if i != s.cursor {
                assert(t[i] == s.tokens[i]);
            }
        }
    }
}

/// The invariant holds in every state that a session can reach: after
/// any run of events a session that started well formed is well formed,
/// and its buffer has the length that it started with.
pub proof fn lemma_run_keeps_wf(s: SessionView, events: Seq<Event>)
    requires
        s.wf(),
    ensures
        s.run(events).wf(),
        s.run(events).input.digits().len() <= 2,
        s.run(events).tokens.len() == s.tokens.len(),
        s.run(events).width == s.width,
    decreases events.len(),
{
    if events.len() > 0 {
        lemma_run_keeps_wf(s, events.drop_last());
        let before = s.run(events.drop_last());
        match events.last() {
            Event::Key(key) => lemma_after_keeps_wf(before, command_for(key)),
            Event::SaveFinished(_) => {},
        }
    }
}

/// A session starts well formed on any file that is not empty, and its
/// bytes are the file's.
pub proof fn lemma_initial_wf(raw: Seq<u8>, width: int)
    requires
        raw.len() >= 1,
        width >= 1,
    ensures
        SessionView::initial(raw, width).wf(),
        SessionView::initial(raw, width).bytes() == raw,
{
    lemma_round_trip(raw);
}

/// With fewer than two digits typed a commit changes neither the buffer
/// nor the accumulator nor the cursor.
pub proof fn lemma_commit_needs_two_digits(s: SessionView)
    requires
        !(s.input is TwoDigits),
    ensures
        s.after(Command::Commit).tokens == s.tokens,
        s.after(Command::Commit).input == s.input,
        s.after(Command::Commit).cursor == s.cursor,
{
}

/// With two digits typed a commit sets the selected byte to the value
/// of the two digits, leaves every other byte as it was and empties the
/// accumulator. So `FF` sets the selected byte to 255.
pub proof fn lemma_commit_sets_byte(s: SessionView, c1: char, c2: char)
    requires
        s.wf(),
        s.input == Accumulator::TwoDigits(c1, c2),
    ensures
        s.after(Command::Commit).input == Accumulator::Empty,
        s.after(Command::Commit).cursor == s.cursor,
        s.after(Command::Commit).bytes() == s.bytes().update(
            s.cursor,
            (16 * digit_value(c1) + digit_value(c2)) as u8,
        ),
        0 <= 16 * digit_value(c1) + digit_value(c2) < 256,
        c1 == 'F' && c2 == 'F' ==> s.after(Command::Commit).bytes()[s.cursor] == 255,
{
    assert(s.after(Command::Commit).bytes() =~= s.bytes().update(
        s.cursor,
        (16 * digit_value(c1) + digit_value(c2)) as u8,
    ));
}

/// Nothing but a commit changes the buffer: not any other command, and
/// not the end of a write, whether it failed or not.
pub proof fn lemma_only_commit_edits(s: SessionView, event: Event)
    requires
        event != Event::Key(Key::Enter),
    ensures
        s.step(event).tokens == s.tokens,
{
}

/// A write that failed leaves the failure in the status, and one that
/// went through leaves the success there; the next key press clears it.
pub proof fn lemma_status_reports_last_save(s: SessionView, written: bool, key: Key)
    ensures
        s.save_finished(written).status == if written {
            Status::Saved
        } else {
            Status::SaveFailed
        },
        s.step(Event::Key(key)).status == Status::Clear,
{
}

} // verus!
