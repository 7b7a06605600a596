pub mod tui_buffer_handler;
pub mod tui_input_handler;
pub mod tui_rendering_handler;
pub mod tui_session_proofs;

use crate::clock::local_now_seconds;
use crate::error::ErrorKind;
use crate::text::{decimal, push_decimal, string_push};
use crate::todo_backend::{ItemView, ListView, TodoItem, TodoList};
use crate::tui_handler::tui_buffer_handler::{manipulate_buffer, spec_manipulate_buffer, SessionView};
use crate::tui_handler::tui_input_handler::{handle_input, spec_handle_input, Key};
use crate::tui_handler::tui_rendering_handler::{
    adding_date_text, adding_text, command_contents, spec_adding_date_text, spec_adding_text,
    spec_command_contents, BufferType,
};
use vstd::prelude::*;
use vstd::string::*;

verus! {

/// The period of the input loop's tick, in milliseconds.
pub const MAX_TICK_TIME: u128 = 200;

/// What the input loop sends to the session.
#[derive(Debug)]
pub enum Event<T> {
    Input(T),
    Tick,
}

/// The mode of the session; exactly one is live at a time.
#[derive(Clone, Copy, Debug, PartialEq, Eq, Structural)]
pub enum State {
    Viewing,
    Quitting,
    AddingTodoDate(AddState),
    AddingTodo,
    CompletingTodo,
    UncompletingTodo,
    Error,
}

/// What a key asks for, given the mode in which it was pressed.
#[derive(Clone, Copy, Debug, PartialEq, Eq, Structural)]
pub enum UserAction {
    Quit,
    AddTodoDate,
    AddTodo,
    CompeleteTodo,
    UncompleteTodo,
    ManipulateBuffer(BufferAction),
    NoAction,
}

/// What a key does to the buffers while a field is typed.
#[derive(Clone, Copy, Debug, PartialEq, Eq, Structural)]
pub enum BufferAction {
    Input(char),
    SubmitBuffer,
    Backspace,
    ExitBuffer,
}

/// The field that a task with a due date is at.
#[derive(Clone, Copy, Debug, PartialEq, Eq, Structural)]
pub enum AddState {
    EnteringName,
    EnteringDate(DateState),
}

/// The part of the due date that is typed.
#[derive(Clone, Copy, Debug, PartialEq, Eq, Structural)]
pub enum DateState {
    Year,
    Month,
    Day,
    Time,
}

impl DateState {
    /// The part that follows this one; the time of day is the last.
    pub open spec fn spec_next(&self) -> Option<DateState> {
        match self {
            DateState::Year => Some(DateState::Month),
            DateState::Month => Some(DateState::Day),
            DateState::Day => Some(DateState::Time),
            DateState::Time => None,
        }
    }

    /// The part that follows this one; the time of day is the last.
    #[verifier::when_used_as_spec(spec_next)]
    pub fn next(&self) -> (r: Option<DateState>)
        ensures
            r == self.spec_next(),
    {
        match *self {
            DateState::Year => Some(DateState::Month),
            DateState::Month => Some(DateState::Day),
            DateState::Day => Some(DateState::Time),
            DateState::Time => None,
        }
    }
}

impl State {
    /// Whether keys are collected into a buffer in this mode.
    pub open spec fn collects(self) -> bool {
        self != State::Viewing && self != State::Quitting
    }
}

/// The mark of a task: a blank while it is pending, a check when completed.
pub open spec fn spec_completed_mark(completed: bool) -> char {
    if completed {
        '\u{2713}'
    } else {
        ' '
    }
}

/// The mark of a task: a blank while it is pending, a check when completed.
pub fn completed_mark(completed: bool) -> (mark: char)
    ensures
        mark == spec_completed_mark(completed),
{
    if completed {
        '\u{2713}'
    } else {
        ' '
    }
}

/// The quotient of `a` by a positive `b`, rounded towards zero.
pub open spec fn div_toward_zero(a: int, b: int) -> int {
    if a >= 0 {
        a / b
    } else {
        -((-a) / b)
    }
}

/// What is left of `a` when divided by a positive `b` with rounding towards
/// zero; it has the sign of `a`.
pub open spec fn rem_toward_zero(a: int, b: int) -> int {
    if a >= 0 {
        a % b
    } else {
        -((-a) % b)
    }
}

/// The decimal notation of an integer, with `-` before a negative one.
pub open spec fn signed_decimal(v: int) -> Seq<char> {
    if v < 0 {
        seq!['-'] + decimal((-v) as nat)
    } else {
        decimal(v as nat)
    }
}

/// A number filled with `0` on the left to two characters.
pub open spec fn two_wide(v: int) -> Seq<char> {
    if signed_decimal(v).len() < 2 {
        seq!['0'] + signed_decimal(v)
    } else {
        signed_decimal(v)
    }
}

/// The time left until `due`, seen at `now`: whole days, then the hours and
/// minutes beyond them. After the due time all three count backwards.
pub open spec fn spec_countdown(due: i64, now: i64) -> Seq<char> {
    let minutes = div_toward_zero(due - now, 60);
    let hours = div_toward_zero(minutes, 60);
    " | Due: D:"@ + two_wide(div_toward_zero(hours, 24)) + " H:"@ + two_wide(
        rem_toward_zero(hours, 24),
    ) + " M:"@ + two_wide(rem_toward_zero(minutes, 60))
}

/// The line of the pending task at `index`.
pub open spec fn spec_pending_line(index: nat, item: ItemView, now: i64) -> Seq<char> {
    "   "@ + decimal(index) + " - "@ + item.title + " ["@ + seq![
        spec_completed_mark(item.completed),
    ] + "]"@ + match item.due_date {
        Some(due) => spec_countdown(due, now),
        None => Seq::<char>::empty(),
    } + "\n"@
}

/// The line of the completed task at `index`.
pub open spec fn spec_completed_line(index: nat, item: ItemView) -> Seq<char> {
    "   "@ + decimal(index) + " - "@ + item.title + " "@ + seq![
        spec_completed_mark(item.completed),
    ] + "\n"@
}

/// The lines of the pending tasks, one after the other.
pub open spec fn spec_pending_lines(items: Seq<ItemView>, now: i64) -> Seq<char>
    decreases items.len(),
{
    if items.len() == 0 {
        Seq::<char>::empty()
    } else {
        spec_pending_lines(items.drop_last(), now) + spec_pending_line(
            (items.len() - 1) as nat,
            items.last(),
            now,
        )
    }
}

/// The lines of the completed tasks, one after the other.
pub open spec fn spec_completed_lines(items: Seq<ItemView>) -> Seq<char>
    decreases items.len(),
{
    if items.len() == 0 {
        Seq::<char>::empty()
    } else {
        spec_completed_lines(items.drop_last()) + spec_completed_line(
            (items.len() - 1) as nat,
            items.last(),
        )
    }
}

/// The task lists as shown on the screen at the moment `now`.
pub open spec fn spec_generate_todo(list: ListView, now: i64) -> Seq<char> {
    "   Todo:\n"@ + spec_pending_lines(list.todo, now) + "\n\n   Completed Todos:\n"@
        + spec_completed_lines(list.completed)
}

/// Appends a number, of which the sign and the size are given, filled to two
/// characters.
fn push_two_wide(out: &mut String, negative: bool, magnitude: u128)
    ensures
        final(out)@ == old(out)@ + two_wide(
            if negative {
                -(magnitude as int)
            } else {
                magnitude as int
            },
        ),
{
    if negative && magnitude > 0 {
        string_push(out, '-');
        push_decimal(out, magnitude);
        proof {
            let v = -(magnitude as int);
            assert(signed_decimal(v) == seq!['-'] + decimal(magnitude as nat));
            assert(decimal(magnitude as nat).len() >= 1);
            assert(out@ =~= old(out)@ + two_wide(v));
        }
    } else {
        if magnitude < 10 {
            string_push(out, '0');
        }
        push_decimal(out, magnitude);
        proof {
            let v = magnitude as int;
            assert(signed_decimal(v) == decimal(magnitude as nat));
            if magnitude >= 10 {
                assert(decimal(magnitude as nat).len() >= 2) by {
                    assert(decimal((magnitude / 10) as nat).len() >= 1);
                }
            }
            assert(out@ =~= old(out)@ + two_wide(v));
        }
    }
}

/// Appends the time left until `due`.
fn push_countdown(out: &mut String, due: i64, now: i64)
    ensures
        final(out)@ == old(out)@ + spec_countdown(due, now),
{
    let negative = due < now;
    let seconds: u128 = if negative {
        (now as i128 - due as i128) as u128
    } else {
        (due as i128 - now as i128) as u128
    };
    let minutes: u128 = seconds / 60;
    let hours: u128 = minutes / 60;
    out.append(" | Due: D:");
    push_two_wide(out, negative, hours / 24);
    out.append(" H:");
    push_two_wide(out, negative, hours % 24);
    out.append(" M:");
    push_two_wide(out, negative, minutes % 60);
    proof {
        let m = div_toward_zero(due - now, 60);
        let h = div_toward_zero(m, 60);
        assert(m == if negative { -(minutes as int) } else { minutes as int });
        assert(h == if negative { -(hours as int) } else { hours as int });
        assert(div_toward_zero(h, 24) == if negative { -((hours / 24) as int) } else { (hours / 24) as int });
        assert(rem_toward_zero(h, 24) == if negative { -((hours % 24) as int) } else { (hours % 24) as int });
        assert(rem_toward_zero(m, 60) == if negative { -((minutes % 60) as int) } else { (minutes % 60) as int });
        assert(out@ =~= old(out)@ + spec_countdown(due, now));
    }
}

/// The line of the pending task at `index`.
pub fn pending_line(index: usize, item: &TodoItem, now: i64) -> (line: String)
    ensures
        line@ == spec_pending_line(index as nat, item@, now),
{
    let mut line = String::from_str("   ");
    push_decimal(&mut line, index as u128);
    line.append(" - ");
    line.append(item.title.as_str());
    line.append(" [");
    string_push(&mut line, completed_mark(item.completed));
    line.append("]");
    if let Some(due) = item.due_date {
        push_countdown(&mut line, due, now);
    }
    line.append("\n");
    assert(line@ =~= spec_pending_line(index as nat, item@, now));
    line
}

/// The line of the completed task at `index`.
pub fn completed_line(index: usize, item: &TodoItem) -> (line: String)
    ensures
        line@ == spec_completed_line(index as nat, item@),
{
    let mut line = String::from_str("   ");
    push_decimal(&mut line, index as u128);
    line.append(" - ");
    line.append(item.title.as_str());
    line.append(" ");
    string_push(&mut line, completed_mark(item.completed));
    line.append("\n");
    assert(line@ =~= spec_completed_line(index as nat, item@));
    line
}

/// The task lists as shown on the screen at the moment `now`: a heading and
/// one line for each pending task, then a heading and one line for each
/// completed one.
pub fn generate_todo_at(todo: &TodoList, now: i64) -> (todo_str: String)
    ensures
        todo_str@ == spec_generate_todo(todo@, now),
{
    let mut todo_str = String::from_str("   Todo:\n");
    let mut i: usize = 0;
    while i < todo.todo_items.len()
        invariant
            i <= todo.todo_items.len(),
            todo_str@ == "   Todo:\n"@ + spec_pending_lines(todo@.todo.take(i as int), now),
        decreases todo.todo_items.len() - i,
    {
        let line = pending_line(i, &todo.todo_items[i], now);
        todo_str.append(line.as_str());
        proof {
            let next = todo@.todo.take(i + 1);
            assert(next.drop_last() == todo@.todo.take(i as int));
            assert(next.last() == todo.todo_items[i as int]@);
            assert(todo_str@ =~= "   Todo:\n"@ + spec_pending_lines(next, now));
        }
        i += 1;
    }
    assert(todo@.todo.take(i as int) == todo@.todo);
    todo_str.append("\n\n   Completed Todos:\n");
    let ghost head = todo_str@;
    let mut j: usize = 0;
    while j < todo.completed_items.len()
        invariant
            j <= todo.completed_items.len(),
            todo_str@ == head + spec_completed_lines(todo@.completed.take(j as int)),
        decreases todo.completed_items.len() - j,
    {
        let line = completed_line(j, &todo.completed_items[j]);
        todo_str.append(line.as_str());
        proof {
            let next = todo@.completed.take(j + 1);
            assert(next.drop_last() == todo@.completed.take(j as int));
            assert(next.last() == todo.completed_items[j as int]@);
            assert(todo_str@ =~= head + spec_completed_lines(next));
        }
        j += 1;
    }
    assert(todo@.completed.take(j as int) == todo@.completed);
    todo_str
}

/// The task lists as shown on the screen now. The clock is read once; what
/// is shown is what `generate_todo_at` gives for that moment.
pub fn generate_todo(todo: &TodoList) -> (todo_str: String)
    ensures
        exists|now: i64| todo_str@ == #[trigger] spec_generate_todo(todo@, now),
{
    let now = local_now_seconds();
    generate_todo_at(todo, now)
}

/// The banner for an error that the session recovers from; any other error
/// ends the session and is handed on.
pub open spec fn spec_handle_errors(e: ErrorKind) -> Result<Seq<char>, ErrorKind> {
    match e {
        ErrorKind::InvalidInput => Ok("Invalid Input"@),
        ErrorKind::InvalidData => Ok("Invalid or Empty Data"@),
        ErrorKind::Unsupported => Ok("Invalid Date"@),
        ErrorKind::NotFound => Err(ErrorKind::NotFound),
    }
}

/// The banner for an error that the session recovers from; any other error
/// ends the session and is handed on.
pub fn handle_errors(e: ErrorKind) -> (r: Result<&'static str, ErrorKind>)
    ensures
        match r {
            Ok(banner) => spec_handle_errors(e) == Ok::<Seq<char>, ErrorKind>(banner@),
            Err(fatal) => spec_handle_errors(e) == Err::<Seq<char>, ErrorKind>(fatal),
        },
{
    match e {
        ErrorKind::InvalidInput => Ok("Invalid Input"),
        ErrorKind::InvalidData => Ok("Invalid or Empty Data"),
        ErrorKind::Unsupported => Ok("Invalid Date"),
        ErrorKind::NotFound => Err(e),
    }
}

/// What is to be drawn after an event.
#[derive(Debug)]
pub enum Frame {
    /// Nothing: the screen stays as it is.
    Skip,
    /// Nothing: the session is over.
    Quit,
    /// The main screen, with the text of its command line; `error` says that
    /// the line is an error banner.
    Main { command: String, error: bool },
    /// The screen for a new task, with the text of its panel.
    Adding { panel: String },
    /// Nothing: an error that the session cannot recover from.
    Fatal(ErrorKind),
}

/// A frame as the contracts see it.
pub enum FrameView {
    Skip,
    Quit,
    Main { command: Seq<char>, error: bool },
    Adding { panel: Seq<char> },
    Fatal(ErrorKind),
}

impl View for Frame {
    type V = FrameView;

    open spec fn view(&self) -> FrameView {
        match *self {
            Frame::Skip => FrameView::Skip,
            Frame::Quit => FrameView::Quit,
            Frame::Main { command, error } => FrameView::Main { command: command@, error },
            Frame::Adding { panel } => FrameView::Adding { panel: panel@ },
            Frame::Fatal(e) => FrameView::Fatal(e),
        }
    }
}

/// The mark that stands behind the text being typed.
pub open spec fn cursor() -> char {
    '\u{2588}'
}

/// The frame for a session at rest, and the session after it has been drawn:
/// drawing changes nothing, except that the error mode gives way to viewing.
pub open spec fn spec_render(s: SessionView) -> (SessionView, FrameView) {
    match s.state {
        State::Viewing => (
            s,
            FrameView::Main {
                command: spec_command_contents(BufferType::NoBuffer),
                error: false,
            },
        ),
        State::AddingTodo => (s, FrameView::Adding { panel: spec_adding_text(s.input) }),
        State::AddingTodoDate(AddState::EnteringName) => (
            s,
            FrameView::Adding {
                panel: spec_adding_date_text(
                    s.input.push(cursor()),
                    Seq::empty(),
                    Seq::empty(),
                    DateState::Year,
                ),
            },
        ),
        State::AddingTodoDate(AddState::EnteringDate(part)) => (
            s,
            FrameView::Adding {
                panel: spec_adding_date_text(s.name, s.input.push(cursor()), s.date, part),
            },
        ),
        State::CompletingTodo => (
            s,
            FrameView::Main { command: "CompletingTask: "@ + s.input, error: false },
        ),
        State::UncompletingTodo => (
            s,
            FrameView::Main { command: "UncompletingTask: "@ + s.input, error: false },
        ),
        State::Error => (s.cleared(), FrameView::Skip),
        State::Quitting => (s, FrameView::Quit),
    }
}

/// The frame that reports the error `e`.
pub open spec fn spec_error_frame(e: ErrorKind) -> FrameView {
    match spec_handle_errors(e) {
        Ok(banner) => FrameView::Main { command: "Error: "@ + banner, error: true },
        Err(fatal) => FrameView::Fatal(fatal),
    }
}

/// The session after a mode has been entered from viewing: the live buffer
/// starts empty.
pub open spec fn spec_enter(s: SessionView, state: State) -> SessionView {
    SessionView { state, input: Seq::empty(), ..s }
}

/// One step of the session: the event is read in the current mode, the mode
/// and the buffers change, a commit reaches the store, and a frame says what
/// is to be drawn. Once quitting, the session stays so. A tick, and a key
/// that means nothing in the current mode, change nothing and draw nothing.
pub open spec fn spec_step(s: SessionView, event: Event<Key>, now: i64) -> (SessionView, FrameView) {
    if s.state == State::Quitting {
        (s, FrameView::Quit)
    } else {
        match event {
            Event::Tick => (s, FrameView::Skip),
            Event::Input(key) => match spec_handle_input(key, s.state) {
                UserAction::NoAction => (s, FrameView::Skip),
                UserAction::Quit => spec_render(SessionView { state: State::Quitting, ..s }),
                UserAction::AddTodo => spec_render(spec_enter(s, State::AddingTodo)),
                UserAction::AddTodoDate => spec_render(
                    spec_enter(s, State::AddingTodoDate(AddState::EnteringName)),
                ),
                UserAction::CompeleteTodo => spec_render(spec_enter(s, State::CompletingTodo)),
                UserAction::UncompleteTodo => spec_render(spec_enter(s, State::UncompletingTodo)),
                UserAction::ManipulateBuffer(action) => {
                    let (after, r) = spec_manipulate_buffer(s, action, now);
                    match r {
                        Ok(_) => spec_render(after),
                        Err(e) => (after, spec_error_frame(e)),
                    }
                },
            },
        }
    }
}

/// The state machine of one interactive session: the mode, the buffer that
/// keys go to, the fields kept while a dated task is entered, and the task
/// lists as text for the screen.
#[derive(Debug)]
pub struct Session {
    pub state: State,
    pub user_input_buffer: String,
    pub name_storage_buff: String,
    pub date_storage_buff: String,
    pub todo_items: String,
}

impl Session {
    /// The session together with the task lists that it works on.
    pub open spec fn view_with(&self, list: ListView) -> SessionView {
        SessionView {
            state: self.state,
            input: self.user_input_buffer@,
            name: self.name_storage_buff@,
            date: self.date_storage_buff@,
            list,
            todo_items: self.todo_items@,
        }
    }

    /// A session that views the tasks shown in `todo_items`, with every
    /// buffer empty.
    pub fn new(todo_items: String) -> (session: Session)
        ensures
            session.state == State::Viewing,
            session.user_input_buffer@.len() == 0,
            session.name_storage_buff@.len() == 0,
            session.date_storage_buff@.len() == 0,
            session.todo_items == todo_items,
    {
        Session {
            state: State::Viewing,
            user_input_buffer: String::new(),
            name_storage_buff: String::new(),
            date_storage_buff: String::new(),
            todo_items,
        }
    }

    /// The frame for the session as it stands.
    pub fn render(&mut self) -> (frame: Frame)
        ensures
            forall|list: ListView|
                (final(self).view_with(list), frame@) == spec_render(
                    #[trigger] old(self).view_with(list),
                ),
    {
        match self.state {
            State::Viewing => Frame::Main {
                command: command_contents(BufferType::NoBuffer),
                error: false,
            },
            State::AddingTodo => Frame::Adding {
                panel: adding_text(self.user_input_buffer.as_str()),
            },
            State::AddingTodoDate(state) => {
                let mut typed = self.user_input_buffer.clone();
                string_push(&mut typed, '\u{2588}');
                match state {
                    AddState::EnteringName => {
                        proof {
                            reveal_strlit("");
                            assert(""@ =~= Seq::<char>::empty());
                        }
                        Frame::Adding {
                            panel: adding_date_text(typed.as_str(), "", "", &DateState::Year),
                        }
                    },
                    AddState::EnteringDate(part) => Frame::Adding {
                        panel: adding_date_text(
                            self.name_storage_buff.as_str(),
                            typed.as_str(),
                            self.date_storage_buff.as_str(),
                            &part,
                        ),
                    },
                }
            },
            State::CompletingTodo => Frame::Main {
                command: command_contents(
                    BufferType::CompletingTask(self.user_input_buffer.as_str()),
                ),
                error: false,
            },
            State::UncompletingTodo => Frame::Main {
                command: command_contents(
                    BufferType::UncompletingTask(self.user_input_buffer.as_str()),
                ),
                error: false,
            },
            State::Error => {
                self.state = State::Viewing;
                self.user_input_buffer = String::new();
                self.name_storage_buff = String::new();
                self.date_storage_buff = String::new();
                Frame::Skip
            },
            State::Quitting => Frame::Quit,
        }
    }

    /// One step of the session at the moment `now`.
    pub fn step_at(&mut self, event: Event<Key>, todo: &mut TodoList, now: i64) -> (frame: Frame)
        ensures
            (final(self).view_with(final(todo)@), frame@) == spec_step(
                old(self).view_with(old(todo)@),
                event,
                now,
            ),
    {
        if let State::Quitting = self.state {
            return Frame::Quit;
        }
        let key = match event {
            Event::Input(key) => key,
            Event::Tick => {
                return Frame::Skip;
            },
        };
        let action = match handle_input(key, &self.state) {
            Ok(action) => action,
            Err(e) => {
                return error_frame(e);
            },
        };
        match action {
            UserAction::NoAction => {
                return Frame::Skip;
            },
            UserAction::Quit => {
                self.state = State::Quitting;
            },
            UserAction::AddTodo => {
                self.state = State::AddingTodo;
                self.user_input_buffer = String::new();
            },
            UserAction::AddTodoDate => {
                self.state = State::AddingTodoDate(AddState::EnteringName);
                self.user_input_buffer = String::new();
            },
            UserAction::CompeleteTodo => {
                self.state = State::CompletingTodo;
                self.user_input_buffer = String::new();
            },
            UserAction::UncompleteTodo => {
                self.state = State::UncompletingTodo;
                self.user_input_buffer = String::new();
            },
            UserAction::ManipulateBuffer(action) => {
                let result = manipulate_buffer(
                    &mut self.state,
                    action,
                    &mut self.user_input_buffer,
                    &mut self.name_storage_buff,
                    &mut self.date_storage_buff,
                    todo,
                    &mut self.todo_items,
                    now,
                );
                if let Err(e) = result {
                    return error_frame(e);
                }
            },
        }
        let ghost drawn = self.view_with(todo@);
        let frame = self.render();
        assert((self.view_with(todo@), frame@) == spec_render(drawn));
        frame
    }

    /// One step of the session. The clock is read once; what happens is what
    /// `step_at` does at that moment.
    pub fn step(&mut self, event: Event<Key>, todo: &mut TodoList) -> (frame: Frame)
        ensures
            exists|now: i64|
                (final(self).view_with(final(todo)@), frame@) == #[trigger] spec_step(
                    old(self).view_with(old(todo)@),
                    event,
                    now,
                ),
    {
        let now = local_now_seconds();
        self.step_at(event, todo, now)
    }
}

/// The frame that reports the error `e`.
pub fn error_frame(e: ErrorKind) -> (frame: Frame)
    ensures
        frame@ == spec_error_frame(e),
{
    match handle_errors(e) {
        Ok(banner) => Frame::Main { command: command_contents(BufferType::Error(banner)), error: true },
        Err(fatal) => Frame::Fatal(fatal),
    }
}

} // verus!
