use crate::clock::{naive_seconds, parse_naive_seconds};
use crate::error::ErrorKind;
use crate::text::{parse_index, parsed_index, string_pop, string_push};
use crate::todo_backend::{date_format, ListView, TodoList};
use crate::tui_handler::{
    generate_todo_at, spec_generate_todo, AddState, BufferAction, DateState, State,
};
use vstd::prelude::*;
use vstd::string::*;

verus! {

/// All that the session holds, as the contracts see it: the mode, the buffer
/// that is typed into, the title and the date kept from earlier fields, the
/// task lists, and the lists as text for the screen.
pub struct SessionView {
    pub state: State,
    pub input: Seq<char>,
    pub name: Seq<char>,
    pub date: Seq<char>,
    pub list: ListView,
    pub todo_items: Seq<char>,
}

/// The session made of its parts.
pub open spec fn session_view(
    state: State,
    input: Seq<char>,
    name: Seq<char>,
    date: Seq<char>,
    list: ListView,
    todo_items: Seq<char>,
) -> SessionView {
    SessionView { state, input, name, date, list, todo_items }
}

impl SessionView {
    /// Back to viewing with every buffer empty; the tasks stay as they are.
    pub open spec fn cleared(self) -> SessionView {
        SessionView {
            state: State::Viewing,
            input: Seq::empty(),
            name: Seq::empty(),
            date: Seq::empty(),
            ..self
        }
    }

    /// Back to viewing with every buffer empty, holding the new lists and
    /// their text as of `now`.
    pub open spec fn committed(self, list: ListView, now: i64) -> SessionView {
        SessionView { list, todo_items: spec_generate_todo(list, now), ..self.cleared() }
    }

    /// How a commit ends: with the new lists where it succeeded, with nothing
    /// but the buffers changed where it failed.
    pub open spec fn settled(self, list: ListView, r: Result<(), ErrorKind>, now: i64) -> (
        SessionView,
        Result<(), ErrorKind>,
    ) {
        match r {
            Ok(_) => (self.committed(list, now), Ok(())),
            Err(e) => (self.cleared(), Err(e)),
        }
    }
}

/// What submitting a task does to the lists. A plain task needs a title; a
/// task with a due date needs a date that can be read and lies after `now`.
/// Outside the modes that add a task nothing is added.
pub open spec fn spec_submit_buffer(
    state: State,
    title: Seq<char>,
    date: Seq<char>,
    list: ListView,
    now: i64,
) -> (ListView, Result<(), ErrorKind>) {
    match state {
        State::AddingTodo => if title.len() == 0 {
            (list, Err(ErrorKind::InvalidInput))
        } else {
            (list.add(title, None), Ok(()))
        },
        State::AddingTodoDate(AddState::EnteringName) => (list.add(title, None), Ok(())),
        State::AddingTodoDate(AddState::EnteringDate(_)) => {
            let (added, r) = list.add_due(title, naive_seconds(date, date_format()), now);
            match r {
                Ok(_) => (added, Ok(())),
                Err(e) => (list, Err(e)),
            }
        },
        _ => (list, Err(ErrorKind::InvalidInput)),
    }
}

/// Commits the task that has been typed to the store.
pub fn submit_buffer(
    current_state_data: &State,
    output_buffer: &str,
    date_storage_buff: &str,
    todo: &mut TodoList,
    now: i64,
) -> (r: Result<(), ErrorKind>)
    ensures
        (final(todo)@, r) == spec_submit_buffer(
            *current_state_data,
            output_buffer@,
            date_storage_buff@,
            old(todo)@,
            now,
        ),
{
    match *current_state_data {
        State::AddingTodo => {
            if output_buffer.unicode_len() == 0 {
                return Err(ErrorKind::InvalidInput);
            }
            let _ = todo.add_item(output_buffer);
            Ok(())
        },
        State::AddingTodoDate(state) => {
            match state {
                AddState::EnteringName => {
                    let _ = todo.add_item(output_buffer);
                    Ok(())
                },
                AddState::EnteringDate(_) => {
                    let due = parse_naive_seconds(date_storage_buff, "%Y %b %d %H:%M:%S");
                    match todo.add_item_due(output_buffer, due, now) {
                        Ok(_) => Ok(()),
                        Err(e) => Err(e),
                    }
                },
            }
        },
        _ => Err(ErrorKind::InvalidInput),
    }
}

/// What submitting an index does to the lists: the text must be a number
/// that names a pending task when completing, a completed one when
/// uncompleting.
pub open spec fn spec_submit_command(state: State, text: Seq<char>, list: ListView) -> (
    ListView,
    Result<(), ErrorKind>,
) {
    match parsed_index(text) {
        None => (list, Err(ErrorKind::InvalidInput)),
        Some(index) => match state {
            State::CompletingTodo => if index < list.todo.len() {
                (list.complete(index as int), Ok(()))
            } else {
                (list, Err(ErrorKind::InvalidInput))
            },
            State::UncompletingTodo => if index < list.completed.len() {
                (list.uncomplete(index as int), Ok(()))
            } else {
                (list, Err(ErrorKind::InvalidInput))
            },
            _ => (list, Ok(())),
        },
    }
}

/// Completes or uncompletes the task whose index has been typed, and goes
/// back to viewing whether or not that worked.
pub fn submit_command(current_state: &mut State, output_buffer: &str, todo: &mut TodoList) -> (r:
    Result<(), ErrorKind>)
    ensures
        *final(current_state) == State::Viewing,
        (final(todo)@, r) == spec_submit_command(*old(current_state), output_buffer@, old(todo)@),
{
    let state = *current_state;
    *current_state = State::Viewing;
    let index = match parse_index(output_buffer) {
        Some(index) => index,
        None => {
            return Err(ErrorKind::InvalidInput);
        },
    };
    match state {
        State::CompletingTodo => todo.complete_item(index),
        State::UncompletingTodo => todo.uncomplete_item(index),
        _ => Ok(()),
    }
}

/// Keeps a finished field: the storage buffer takes the text of `prev_buff`.
pub fn swap_buffers(prev_buff: &str, storage_buff: &mut String) -> (r: Result<(), ErrorKind>)
    ensures
        final(storage_buff)@ == prev_buff@,
        r == Ok::<(), ErrorKind>(()),
{
    *storage_buff = String::from_str(prev_buff);
    Ok(())
}

/// What Enter does. In the modes that commit, the session ends up viewing
/// with every buffer empty, whether the commit worked or not; between the
/// fields of a dated task the field moves into storage and the next field
/// begins. While viewing or quitting nothing happens.
pub open spec fn spec_submit(s: SessionView, now: i64) -> (SessionView, Result<(), ErrorKind>) {
    match s.state {
        State::Viewing | State::Quitting => (s, Ok(())),
        State::Error => (s.cleared(), Ok(())),
        State::AddingTodo => {
            let (list, r) = spec_submit_buffer(s.state, s.input, s.date, s.list, now);
            s.settled(list, r, now)
        },
        State::AddingTodoDate(AddState::EnteringName) => (
            SessionView {
                state: State::AddingTodoDate(AddState::EnteringDate(DateState::Year)),
                name: s.input,
                input: Seq::empty(),
                ..s
            },
            Ok(()),
        ),
        State::AddingTodoDate(AddState::EnteringDate(part)) => match part.spec_next() {
            Some(next) => (
                SessionView {
                    state: State::AddingTodoDate(AddState::EnteringDate(next)),
                    date: s.date + s.input + " "@,
                    input: Seq::empty(),
                    ..s
                },
                Ok(()),
            ),
            None => {
                let (list, r) = spec_submit_buffer(s.state, s.name, s.date + s.input, s.list, now);
                s.settled(list, r, now)
            },
        },
        State::CompletingTodo | State::UncompletingTodo => {
            let (list, r) = spec_submit_command(s.state, s.input, s.list);
            s.settled(list, r, now)
        },
    }
}

/// Empties the three buffers and goes back to viewing.
fn clear_buffers(
    current_state: &mut State,
    user_input_buffer: &mut String,
    name_storage_buff: &mut String,
    date_storage_buff: &mut String,
)
    ensures
        *final(current_state) == State::Viewing,
        final(user_input_buffer)@ == Seq::<char>::empty(),
        final(name_storage_buff)@ == Seq::<char>::empty(),
        final(date_storage_buff)@ == Seq::<char>::empty(),
{
    *current_state = State::Viewing;
    *user_input_buffer = String::new();
    *name_storage_buff = String::new();
    *date_storage_buff = String::new();
}

/// Handles Enter in the current mode.
pub fn match_buffer_submit(
    current_state: &mut State,
    user_input_buffer: &mut String,
    name_storage_buff: &mut String,
    date_storage_buff: &mut String,
    todo: &mut TodoList,
    todo_items: &mut String,
    now: i64,
) -> (r: Result<(), ErrorKind>)
    ensures
        (
            session_view(
                *final(current_state),
                final(user_input_buffer)@,
                final(name_storage_buff)@,
                final(date_storage_buff)@,
                final(todo)@,
                final(todo_items)@,
            ),
            r,
        ) == spec_submit(
            session_view(
                *old(current_state),
                old(user_input_buffer)@,
                old(name_storage_buff)@,
                old(date_storage_buff)@,
                old(todo)@,
                old(todo_items)@,
            ),
            now,
        ),
{
    let result = match *current_state {
        State::Viewing | State::Quitting => {
            return Ok(());
        },
        State::Error => {
            clear_buffers(current_state, user_input_buffer, name_storage_buff, date_storage_buff);
            return Ok(());
        },
        State::AddingTodo => submit_buffer(
            current_state,
            user_input_buffer.as_str(),
            date_storage_buff.as_str(),
            todo,
            now,
        ),
        State::AddingTodoDate(AddState::EnteringName) => {
            let _ = swap_buffers(user_input_buffer.as_str(), name_storage_buff);
            *user_input_buffer = String::new();
            *current_state = State::AddingTodoDate(AddState::EnteringDate(DateState::Year));
            return Ok(());
        },
        State::AddingTodoDate(AddState::EnteringDate(state)) => {
            match state.next() {
                Some(next) => {
                    date_storage_buff.append(user_input_buffer.as_str());
                    date_storage_buff.append(" ");
                    *current_state = State::AddingTodoDate(AddState::EnteringDate(next));
                    *user_input_buffer = String::new();
                    return Ok(());
                },
                None => {
                    date_storage_buff.append(user_input_buffer.as_str());
                    submit_buffer(
                        current_state,
                        name_storage_buff.as_str(),
                        date_storage_buff.as_str(),
                        todo,
                        now,
                    )
                },
            }
        },
        State::CompletingTodo | State::UncompletingTodo => submit_command(
            current_state,
            user_input_buffer.as_str(),
            todo,
        ),
    };
    clear_buffers(current_state, user_input_buffer, name_storage_buff, date_storage_buff);
    if result.is_ok() {
        *todo_items = generate_todo_at(todo, now);
    }
    result
}

/// What one buffer action does. While viewing or quitting there is no buffer
/// to work on and nothing happens. Otherwise a character goes to the end of
/// the live buffer, Backspace takes the last one away if there is one, Escape
/// goes back to viewing with every buffer empty, and Enter submits.
pub open spec fn spec_manipulate_buffer(s: SessionView, action: BufferAction, now: i64) -> (
    SessionView,
    Result<(), ErrorKind>,
) {
    if !s.state.collects() {
        (s, Ok(()))
    } else {
        match action {
            BufferAction::Input(input) => (SessionView { input: s.input.push(input), ..s }, Ok(())),
            BufferAction::Backspace => (
                SessionView {
                    input: if s.input.len() > 0 {
                        s.input.drop_last()
                    } else {
                        s.input
                    },
                    ..s
                },
                Ok(()),
            ),
            BufferAction::ExitBuffer => (s.cleared(), Ok(())),
            BufferAction::SubmitBuffer => spec_submit(s, now),
        }
    }
}

/// Applies one buffer action to the session.
pub fn manipulate_buffer(
    current_state: &mut State,
    action: BufferAction,
    user_input_buffer: &mut String,
    name_storage_buff: &mut String,
    date_storage_buff: &mut String,
    todo: &mut TodoList,
    todo_items: &mut String,
    now: i64,
) -> (r: Result<(), ErrorKind>)
    ensures
        (
            session_view(
                *final(current_state),
                final(user_input_buffer)@,
                final(name_storage_buff)@,
                final(date_storage_buff)@,
                final(todo)@,
                final(todo_items)@,
            ),
            r,
        ) == spec_manipulate_buffer(
            session_view(
                *old(current_state),
                old(user_input_buffer)@,
                old(name_storage_buff)@,
                old(date_storage_buff)@,
                old(todo)@,
                old(todo_items)@,
            ),
            action,
            now,
        ),
{
    match *current_state {
        State::Viewing | State::Quitting => {
            return Ok(());
        },
        _ => {},
    }
    match action {
        BufferAction::Input(input) => {
            string_push(user_input_buffer, input);
            Ok(())
        },
        BufferAction::Backspace => {
            let _ = string_pop(user_input_buffer);
            Ok(())
        },
        BufferAction::ExitBuffer => {
            clear_buffers(current_state, user_input_buffer, name_storage_buff, date_storage_buff);
            Ok(())
        },
        BufferAction::SubmitBuffer => match_buffer_submit(
            current_state,
            user_input_buffer,
            name_storage_buff,
            date_storage_buff,
            todo,
            todo_items,
            now,
        ),
    }
}

} // verus!
