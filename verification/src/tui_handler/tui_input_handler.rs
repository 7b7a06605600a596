use crate::error::ErrorKind;
use crate::tui_handler::{BufferAction, State, UserAction, MAX_TICK_TIME};
use vstd::prelude::*;

verus! {

/// A key as the session reads it.
#[derive(Clone, Copy, Debug, PartialEq, Eq, Structural)]
pub enum Key {
    Char(char),
    Backspace,
    Enter,
    Esc,
    /// Any key that the session has no use for.
    Other,
}

/// How long the input loop may wait for a key: what is left of the tick
/// period after `elapsed` milliseconds, and nothing once it has passed.
pub fn poll_budget(elapsed: u128) -> (budget: u128)
    ensures
        budget == if elapsed <= MAX_TICK_TIME {
            MAX_TICK_TIME - elapsed
        } else {
            0
        },
{
    if elapsed <= MAX_TICK_TIME {
        MAX_TICK_TIME - elapsed
    } else {
        0
    }
}

/// Whether a tick is due `elapsed` milliseconds after the last one.
pub fn tick_due(elapsed: u128) -> (due: bool)
    ensures
        due == (elapsed >= MAX_TICK_TIME),
{
    elapsed >= MAX_TICK_TIME
}

/// What `key` asks for in mode `state`. While tasks are viewed, four letters
/// are commands and every other key does nothing; in every other mode keys
/// work on the buffer.
pub open spec fn spec_handle_input(key: Key, state: State) -> UserAction {
    if state == State::Viewing {
        match key {
            Key::Char('q') => UserAction::Quit,
            Key::Char('n') => UserAction::AddTodo,
            Key::Char('c') => UserAction::CompeleteTodo,
            Key::Char('u') => UserAction::UncompleteTodo,
            _ => UserAction::NoAction,
        }
    } else {
        match key {
            Key::Char(c) => UserAction::ManipulateBuffer(BufferAction::Input(c)),
            Key::Backspace => UserAction::ManipulateBuffer(BufferAction::Backspace),
            Key::Enter => UserAction::ManipulateBuffer(BufferAction::SubmitBuffer),
            Key::Esc => UserAction::ManipulateBuffer(BufferAction::ExitBuffer),
            Key::Other => UserAction::NoAction,
        }
    }
}

/// Reads a key in the current mode.
pub fn handle_input(input: Key, current_state: &State) -> (r: Result<UserAction, ErrorKind>)
    ensures
        r == Ok::<UserAction, ErrorKind>(spec_handle_input(input, *current_state)),
{
    if let State::Viewing = *current_state {
        let key = match input {
            Key::Char(c) => c,
            _ => {
                return Ok(UserAction::NoAction);
            },
        };
        return match key {
            'q' => Ok(UserAction::Quit),
            'n' => Ok(UserAction::AddTodo),
            'c' => Ok(UserAction::CompeleteTodo),
            'u' => Ok(UserAction::UncompleteTodo),
            _ => Ok(UserAction::NoAction),
        };
    }
    match input {
        Key::Char(c) => Ok(UserAction::ManipulateBuffer(BufferAction::Input(c))),
        Key::Backspace => Ok(UserAction::ManipulateBuffer(BufferAction::Backspace)),
        Key::Enter => Ok(UserAction::ManipulateBuffer(BufferAction::SubmitBuffer)),
        Key::Esc => Ok(UserAction::ManipulateBuffer(BufferAction::ExitBuffer)),
        Key::Other => Ok(UserAction::NoAction),
    }
}

} // verus!
