use crate::tui_handler::DateState;
use vstd::prelude::*;
use vstd::string::*;

verus! {

/// What the command line at the foot of the main screen shows.
#[derive(Clone, Copy, Debug)]
pub enum BufferType<'a> {
    NoBuffer,
    EnteringCommand(&'a str),
    AddingTask(&'a str),
    CompletingTask(&'a str),
    UncompletingTask(&'a str),
    Error(&'a str),
}

/// The task lists as three columns of text.
#[derive(Clone, Debug)]
pub struct TodoItems {
    pub indexes: String,
    pub todo_content: String,
    pub check_boxes: String,
}

impl TodoItems {
    /// The three columns, put together.
    pub fn new(indexes: String, todo_content: String, check_boxes: String) -> (items: TodoItems)
        ensures
            items.indexes == indexes,
            items.todo_content == todo_content,
            items.check_boxes == check_boxes,
    {
        TodoItems { indexes, todo_content, check_boxes }
    }
}

impl<'a> BufferType<'a> {
    /// Whether the line reports an error, which is drawn in red.
    pub open spec fn spec_is_error(&self) -> bool {
        *self is Error
    }

    /// Whether the line reports an error, which is drawn in red.
    #[verifier::when_used_as_spec(spec_is_error)]
    pub fn is_error(&self) -> (r: bool)
        ensures
            r == self.spec_is_error(),
    {
        match self {
            BufferType::Error(_) => true,
            _ => false,
        }
    }
}

/// The text of the command line: a label, then what has been typed.
pub open spec fn spec_command_contents(buffer: BufferType) -> Seq<char> {
    match buffer {
        BufferType::NoBuffer => "Command Mode"@,
        BufferType::AddingTask(b) => "Adding: "@ + b@,
        BufferType::CompletingTask(b) => "CompletingTask: "@ + b@,
        BufferType::UncompletingTask(b) => "UncompletingTask: "@ + b@,
        BufferType::EnteringCommand(b) => "Command: "@ + b@,
        BufferType::Error(e) => "Error: "@ + e@,
    }
}

/// The text of the command line.
pub fn command_contents(buffer: BufferType) -> (line: String)
    ensures
        line@ == spec_command_contents(buffer),
{
    match buffer {
        BufferType::NoBuffer => String::from_str("Command Mode"),
        BufferType::AddingTask(b) => String::from_str("Adding: ").concat(b),
        BufferType::CompletingTask(b) => String::from_str("CompletingTask: ").concat(b),
        BufferType::UncompletingTask(b) => String::from_str("UncompletingTask: ").concat(b),
        BufferType::EnteringCommand(b) => String::from_str("Command: ").concat(b),
        BufferType::Error(e) => String::from_str("Error: ").concat(e),
    }
}

/// The panel shown while the title of a new task is typed.
pub open spec fn spec_adding_text(name_buffer: Seq<char>) -> Seq<char> {
    " Task Name: "@ + name_buffer + "\n "@
}

/// The panel shown while the title of a new task is typed.
pub fn adding_text(name_buffer: &str) -> (panel: String)
    ensures
        panel@ == spec_adding_text(name_buffer@),
{
    String::from_str(" Task Name: ").concat(name_buffer).concat("\n ")
}

/// The prompt for one part of the due date.
pub open spec fn spec_date_prompt(date_state: DateState) -> Seq<char> {
    match date_state {
        DateState::Year => "Enter Year: "@,
        DateState::Month => "Enter Month: "@,
        DateState::Day => "Enter Day: "@,
        DateState::Time => "Enter Time: "@,
    }
}

/// The prompt for one part of the due date.
pub fn date_prompt(date_state: &DateState) -> (prompt: &'static str)
    ensures
        prompt@ == spec_date_prompt(*date_state),
{
    match date_state {
        DateState::Year => "Enter Year: ",
        DateState::Month => "Enter Month: ",
        DateState::Day => "Enter Day: ",
        DateState::Time => "Enter Time: ",
    }
}

/// The panel shown while a task with a due date is typed: the title, the
/// prompt for the part that is due with what has been typed of it, and below
/// them the parts of the date entered so far.
pub open spec fn spec_adding_date_text(
    name_buffer: Seq<char>,
    date_buffer: Seq<char>,
    date_storage_buff: Seq<char>,
    date_state: DateState,
) -> Seq<char> {
    spec_adding_text(name_buffer) + spec_date_prompt(date_state) + date_buffer + "\n "@
        + date_storage_buff
}

/// The panel shown while a task with a due date is typed.
pub fn adding_date_text(
    name_buffer: &str,
    date_buffer: &str,
    date_storage_buff: &str,
    date_state: &DateState,
) -> (panel: String)
    ensures
        panel@ == spec_adding_date_text(
            name_buffer@,
            date_buffer@,
            date_storage_buff@,
            *date_state,
        ),
{
    let mut todo_string = adding_text(name_buffer);
    todo_string.append(date_prompt(date_state));
    todo_string.append(date_buffer);
    todo_string.append("\n ");
    todo_string.append(date_storage_buff);
    todo_string
}

} // verus!
