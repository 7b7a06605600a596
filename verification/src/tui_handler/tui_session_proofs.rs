use crate::clock::naive_seconds;
use crate::error::ErrorKind;
use crate::text::{decimal, lemma_parsed_index_of_decimal, parsed_index};
use crate::todo_backend::date_format;
use crate::tui_handler::tui_buffer_handler::{spec_submit, SessionView};
use crate::tui_handler::tui_input_handler::Key;
use crate::tui_handler::{spec_step, AddState, DateState, Event, FrameView, State};
use vstd::prelude::*;

verus! {

/// The session with `text` in the buffer that is typed into.
pub open spec fn with_input(s: SessionView, text: Seq<char>) -> SessionView {
    SessionView { input: text, ..s }
}

/// A session in good order: the tasks are marked as their list says, and
/// while tasks are viewed, or the session is over, every buffer is empty.
pub open spec fn in_order(s: SessionView) -> bool {
    &&& s.list.wf()
    &&& !s.state.collects() ==> s.input.len() == 0 && s.name.len() == 0 && s.date.len() == 0
}

/// The session after the characters of `text` have been typed one by one.
pub open spec fn spec_type_text(s: SessionView, text: Seq<char>, now: i64) -> SessionView
    decreases text.len(),
{
    if text.len() == 0 {
        s
    } else {
        spec_step(
            spec_type_text(s, text.drop_last(), now),
            Event::Input(Key::Char(text.last())),
            now,
        ).0
    }
}

/// Escape leaves every mode that collects a buffer: the session is back to
/// viewing and every buffer is empty, whatever the buffers held. The tasks
/// are not touched. A second Escape changes nothing more.
pub proof fn lemma_escape_cancels(s: SessionView, now: i64)
    requires
        s.state.collects(),
    ensures
        spec_step(s, Event::Input(Key::Esc), now).0 == s.cleared(),
        s.cleared().state == State::Viewing,
        s.cleared().input.len() == 0 && s.cleared().name.len() == 0 && s.cleared().date.len() == 0,
        s.cleared().list == s.list,
        spec_step(s.cleared(), Event::Input(Key::Esc), now).0 == s.cleared(),
{
}

/// A task with a due date is entered field by field, in one order: after the
/// title come the year, the month, the day and the time of day, each once,
/// and the fifth Enter commits or fails. Either way the session is then back
/// to viewing with every buffer empty. The date that is read is the four
/// fields with one space between them; the task is added exactly when that
/// text is a date after `now`.
pub proof fn lemma_date_fields_in_order(
    s: SessionView,
    name: Seq<char>,
    year: Seq<char>,
    month: Seq<char>,
    day: Seq<char>,
    time: Seq<char>,
    now: i64,
)
    requires
        s.state == State::AddingTodoDate(AddState::EnteringName),
    ensures
        ({
            let s1 = spec_submit(with_input(s, name), now).0;
            let s2 = spec_submit(with_input(s1, year), now).0;
            let s3 = spec_submit(with_input(s2, month), now).0;
            let s4 = spec_submit(with_input(s3, day), now).0;
            let (s5, r) = spec_submit(with_input(s4, time), now);
            let text = s.date + year + " "@ + month + " "@ + day + " "@ + time;
            let due = naive_seconds(text, date_format());
            &&& s1.state == State::AddingTodoDate(AddState::EnteringDate(DateState::Year))
            &&& s2.state == State::AddingTodoDate(AddState::EnteringDate(DateState::Month))
            &&& s3.state == State::AddingTodoDate(AddState::EnteringDate(DateState::Day))
            &&& s4.state == State::AddingTodoDate(AddState::EnteringDate(DateState::Time))
            &&& s4.name == name && s4.list == s.list
            &&& s5.state == State::Viewing
            &&& s5.input.len() == 0 && s5.name.len() == 0 && s5.date.len() == 0
            &&& if due is Some && due->0 > now {
                r is Ok && s5.list == s.list.add(name, due)
            } else {
                r == Err::<(), ErrorKind>(ErrorKind::Unsupported) && s5.list == s.list
            }
        }),
{
    let s1 = spec_submit(with_input(s, name), now).0;
    let s2 = spec_submit(with_input(s1, year), now).0;
    let s3 = spec_submit(with_input(s2, month), now).0;
    let s4 = spec_submit(with_input(s3, day), now).0;
    let text = s.date + year + " "@ + month + " "@ + day + " "@ + time;
    assert(s2.date == s.date + year + " "@);
    assert(s3.date == s.date + year + " "@ + month + " "@);
    assert(s4.date == s.date + year + " "@ + month + " "@ + day + " "@);
    assert(s4.date + time == text);
}

/// While a task is to be completed, Enter on a text that is no index, or on
/// an index that names no pending task, fails as invalid input: no task
/// moves, and the session is back to viewing with every buffer empty.
pub proof fn lemma_complete_rejects_bad_index(s: SessionView, now: i64)
    requires
        s.state == State::CompletingTodo,
        parsed_index(s.input) is None || parsed_index(s.input)->0 >= s.list.todo.len(),
    ensures
        spec_submit(s, now) == (s.cleared(), Err::<(), ErrorKind>(ErrorKind::InvalidInput)),
        spec_submit(s, now).0.list == s.list,
        spec_step(s, Event::Input(Key::Enter), now).0 == s.cleared(),
        spec_step(s, Event::Input(Key::Enter), now).1 == (FrameView::Main {
            command: "Error: "@ + "Invalid Input"@,
            error: true,
        }),
{
}

/// The same holds while a task is to be uncompleted, of the completed tasks.
pub proof fn lemma_uncomplete_rejects_bad_index(s: SessionView, now: i64)
    requires
        s.state == State::UncompletingTodo,
        parsed_index(s.input) is None || parsed_index(s.input)->0 >= s.list.completed.len(),
    ensures
        spec_submit(s, now) == (s.cleared(), Err::<(), ErrorKind>(ErrorKind::InvalidInput)),
        spec_submit(s, now).0.list == s.list,
{
}

/// With `n` pending tasks, the number `n` written in decimal is the first
/// index that is refused.
pub proof fn lemma_complete_rejects_count(s: SessionView, now: i64)
    requires
        s.state == State::CompletingTodo,
        s.list.todo.len() <= usize::MAX,
        s.input == decimal(s.list.todo.len()),
    ensures
        spec_submit(s, now) == (s.cleared(), Err::<(), ErrorKind>(ErrorKind::InvalidInput)),
{
    lemma_parsed_index_of_decimal(s.list.todo.len() as usize);
}

/// While a task is to be completed, Enter on the index of a pending task
/// moves that task to the completed ones.
pub proof fn lemma_complete_accepts_index(s: SessionView, index: usize, now: i64)
    requires
        s.state == State::CompletingTodo,
        parsed_index(s.input) == Some(index),
        index < s.list.todo.len(),
    ensures
        spec_submit(s, now) == (s.committed(s.list.complete(index as int), now), Ok::<(), ErrorKind>(())),
{
}

/// The last field of a dated task on a date that cannot be read, or that is
/// not after the current time, fails as unsupported: the entry is lost, no
/// task is added, and the session is back to viewing.
pub proof fn lemma_past_date_loses_entry(s: SessionView, now: i64)
    requires
        s.state == State::AddingTodoDate(AddState::EnteringDate(DateState::Time)),
        match naive_seconds(s.date + s.input, date_format()) {
            Some(due) => due <= now,
            None => true,
        },
    ensures
        spec_submit(s, now) == (s.cleared(), Err::<(), ErrorKind>(ErrorKind::Unsupported)),
        spec_submit(s, now).0.list == s.list,
{
}

/// `q` while viewing ends the session, and a session that is over stays so:
/// no event changes it, and nothing more is drawn.
pub proof fn lemma_quit_is_final(s: SessionView, event: Event<Key>, now: i64)
    requires
        s.state == State::Viewing,
    ensures
        spec_step(s, Event::Input(Key::Char('q')), now) == (
            SessionView { state: State::Quitting, ..s },
            FrameView::Quit,
        ),
        spec_step(SessionView { state: State::Quitting, ..s }, event, now) == (
            SessionView { state: State::Quitting, ..s },
            FrameView::Quit,
        ),
{
}

/// A tick changes nothing and draws nothing.
pub proof fn lemma_tick_is_idle(s: SessionView, now: i64)
    requires
        s.state != State::Quitting,
    ensures
        spec_step(s, Event::<Key>::Tick, now) == (s, FrameView::Skip),
{
}

/// A step keeps a session in good order.
pub proof fn lemma_step_keeps_order(s: SessionView, event: Event<Key>, now: i64)
    requires
        in_order(s),
    ensures
        in_order(spec_step(s, event, now).0),
{
}

/// While a field is typed, each character goes to the end of the live
/// buffer and nothing else changes.
pub proof fn lemma_typing_fills_buffer(s: SessionView, text: Seq<char>, now: i64)
    requires
        s.state.collects(),
        s.state != State::Error,
    ensures
        spec_type_text(s, text, now) == with_input(s, s.input + text),
    decreases text.len(),
{
    if text.len() == 0 {
        assert(s.input + text =~= s.input);
    } else {
        lemma_typing_fills_buffer(s, text.drop_last(), now);
        assert((s.input + text.drop_last()).push(text.last()) =~= s.input + text);
    }
}

/// `n`, then a title of at least one character, then Enter adds exactly one
/// pending task: it has that title, is not completed and has no due date.
/// The tasks that were there stay as they were, and the session is back to
/// viewing with every buffer empty.
pub proof fn lemma_typed_title_is_added(s: SessionView, title: Seq<char>, now: i64)
    requires
        s.state == State::Viewing,
        title.len() > 0,
    ensures
        ({
            let opened = spec_step(s, Event::Input(Key::Char('n')), now).0;
            let typed = spec_type_text(opened, title, now);
            let done = spec_step(typed, Event::Input(Key::Enter), now).0;
            &&& done == s.committed(s.list.add(title, None), now)
            &&& done.list.todo.len() == s.list.todo.len() + 1
            &&& done.list.todo.last().title == title
            &&& !done.list.todo.last().completed
            &&& done.list.todo.last().due_date is None
            &&& done.list.completed == s.list.completed
        }),
{
    let opened = spec_step(s, Event::Input(Key::Char('n')), now).0;
    lemma_typing_fills_buffer(opened, title, now);
    assert(opened.input + title =~= title);
}

} // verus!
