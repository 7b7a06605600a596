use todo_tui::error::ErrorKind;
use todo_tui::todo_backend::TodoList;
use todo_tui::tui_handler::tui_buffer_handler::{
    manipulate_buffer, match_buffer_submit, submit_buffer, submit_command, swap_buffers,
};
use todo_tui::tui_handler::tui_input_handler::Key;
use todo_tui::tui_handler::{
    generate_todo_at, AddState, BufferAction, DateState, Event, Frame, Session, State,
};

fn type_text(session: &mut Session, todo: &mut TodoList, text: &str, now: i64) {
    for c in text.chars() {
        let _ = session.step_at(Event::Input(Key::Char(c)), todo, now);
    }
}

fn enter(session: &mut Session, todo: &mut TodoList, now: i64) -> Frame {
    session.step_at(Event::Input(Key::Enter), todo, now)
}

fn buffers_empty(session: &Session) -> bool {
    session.user_input_buffer.is_empty()
        && session.name_storage_buff.is_empty()
        && session.date_storage_buff.is_empty()
}

fn dated_session(part: AddState) -> Session {
    let mut session = Session::new(String::new());
    session.state = State::AddingTodoDate(part);
    session
}

#[test]
fn new_session_views_with_empty_buffers() {
    let session = Session::new(String::from("snapshot"));
    assert_eq!(session.state, State::Viewing);
    assert!(buffers_empty(&session));
    assert_eq!(session.todo_items, "snapshot");
}

#[test]
fn round_trip_adds_buy_milk() {
    let mut todo = TodoList::new();
    let _ = todo.add_item("older");
    let mut session = Session::new(generate_todo_at(&todo, 0));
    let before: usize = todo.todo_len();
    let _ = session.step_at(Event::Input(Key::Char('n')), &mut todo, 0);
    assert_eq!(session.state, State::AddingTodo);
    type_text(&mut session, &mut todo, "Buy milk", 0);
    assert_eq!(session.user_input_buffer, "Buy milk");
    let frame = enter(&mut session, &mut todo, 0);
    assert_eq!(todo.todo_len(), before + 1);
    assert_eq!(todo.todo_items[before].title, "Buy milk");
    assert!(!todo.todo_items[before].completed);
    assert_eq!(todo.todo_items[before].due_date, None);
    assert_eq!(session.state, State::Viewing);
    assert!(buffers_empty(&session));
    assert_eq!(
        session.todo_items,
        "   Todo:\n   0 - older [ ]\n   1 - Buy milk [ ]\n\n\n   Completed Todos:\n"
    );
    match frame {
        Frame::Main { command, error } => {
            assert_eq!(command, "Command Mode");
            assert!(!error);
        },
        _ => panic!("after a commit the main screen is drawn"),
    }
}

#[test]
fn empty_title_is_refused() {
    let mut todo = TodoList::new();
    let mut session = Session::new(String::from("old"));
    let _ = session.step_at(Event::Input(Key::Char('n')), &mut todo, 0);
    let frame = enter(&mut session, &mut todo, 0);
    assert_eq!(todo.todo_len(), 0);
    assert_eq!(session.state, State::Viewing);
    assert!(buffers_empty(&session));
    assert_eq!(session.todo_items, "old");
    match frame {
        Frame::Main { command, error } => {
            assert_eq!(command, "Error: Invalid Input");
            assert!(error);
        },
        _ => panic!("an empty title is reported on the main screen"),
    }
}

#[test]
fn escape_cancels_every_collecting_mode() {
    let modes: Vec<State> = vec![
        State::AddingTodo,
        State::AddingTodoDate(AddState::EnteringName),
        State::AddingTodoDate(AddState::EnteringDate(DateState::Year)),
        State::AddingTodoDate(AddState::EnteringDate(DateState::Month)),
        State::AddingTodoDate(AddState::EnteringDate(DateState::Day)),
        State::AddingTodoDate(AddState::EnteringDate(DateState::Time)),
        State::CompletingTodo,
        State::UncompletingTodo,
        State::Error,
    ];
    for mode in modes {
        let mut todo = TodoList::new();
        let _ = todo.add_item("a");
        let mut session = Session::new(String::from("old"));
        session.state = mode;
        session.user_input_buffer = String::from("typed");
        session.name_storage_buff = String::from("name");
        session.date_storage_buff = String::from("2030 Jan ");
        let frame = session.step_at(Event::Input(Key::Esc), &mut todo, 0);
        assert_eq!(session.state, State::Viewing);
        assert!(buffers_empty(&session));
        assert_eq!(todo.todo_len(), 1);
        assert_eq!(session.todo_items, "old");
        assert!(matches!(frame, Frame::Main { error: false, .. }));
        let _ = session.step_at(Event::Input(Key::Esc), &mut todo, 0);
        assert_eq!(session.state, State::Viewing);
        assert!(buffers_empty(&session));
    }
}

#[test]
fn backspace_removes_the_last_character() {
    let mut todo = TodoList::new();
    let mut session = Session::new(String::new());
    let _ = session.step_at(Event::Input(Key::Char('n')), &mut todo, 0);
    let _ = session.step_at(Event::Input(Key::Backspace), &mut todo, 0);
    assert_eq!(session.user_input_buffer, "");
    type_text(&mut session, &mut todo, "ab\u{2713}", 0);
    assert_eq!(session.user_input_buffer, "ab\u{2713}");
    let frame = session.step_at(Event::Input(Key::Backspace), &mut todo, 0);
    assert_eq!(session.user_input_buffer, "ab");
    assert_eq!(session.state, State::AddingTodo);
    match frame {
        Frame::Adding { panel } => assert_eq!(panel, " Task Name: ab\n "),
        _ => panic!("while a title is typed the adding screen is drawn"),
    }
}

#[test]
fn date_fields_come_in_order() {
    let mut todo = TodoList::new();
    let mut session = dated_session(AddState::EnteringName);
    let now: i64 = 1_000_000_000;
    type_text(&mut session, &mut todo, "Pay rent", now);
    let frame = enter(&mut session, &mut todo, now);
    assert_eq!(session.state, State::AddingTodoDate(AddState::EnteringDate(DateState::Year)));
    assert_eq!(session.name_storage_buff, "Pay rent");
    assert_eq!(session.user_input_buffer, "");
    match frame {
        Frame::Adding { panel } => {
            assert_eq!(panel, " Task Name: Pay rent\n Enter Year: \u{2588}\n ")
        },
        _ => panic!("while a date is typed the adding screen is drawn"),
    }
    type_text(&mut session, &mut todo, "2030", now);
    let _ = enter(&mut session, &mut todo, now);
    assert_eq!(session.state, State::AddingTodoDate(AddState::EnteringDate(DateState::Month)));
    assert_eq!(session.date_storage_buff, "2030 ");
    type_text(&mut session, &mut todo, "Mar", now);
    let _ = enter(&mut session, &mut todo, now);
    assert_eq!(session.state, State::AddingTodoDate(AddState::EnteringDate(DateState::Day)));
    assert_eq!(session.date_storage_buff, "2030 Mar ");
    type_text(&mut session, &mut todo, "05", now);
    let frame = enter(&mut session, &mut todo, now);
    assert_eq!(session.state, State::AddingTodoDate(AddState::EnteringDate(DateState::Time)));
    assert_eq!(session.date_storage_buff, "2030 Mar 05 ");
    assert_eq!(todo.todo_len(), 0);
    match frame {
        Frame::Adding { panel } => {
            assert_eq!(panel, " Task Name: Pay rent\n Enter Time: \u{2588}\n 2030 Mar 05 ")
        },
        _ => panic!("while a date is typed the adding screen is drawn"),
    }
    type_text(&mut session, &mut todo, "12:30:45", now);
    let frame = enter(&mut session, &mut todo, now);
    assert_eq!(session.state, State::Viewing);
    assert!(buffers_empty(&session));
    assert_eq!(todo.todo_len(), 1);
    assert_eq!(todo.todo_items[0].title, "Pay rent");
    assert_eq!(todo.todo_items[0].due_date, Some(1_898_944_245));
    assert!(!todo.todo_items[0].completed);
    assert!(matches!(frame, Frame::Main { error: false, .. }));
    assert_eq!(
        session.todo_items,
        "   Todo:\n   0 - Pay rent [ ] | Due: D:10404 H:10 M:44\n\n\n   Completed Todos:\n"
    );
}

#[test]
fn name_field_shows_the_cursor() {
    let mut todo = TodoList::new();
    let mut session = dated_session(AddState::EnteringName);
    let frame = session.step_at(Event::Input(Key::Char('P')), &mut todo, 0);
    match frame {
        Frame::Adding { panel } => assert_eq!(panel, " Task Name: P\u{2588}\n Enter Year: \n "),
        _ => panic!("while a title is typed the adding screen is drawn"),
    }
}

#[test]
fn past_date_is_refused_and_the_entry_lost() {
    let mut todo = TodoList::new();
    let mut session = dated_session(AddState::EnteringDate(DateState::Time));
    session.name_storage_buff = String::from("x");
    session.date_storage_buff = String::from("2001 Sep 09 ");
    session.todo_items = String::from("old");
    let now: i64 = 1_000_000_001;
    type_text(&mut session, &mut todo, "01:46:40", now);
    let frame = enter(&mut session, &mut todo, now);
    assert_eq!(todo.todo_len(), 0);
    assert_eq!(session.state, State::Viewing);
    assert!(buffers_empty(&session));
    assert_eq!(session.todo_items, "old");
    match frame {
        Frame::Main { command, error } => {
            assert_eq!(command, "Error: Invalid Date");
            assert!(error);
        },
        _ => panic!("a date in the past is reported on the main screen"),
    }
}

#[test]
fn date_equal_to_now_is_refused() {
    let mut todo = TodoList::new();
    let mut state = State::AddingTodoDate(AddState::EnteringDate(DateState::Time));
    let mut input = String::from("01:46:40");
    let mut name = String::from("x");
    let mut date = String::from("2001 Sep 09 ");
    let mut items = String::from("old");
    let r = match_buffer_submit(
        &mut state, &mut input, &mut name, &mut date, &mut todo, &mut items, 1_000_000_000,
    );
    assert_eq!(r, Err(ErrorKind::Unsupported));
    assert_eq!(todo.todo_len(), 0);
    let mut state = State::AddingTodoDate(AddState::EnteringDate(DateState::Time));
    let mut input = String::from("01:46:40");
    let mut name = String::from("x");
    let mut date = String::from("2001 Sep 09 ");
    let r = match_buffer_submit(
        &mut state, &mut input, &mut name, &mut date, &mut todo, &mut items, 999_999_999,
    );
    assert_eq!(r, Ok(()));
    assert_eq!(todo.todo_len(), 1);
    assert_eq!(todo.todo_items[0].due_date, Some(1_000_000_000));
}

#[test]
fn unreadable_date_is_refused() {
    let mut todo = TodoList::new();
    let mut session = dated_session(AddState::EnteringDate(DateState::Time));
    session.name_storage_buff = String::from("x");
    session.date_storage_buff = String::from("2030 March 05 ");
    type_text(&mut session, &mut todo, "noon", 0);
    let frame = enter(&mut session, &mut todo, 0);
    assert_eq!(todo.todo_len(), 0);
    assert_eq!(session.state, State::Viewing);
    assert!(buffers_empty(&session));
    assert!(matches!(frame, Frame::Main { error: true, .. }));
}

#[test]
fn completing_out_of_range_is_refused() {
    let texts: Vec<&str> = vec!["2", "3", "100", "x", "", "-1", "1 ", "99999999999999999999999999"];
    for text in texts {
        let mut todo = TodoList::new();
        let _ = todo.add_item("a");
        let _ = todo.add_item("b");
        let mut session = Session::new(String::from("old"));
        let _ = session.step_at(Event::Input(Key::Char('c')), &mut todo, 0);
        assert_eq!(session.state, State::CompletingTodo);
        type_text(&mut session, &mut todo, text, 0);
        let frame = enter(&mut session, &mut todo, 0);
        assert_eq!(todo.todo_len(), 2);
        assert_eq!(todo.completed_len(), 0);
        assert_eq!(session.state, State::Viewing);
        assert!(buffers_empty(&session));
        assert_eq!(session.todo_items, "old");
        match frame {
            Frame::Main { command, error } => {
                assert_eq!(command, "Error: Invalid Input");
                assert!(error);
            },
            _ => panic!("a bad index is reported on the main screen"),
        }
    }
}

#[test]
fn completing_and_uncompleting_by_index() {
    let mut todo = TodoList::new();
    let _ = todo.add_item("a");
    let _ = todo.add_item("b");
    let mut session = Session::new(String::new());
    let frame = session.step_at(Event::Input(Key::Char('c')), &mut todo, 0);
    match frame {
        Frame::Main { command, error } => {
            assert_eq!(command, "CompletingTask: ");
            assert!(!error);
        },
        _ => panic!("an index is typed on the main screen"),
    }
    let frame = session.step_at(Event::Input(Key::Char('1')), &mut todo, 0);
    match frame {
        Frame::Main { command, .. } => assert_eq!(command, "CompletingTask: 1"),
        _ => panic!("an index is typed on the main screen"),
    }
    let _ = enter(&mut session, &mut todo, 0);
    assert_eq!(session.state, State::Viewing);
    assert_eq!(todo.todo_len(), 1);
    assert_eq!(todo.completed_len(), 1);
    assert_eq!(todo.completed_items[0].title, "b");
    assert_eq!(
        session.todo_items,
        "   Todo:\n   0 - a [ ]\n\n\n   Completed Todos:\n   0 - b \u{2713}\n"
    );
    let frame = session.step_at(Event::Input(Key::Char('u')), &mut todo, 0);
    match frame {
        Frame::Main { command, .. } => assert_eq!(command, "UncompletingTask: "),
        _ => panic!("an index is typed on the main screen"),
    }
    type_text(&mut session, &mut todo, "1", 0);
    let frame = enter(&mut session, &mut todo, 0);
    assert!(matches!(frame, Frame::Main { error: true, .. }));
    assert_eq!(todo.completed_len(), 1);
    let _ = session.step_at(Event::Input(Key::Char('u')), &mut todo, 0);
    type_text(&mut session, &mut todo, "0", 0);
    let frame = enter(&mut session, &mut todo, 0);
    assert!(matches!(frame, Frame::Main { error: false, .. }));
    assert_eq!(todo.completed_len(), 0);
    assert_eq!(todo.todo_len(), 2);
    assert_eq!(todo.todo_items[1].title, "b");
    assert!(!todo.todo_items[1].completed);
}

#[test]
fn quit_ends_the_session_for_good() {
    let mut todo = TodoList::new();
    let mut session = Session::new(String::from("old"));
    let frame = session.step_at(Event::Input(Key::Char('q')), &mut todo, 0);
    assert_eq!(session.state, State::Quitting);
    assert!(matches!(frame, Frame::Quit));
    let events: Vec<Event<Key>> = vec![
        Event::Tick,
        Event::Input(Key::Char('n')),
        Event::Input(Key::Enter),
        Event::Input(Key::Esc),
        Event::Input(Key::Char('x')),
    ];
    for event in events {
        let frame = session.step_at(event, &mut todo, 0);
        assert_eq!(session.state, State::Quitting);
        assert!(matches!(frame, Frame::Quit));
        assert!(buffers_empty(&session));
        assert_eq!(todo.todo_len(), 0);
    }
}

#[test]
fn q_is_a_letter_while_a_title_is_typed() {
    let mut todo = TodoList::new();
    let mut session = Session::new(String::new());
    let _ = session.step_at(Event::Input(Key::Char('n')), &mut todo, 0);
    let _ = session.step_at(Event::Input(Key::Char('q')), &mut todo, 0);
    assert_eq!(session.state, State::AddingTodo);
    assert_eq!(session.user_input_buffer, "q");
}

#[test]
fn tick_and_unmapped_keys_draw_nothing() {
    let mut todo = TodoList::new();
    let mut session = Session::new(String::from("old"));
    assert!(matches!(session.step_at(Event::Tick, &mut todo, 0), Frame::Skip));
    assert!(matches!(session.step_at(Event::Input(Key::Char('z')), &mut todo, 0), Frame::Skip));
    assert!(matches!(session.step_at(Event::Input(Key::Enter), &mut todo, 0), Frame::Skip));
    assert!(matches!(session.step_at(Event::Input(Key::Other), &mut todo, 0), Frame::Skip));
    assert_eq!(session.state, State::Viewing);
    let _ = session.step_at(Event::Input(Key::Char('n')), &mut todo, 0);
    type_text(&mut session, &mut todo, "ab", 0);
    assert!(matches!(session.step_at(Event::Tick, &mut todo, 0), Frame::Skip));
    assert!(matches!(session.step_at(Event::Input(Key::Other), &mut todo, 0), Frame::Skip));
    assert_eq!(session.state, State::AddingTodo);
    assert_eq!(session.user_input_buffer, "ab");
}

#[test]
fn render_shows_the_mode() {
    let mut session = Session::new(String::new());
    match session.render() {
        Frame::Main { command, error } => {
            assert_eq!(command, "Command Mode");
            assert!(!error);
        },
        _ => panic!("while viewing the main screen is drawn"),
    }
    session.state = State::Quitting;
    assert!(matches!(session.render(), Frame::Quit));
    session.state = State::Error;
    session.user_input_buffer = String::from("left over");
    assert!(matches!(session.render(), Frame::Skip));
    assert_eq!(session.state, State::Viewing);
    assert!(buffers_empty(&session));
}

#[test]
fn step_reads_the_clock() {
    let mut todo = TodoList::new();
    let mut session = dated_session(AddState::EnteringDate(DateState::Time));
    session.name_storage_buff = String::from("far");
    session.date_storage_buff = String::from("2999 Jan 01 ");
    for c in "00:00:00".chars() {
        let _ = session.step(Event::Input(Key::Char(c)), &mut todo);
    }
    let frame = session.step(Event::Input(Key::Enter), &mut todo);
    assert!(matches!(frame, Frame::Main { error: false, .. }));
    assert_eq!(todo.todo_len(), 1);
    assert_eq!(todo.todo_items[0].due_date, Some(32_472_144_000));
    let mut session = dated_session(AddState::EnteringDate(DateState::Time));
    session.name_storage_buff = String::from("gone");
    session.date_storage_buff = String::from("2001 Sep 09 ");
    for c in "01:46:40".chars() {
        let _ = session.step(Event::Input(Key::Char(c)), &mut todo);
    }
    let frame = session.step(Event::Input(Key::Enter), &mut todo);
    assert!(matches!(frame, Frame::Main { error: true, .. }));
    assert_eq!(todo.todo_len(), 1);
}

#[test]
fn swap_buffers_copies_the_field() {
    let mut storage = String::from("old");
    assert_eq!(swap_buffers("new", &mut storage), Ok(()));
    assert_eq!(storage, "new");
    assert_eq!(swap_buffers("", &mut storage), Ok(()));
    assert_eq!(storage, "");
}

#[test]
fn submit_buffer_adds_by_mode() {
    let mut todo = TodoList::new();
    assert_eq!(submit_buffer(&State::AddingTodo, "a", "", &mut todo, 0), Ok(()));
    assert_eq!(submit_buffer(&State::AddingTodo, "", "", &mut todo, 0), Err(ErrorKind::InvalidInput));
    assert_eq!(
        submit_buffer(&State::AddingTodoDate(AddState::EnteringName), "b", "", &mut todo, 0),
        Ok(())
    );
    assert_eq!(
        submit_buffer(
            &State::AddingTodoDate(AddState::EnteringDate(DateState::Time)),
            "c",
            "2030 Mar 05 12:30:45",
            &mut todo,
            0
        ),
        Ok(())
    );
    assert_eq!(
        submit_buffer(
            &State::AddingTodoDate(AddState::EnteringDate(DateState::Time)),
            "d",
            "2030 Mar 05 12:30:45",
            &mut todo,
            1_898_944_245
        ),
        Err(ErrorKind::Unsupported)
    );
    assert_eq!(submit_buffer(&State::Viewing, "e", "", &mut todo, 0), Err(ErrorKind::InvalidInput));
    assert_eq!(
        submit_buffer(&State::CompletingTodo, "e", "", &mut todo, 0),
        Err(ErrorKind::InvalidInput)
    );
    assert_eq!(todo.todo_len(), 3);
    assert_eq!(todo.todo_items[0].title, "a");
    assert_eq!(todo.todo_items[1].title, "b");
    assert_eq!(todo.todo_items[2].title, "c");
    assert_eq!(todo.todo_items[2].due_date, Some(1_898_944_245));
}

#[test]
fn submit_command_always_returns_to_viewing() {
    let mut todo = TodoList::new();
    let _ = todo.add_item("a");
    let mut state = State::CompletingTodo;
    assert_eq!(submit_command(&mut state, "x", &mut todo), Err(ErrorKind::InvalidInput));
    assert_eq!(state, State::Viewing);
    let mut state = State::CompletingTodo;
    assert_eq!(submit_command(&mut state, "1", &mut todo), Err(ErrorKind::InvalidInput));
    assert_eq!(state, State::Viewing);
    let mut state = State::CompletingTodo;
    assert_eq!(submit_command(&mut state, "0", &mut todo), Ok(()));
    assert_eq!(state, State::Viewing);
    assert_eq!(todo.completed_len(), 1);
    let mut state = State::UncompletingTodo;
    assert_eq!(submit_command(&mut state, "+0", &mut todo), Ok(()));
    assert_eq!(state, State::Viewing);
    assert_eq!(todo.completed_len(), 0);
    let mut state = State::AddingTodo;
    assert_eq!(submit_command(&mut state, "0", &mut todo), Ok(()));
    assert_eq!(state, State::Viewing);
    assert_eq!(todo.todo_len(), 1);
}

#[test]
fn manipulate_buffer_does_nothing_at_rest() {
    let rests: Vec<State> = vec![State::Viewing, State::Quitting];
    let actions: Vec<BufferAction> = vec![
        BufferAction::Input('x'),
        BufferAction::Backspace,
        BufferAction::SubmitBuffer,
        BufferAction::ExitBuffer,
    ];
    for rest in rests {
        for action in actions.iter() {
            let mut todo = TodoList::new();
            let mut state = rest;
            let mut input = String::from("i");
            let mut name = String::from("n");
            let mut date = String::from("d");
            let mut items = String::from("t");
            let r = manipulate_buffer(
                &mut state, *action, &mut input, &mut name, &mut date, &mut todo, &mut items, 0,
            );
            assert_eq!(r, Ok(()));
            assert_eq!(state, rest);
            assert_eq!(input, "i");
            assert_eq!(name, "n");
            assert_eq!(date, "d");
            assert_eq!(items, "t");
            assert_eq!(todo.todo_len(), 0);
        }
    }
}
