use todo_tui::error::ErrorKind;
use todo_tui::parsing_handler::{
    command_word, handle_command, parse, tokenize, Command, UserCommand,
};
use todo_tui::tui_handler::{AddState, State};

#[test]
fn command_word_knows_five_words() {
    assert_eq!(command_word("AddTask"), Some(UserCommand::AddTask));
    assert_eq!(command_word("AddTaskDate"), Some(UserCommand::AddTaskDate));
    assert_eq!(command_word("CompleteTask"), Some(UserCommand::CompleteTask));
    assert_eq!(command_word("UncompleteTask"), Some(UserCommand::UncompleteTask));
    assert_eq!(command_word("Quit"), Some(UserCommand::Quit));
    assert_eq!(command_word("quit"), None);
    assert_eq!(command_word(""), None);
    assert_eq!(command_word("AddTask "), None);
}

#[test]
fn parse_reads_a_command_alone() {
    let cmd: Command = parse("Quit").unwrap();
    assert_eq!(cmd.command, UserCommand::Quit);
    assert_eq!(cmd.index, None);
    let cmd: Command = parse("AddTaskDate").unwrap();
    assert_eq!(cmd.command, UserCommand::AddTaskDate);
    assert_eq!(cmd.index, None);
}

#[test]
fn parse_reads_a_command_with_an_index() {
    let cmd: Command = parse("CompleteTask 3").unwrap();
    assert_eq!(cmd.command, UserCommand::CompleteTask);
    assert_eq!(cmd.index, Some(3));
    let cmd: Command = parse("UncompleteTask 0").unwrap();
    assert_eq!(cmd.command, UserCommand::UncompleteTask);
    assert_eq!(cmd.index, Some(0));
}

#[test]
fn parse_does_not_read_beyond_the_second_word() {
    let cmd: Command = parse("CompleteTask 3 x y").unwrap();
    assert_eq!(cmd.command, UserCommand::CompleteTask);
    assert_eq!(cmd.index, Some(3));
}

#[test]
fn parse_refuses_an_unknown_word() {
    assert_eq!(parse("").err(), Some(ErrorKind::NotFound));
    assert_eq!(parse("Nope").err(), Some(ErrorKind::NotFound));
    assert_eq!(parse(" Quit").err(), Some(ErrorKind::NotFound));
    assert_eq!(parse("Nope x").err(), Some(ErrorKind::NotFound));
}

#[test]
fn parse_refuses_a_second_word_that_is_no_index() {
    assert_eq!(parse("CompleteTask x").err(), Some(ErrorKind::InvalidInput));
    assert_eq!(parse("CompleteTask -1").err(), Some(ErrorKind::InvalidInput));
    assert_eq!(parse("Quit ").err(), Some(ErrorKind::InvalidInput));
    assert_eq!(parse("CompleteTask  3").err(), Some(ErrorKind::InvalidInput));
}

#[test]
fn handle_command_gives_the_mode() {
    assert_eq!(
        handle_command(Command { command: UserCommand::AddTask, index: None }),
        Ok(State::AddingTodo)
    );
    assert_eq!(
        handle_command(Command { command: UserCommand::AddTaskDate, index: Some(1) }),
        Ok(State::AddingTodoDate(AddState::EnteringName))
    );
    assert_eq!(
        handle_command(Command { command: UserCommand::CompleteTask, index: Some(1) }),
        Ok(State::CompletingTodo)
    );
    assert_eq!(
        handle_command(Command { command: UserCommand::UncompleteTask, index: None }),
        Ok(State::UncompletingTodo)
    );
    assert_eq!(
        handle_command(Command { command: UserCommand::Quit, index: None }),
        Ok(State::Quitting)
    );
}

#[test]
fn tokenize_splits_at_every_space() {
    assert_eq!(tokenize(""), vec![""]);
    assert_eq!(tokenize("Quit"), vec!["Quit"]);
    assert_eq!(tokenize("CompleteTask 3"), vec!["CompleteTask", "3"]);
    assert_eq!(tokenize("a  b"), vec!["a", "", "b"]);
    assert_eq!(tokenize(" a "), vec!["", "a", ""]);
    assert_eq!(tokenize(" "), vec!["", ""]);
    assert_eq!(tokenize("\u{2713} x\ty"), vec!["\u{2713}", "x\ty"]);
}

#[test]
fn tokenize_agrees_with_the_standard_library() {
    let lines: Vec<&str> = vec!["", " ", "a", "a b", "a  b ", "  ", "AddTask 1 2 3", "\u{e9}t\u{e9} \u{2713}"];
    for line in lines {
        let expected: Vec<&str> = line.split(" ").collect();
        assert_eq!(tokenize(line), expected);
        assert_eq!(tokenize(line).join(" "), line);
    }
}
