use crate::error::ErrorKind;
use crate::text::{chars_of, parse_index, parsed_index, str_eq};
use crate::tui_handler::{AddState, State};
use vstd::prelude::*;
use vstd::string::*;

verus! {

/// The commands that can be typed as a word.
#[derive(Clone, Copy, Debug, PartialEq, Eq, Structural)]
pub enum UserCommand {
    AddTask,
    AddTaskDate,
    CompleteTask,
    UncompleteTask,
    Quit,
}

/// A command with the index that was typed behind it, if one was.
#[derive(Debug)]
pub struct Command {
    pub command: UserCommand,
    pub index: Option<usize>,
}

/// The words of a line: a space ends one word and begins the next, so a line
/// with `n` spaces has `n + 1` words, some of them perhaps empty.
pub open spec fn split_spaces(s: Seq<char>) -> Seq<Seq<char>>
    decreases s.len(),
{
    if s.len() == 0 {
        seq![Seq::<char>::empty()]
    } else {
        let before = split_spaces(s.drop_last());
        if s.last() == ' ' {
            before.push(Seq::<char>::empty())
        } else {
            before.drop_last().push(before.last().push(s.last()))
        }
    }
}

/// Words put together again, with one space between neighbours.
pub open spec fn join_spaces(words: Seq<Seq<char>>) -> Seq<char>
    decreases words.len(),
{
    if words.len() == 0 {
        Seq::<char>::empty()
    } else if words.len() == 1 {
        words[0]
    } else {
        join_spaces(words.drop_last()) + seq![' '] + words.last()
    }
}

/// Splitting loses nothing: no word holds a space, and the words joined by
/// spaces are the line again.
pub proof fn lemma_split_spaces_joins_back(s: Seq<char>)
    ensures
        split_spaces(s).len() >= 1,
        forall|k: int, j: int|
            0 <= k < split_spaces(s).len() && 0 <= j < split_spaces(s)[k].len()
                ==> #[trigger] split_spaces(s)[k][j] != ' ',
        join_spaces(split_spaces(s)) == s,
    decreases s.len(),
{
    if s.len() == 0 {
        assert(join_spaces(split_spaces(s)) =~= s);
    } else {
        let before = split_spaces(s.drop_last());
        lemma_split_spaces_joins_back(s.drop_last());
        if s.last() == ' ' {
            let words = before.push(Seq::<char>::empty());
            assert(words.drop_last() == before);
            assert(join_spaces(words) =~= s.drop_last().push(' '));
            assert(s.drop_last().push(' ') =~= s);
        } else {
            let words = before.drop_last().push(before.last().push(s.last()));
            assert(words.drop_last() == before.drop_last());
            if before.len() == 1 {
                assert(join_spaces(words) =~= before[0].push(s.last()));
            } else {
                assert(join_spaces(words) =~= join_spaces(before).push(s.last()));
            }
            assert(s.drop_last().push(s.last()) =~= s);
        }
    }
}

/// The texts of a run of words.
pub open spec fn token_views(tokens: Seq<&str>) -> Seq<Seq<char>> {
    tokens.map_values(|t: &str| t@)
}

/// A line always has a first word, and its last word is what follows the
/// last space.
pub proof fn lemma_split_spaces_last(s: Seq<char>, start: int)
    requires
        0 <= start <= s.len(),
        start == 0 || s[start - 1] == ' ',
        forall|k: int| start <= k < s.len() ==> s[k] != ' ',
    ensures
        split_spaces(s).len() >= 1,
        split_spaces(s).last() == s.subrange(start, s.len() as int),
    decreases s.len(),
{
    if s.len() == 0 {
        assert(s.subrange(start, s.len() as int) =~= Seq::<char>::empty());
    } else if start == s.len() {
        assert(s.subrange(start, s.len() as int) =~= Seq::<char>::empty());
        lemma_split_spaces_nonempty(s.drop_last());
    } else {
        lemma_split_spaces_last(s.drop_last(), start);
        assert(s.subrange(start, s.len() as int) =~= s.drop_last().subrange(
            start,
            s.len() - 1,
        ).push(s.last()));
    }
}

/// A line always has a first word.
pub proof fn lemma_split_spaces_nonempty(s: Seq<char>)
    ensures
        split_spaces(s).len() >= 1,
    decreases s.len(),
{
    if s.len() > 0 {
        lemma_split_spaces_nonempty(s.drop_last());
    }
}

/// The words of a line of input.
pub fn tokenize<'a>(user_input: &'a str) -> (tokens: Vec<&'a str>)
    ensures
        token_views(tokens@) == split_spaces(user_input@),
{
    let chars = chars_of(user_input);
    let mut tokens: Vec<&'a str> = Vec::new();
    let mut start: usize = 0;
    let mut i: usize = 0;
    while i < chars.len()
        invariant
            chars@ == user_input@,
            start <= i <= chars.len(),
            start == 0 || chars@[start - 1] == ' ',
            forall|k: int| start <= k < i ==> chars@[k] != ' ',
            token_views(tokens@) == split_spaces(chars@.take(i as int)).drop_last(),
        decreases chars.len() - i,
    {
        let ghost read = chars@.take(i as int);
        let ghost next = chars@.take(i + 1);
        let ghost before = tokens@;
        proof {
            lemma_split_spaces_last(read, start as int);
            assert(next.drop_last() == read);
            assert(next.last() == chars@[i as int]);
            assert(read.subrange(start as int, i as int) == user_input@.subrange(
                start as int,
                i as int,
            ));
            assert(split_spaces(read) =~= split_spaces(read).drop_last().push(
                split_spaces(read).last(),
            ));
        }
        if chars[i] == ' ' {
            let token = user_input.substring_char(start, i);
            tokens.push(token);
            start = i + 1;
            proof {
                assert(split_spaces(next) == split_spaces(read).push(Seq::<char>::empty()));
                assert(token_views(tokens@) =~= token_views(before).push(token@));
                assert(token_views(tokens@) =~= split_spaces(next).drop_last());
            }
        } else {
            proof {
                assert(split_spaces(next) == split_spaces(read).drop_last().push(
                    split_spaces(read).last().push(chars@[i as int]),
                ));
                assert(token_views(tokens@) =~= split_spaces(next).drop_last());
            }
        }
        i += 1;
    }
    let ghost before = tokens@;
    proof {
        assert(chars@.take(i as int) == chars@);
        lemma_split_spaces_last(chars@, start as int);
        assert(split_spaces(chars@) =~= split_spaces(chars@).drop_last().push(
            split_spaces(chars@).last(),
        ));
    }
    let token = user_input.substring_char(start, i);
    tokens.push(token);
    assert(token_views(tokens@) =~= token_views(before).push(token@));
    tokens
}

/// The command that a word names.
pub open spec fn spec_command_word(word: Seq<char>) -> Option<UserCommand> {
    if word == "AddTask"@ {
        Some(UserCommand::AddTask)
    } else if word == "AddTaskDate"@ {
        Some(UserCommand::AddTaskDate)
    } else if word == "CompleteTask"@ {
        Some(UserCommand::CompleteTask)
    } else if word == "UncompleteTask"@ {
        Some(UserCommand::UncompleteTask)
    } else if word == "Quit"@ {
        Some(UserCommand::Quit)
    } else {
        None
    }
}

/// The command that a word names.
pub fn command_word(word: &str) -> (r: Option<UserCommand>)
    ensures
        r == spec_command_word(word@),
{
    if str_eq(word, "AddTask") {
        Some(UserCommand::AddTask)
    } else if str_eq(word, "AddTaskDate") {
        Some(UserCommand::AddTaskDate)
    } else if str_eq(word, "CompleteTask") {
        Some(UserCommand::CompleteTask)
    } else if str_eq(word, "UncompleteTask") {
        Some(UserCommand::UncompleteTask)
    } else if str_eq(word, "Quit") {
        Some(UserCommand::Quit)
    } else {
        None
    }
}

/// What a line of input means: its first word must name a command, and its
/// second word, where there is one, must be an index. Further words are not
/// read.
pub open spec fn spec_parse(user_input: Seq<char>) -> Result<(UserCommand, Option<usize>), ErrorKind> {
    let tokens = split_spaces(user_input);
    match spec_command_word(tokens[0]) {
        None => Err(ErrorKind::NotFound),
        Some(command) => if tokens.len() > 1 {
            match parsed_index(tokens[1]) {
                Some(index) => Ok((command, Some(index))),
                None => Err(ErrorKind::InvalidInput),
            }
        } else {
            Ok((command, None))
        },
    }
}

/// Reads a line of input as a command.
pub fn parse(user_input: &str) -> (r: Result<Command, ErrorKind>)
    ensures
        match r {
            Ok(cmd) => spec_parse(user_input@) == Ok::<(UserCommand, Option<usize>), ErrorKind>(
                (cmd.command, cmd.index),
            ),
            Err(e) => spec_parse(user_input@) == Err::<(UserCommand, Option<usize>), ErrorKind>(e),
        },
{
    let tokens = tokenize(user_input);
    proof {
        lemma_split_spaces_nonempty(user_input@);
        assert(token_views(tokens@).len() == tokens@.len());
        assert(token_views(tokens@)[0] == tokens@[0]@);
    }
    let command = match command_word(tokens[0]) {
        Some(r) => r,
        None => {
            return Err(ErrorKind::NotFound);
        },
    };
    let index;
    if tokens.len() > 1 {
        assert(token_views(tokens@)[1] == tokens@[1]@);
        let parsed_num = match parse_index(tokens[1]) {
            Some(r) => r,
            None => {
                return Err(ErrorKind::InvalidInput);
            },
        };
        index = Some(parsed_num);
    } else {
        index = None;
    }
    Ok(Command { command, index })
}

/// The mode that a command leads to.
pub open spec fn spec_handle_command(command: UserCommand) -> State {
    match command {
        UserCommand::AddTask => State::AddingTodo,
        UserCommand::AddTaskDate => State::AddingTodoDate(AddState::EnteringName),
        UserCommand::CompleteTask => State::CompletingTodo,
        UserCommand::UncompleteTask => State::UncompletingTodo,
        UserCommand::Quit => State::Quitting,
    }
}

/// The mode that a command leads to.
pub fn handle_command(cmd: Command) -> (r: Result<State, ErrorKind>)
    ensures
        r == Ok::<State, ErrorKind>(spec_handle_command(cmd.command)),
{
    match cmd.command {
        UserCommand::AddTask => Ok(State::AddingTodo),
        UserCommand::AddTaskDate => Ok(State::AddingTodoDate(AddState::EnteringName)),
        UserCommand::CompleteTask => Ok(State::CompletingTodo),
        UserCommand::UncompleteTask => Ok(State::UncompletingTodo),
        UserCommand::Quit => Ok(State::Quitting),
    }
}

} // verus!
