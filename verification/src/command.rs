//! The slash commands that are understood in every state after verification.

use crate::strings::{
    after, before, collect_chars, eq_ignore_ascii_case, find_first, lemma_split_at_first,
    range_eq_ignore_ascii_case,
};
use vstd::prelude::*;

verus! {

/// The three commands as they are written.
pub const START_COMMAND: &'static str = "/start";

pub const ADD_COMMAND: &'static str = "/add";

pub const RESET_COMMAND: &'static str = "/reset";

/// A command addressed to the bot.
#[derive(Clone, Copy, Debug, PartialEq, Eq, Structural)]
pub enum Command {
    /// `/start`: show the help text.
    Start,
    /// `/add`: ask for media.
    Add,
    /// `/reset`: drop what was collected and ask for media.
    Reset,
}

/// Why a text is not a command for this bot.
#[derive(Clone, Debug, PartialEq, Eq)]
pub enum ParseError {
    /// The command is addressed, with `@`, to a bot of another name.
    WrongBotName(String),
    /// The first word is none of the commands.
    UnknownCommand(String),
}

/// [`ParseError`] as the contracts see it.
pub enum ParseErrorView {
    WrongBotName(Seq<char>),
    UnknownCommand(Seq<char>),
}

impl View for ParseError {
    type V = ParseErrorView;

    open spec fn view(&self) -> ParseErrorView {
        match self {
            ParseError::WrongBotName(name) => ParseErrorView::WrongBotName(name@),
            ParseError::UnknownCommand(name) => ParseErrorView::UnknownCommand(name@),
        }
    }
}

/// The first word of `text`: everything before its first space.
pub open spec fn command_word(text: Seq<char>) -> Seq<char> {
    before(text, ' ')
}

/// The part of the first word that names the command: everything before its first `@`.
pub open spec fn command_name(text: Seq<char>) -> Seq<char> {
    before(command_word(text), '@')
}

/// The bot that the first word is addressed to: what stands between its first
/// `@` and its second, or its end.
pub open spec fn addressee(text: Seq<char>) -> Option<Seq<char>> {
    match after(command_word(text), '@') {
        Some(rest) => Some(before(rest, '@')),
        None => None,
    }
}

/// The command that `name` spells, the case of ASCII letters aside.
pub open spec fn recognize(name: Seq<char>) -> Option<Command> {
    if eq_ignore_ascii_case(name, START_COMMAND@) {
        Some(Command::Start)
    } else if eq_ignore_ascii_case(name, ADD_COMMAND@) {
        Some(Command::Add)
    } else if eq_ignore_ascii_case(name, RESET_COMMAND@) {
        Some(Command::Reset)
    } else {
        None
    }
}

/// What `text` means as a command to the bot named `bot_name`.
///
/// Only the first word counts. An addressee other than `bot_name` (compared
/// without regard to the case of ASCII letters) is refused before the command
/// name is looked at.
pub open spec fn parsed(text: Seq<char>, bot_name: Seq<char>) -> Result<Command, ParseErrorView> {
    match addressee(text) {
        Some(name) if !eq_ignore_ascii_case(name, bot_name) => Err(
            ParseErrorView::WrongBotName(name),
        ),
        _ => match recognize(command_name(text)) {
            Some(command) => Ok(command),
            None => Err(ParseErrorView::UnknownCommand(command_name(text))),
        },
    }
}

/// The outcome of [`Command::parse`] as the contracts see it.
pub open spec fn result_view(r: Result<Command, ParseError>) -> Result<Command, ParseErrorView> {
    match r {
        Ok(command) => Ok(command),
        Err(e) => Err(e@),
    }
}

/// A text without a space and without `@` is its own command name, addressed to nobody.
pub proof fn lemma_bare_word(text: Seq<char>)
    requires
        !text.contains(' '),
        !text.contains('@'),
    ensures
        command_name(text) == text,
        addressee(text) is None,
{
    text.index_of_first_ensures(' ');
    text.index_of_first_ensures('@');
}

fn recognize_range(chars: &Vec<char>, to: usize) -> (r: Option<Command>)
    requires
        to <= chars.len(),
    ensures
        r == recognize(chars@.subrange(0, to as int)),
{
    let start = collect_chars(START_COMMAND);
    let add = collect_chars(ADD_COMMAND);
    let reset = collect_chars(RESET_COMMAND);
    if range_eq_ignore_ascii_case(chars, 0, to, &start) {
        Some(Command::Start)
    } else if range_eq_ignore_ascii_case(chars, 0, to, &add) {
        Some(Command::Add)
    } else if range_eq_ignore_ascii_case(chars, 0, to, &reset) {
        Some(Command::Reset)
    } else {
        None
    }
}

impl Command {
    /// Reads `text` as a command to the bot named `bot_name`.
    pub fn parse(text: &str, bot_name: &str) -> (r: Result<Command, ParseError>)
        ensures
            result_view(r) == parsed(text@, bot_name@),
    {
        let chars = collect_chars(text);
        let bot = collect_chars(bot_name);
        let end = find_first(&chars, 0, chars.len(), ' ');
        let at = find_first(&chars, 0, end, '@');
        let ghost word = chars@.subrange(0, end as int);
        proof {
            assert(chars@.subrange(0, chars.len() as int) == chars@);
            lemma_split_at_first(text@, ' ', end as int);
            lemma_split_at_first(word, '@', at as int);
        }
        assert(command_name(text@) == chars@.subrange(0, at as int));
        if at < end {
            let stop = find_first(&chars, at + 1, end, '@');
            let ghost rest = chars@.subrange(at + 1, end as int);
            let ghost name = chars@.subrange(at + 1, stop as int);
            proof {
                assert(word.subrange(at + 1, word.len() as int) == rest);
                lemma_split_at_first(rest, '@', stop - (at + 1));
            }
            assert(addressee(text@) == Some(name));
            if !range_eq_ignore_ascii_case(&chars, at + 1, stop, &bot) {
                let other = text.substring_char(at + 1, stop).to_owned();
                return Err(ParseError::WrongBotName(other));
            }
        }
        match recognize_range(&chars, at) {
            Some(command) => Ok(command),
            None => {
                let name = text.substring_char(0, at).to_owned();
                Err(ParseError::UnknownCommand(name))
            },
        }
    }
}

} // verus!
