//! The commands, the words that call for them, and the menu that offers them.

use vstd::prelude::*;
use crate::text::same_text;

verus! {

/// What the user can ask for. `Continue` asks for nothing.
#[derive(Debug, Clone, Copy, PartialEq, Eq, Structural)]
pub enum Command {
    Add,
    Print,
    Exit,
    Check,
    Remove,
    Continue,
}

/// The command that the word `token` calls for. A word that calls for none gives `Continue`.
pub open spec fn command_of(token: Seq<char>) -> Command {
    if token == "add"@ || token == "a"@ {
        Command::Add
    } else if token == "check"@ || token == "c"@ || token == "uncheck"@ || token == "u"@ {
        Command::Check
    } else if token == "remove"@ || token == "r"@ {
        Command::Remove
    } else if token == "print"@ || token == "p"@ {
        Command::Print
    } else if token == "exit"@ || token == "e"@ {
        Command::Exit
    } else {
        Command::Continue
    }
}

/// The command that is resolved from what was entered, if anything was.
pub open spec fn resolved(entered: Option<Seq<char>>) -> Command {
    match entered {
        Some(token) => command_of(token),
        None => Command::Continue,
    }
}

/// What is said of a word that calls for no command.
pub open spec fn unknown_notice(token: Seq<char>) -> Seq<char> {
    "No Command called "@ + token + "\n"@
}

/// What resolving says: nothing, but for a word that calls for no command.
pub open spec fn resolve_notice(entered: Option<Seq<char>>) -> Seq<char> {
    match entered {
        Some(token) if command_of(token) == Command::Continue => unknown_notice(token),
        _ => Seq::empty(),
    }
}

/// How the menu names a command.
pub open spec fn label(command: Command) -> Seq<char>
    recommends
        command != Command::Continue,
{
    match command {
        Command::Add => "(a)dd"@,
        Command::Print => "(p)rint"@,
        Command::Exit => "(e)xit"@,
        Command::Check => "(c)heck/uncheck"@,
        _ => "(r)emove"@,
    }
}

/// The line of the menu that offers a command.
pub open spec fn option_line(command: Command) -> Seq<char> {
    " - "@ + label(command) + "\n"@
}

/// The menu: a heading, the five commands in the order in which they are offered,
/// and three empty lines.
pub open spec fn menu() -> Seq<char> {
    "Enter command: \n"@ + "OPTIONS: \n"@ + option_line(Command::Add) + option_line(Command::Check)
        + option_line(Command::Remove) + option_line(Command::Print) + option_line(Command::Exit)
        + "\n"@ + "\n\n"@
}

/// Resolves what was entered to a command.
pub fn get_command(command_str: Option<&str>) -> (command: Command)
    ensures
        command == resolved(command_str.deep_view()),
{
    match command_str {
        Some(token) => {
            if same_text(token, "add") || same_text(token, "a") {
                Command::Add
            } else if same_text(token, "check") || same_text(token, "c") || same_text(
                token,
                "uncheck",
            ) || same_text(token, "u") {
                Command::Check
            } else if same_text(token, "remove") || same_text(token, "r") {
                Command::Remove
            } else if same_text(token, "print") || same_text(token, "p") {
                Command::Print
            } else if same_text(token, "exit") || same_text(token, "e") {
                Command::Exit
            } else {
                Command::Continue
            }
        },
        None => Command::Continue,
    }
}

/// The name of a command in the menu. `Continue` is never offered and has none.
pub fn get_command_string(command: Command) -> (text: String)
    requires
        command != Command::Continue,
    ensures
        text@ == label(command),
{
    match command {
        Command::Add => String::from_str("(a)dd"),
        Command::Print => String::from_str("(p)rint"),
        Command::Exit => String::from_str("(e)xit"),
        Command::Check => String::from_str("(c)heck/uncheck"),
        _ => String::from_str("(r)emove"),
    }
}

/// Adds the line that offers `command` to `text`.
fn append_option(text: &mut String, command: Command)
    requires
        command != Command::Continue,
    ensures
        final(text)@ == old(text)@ + option_line(command),
{
    text.append(" - ");
    text.append(get_command_string(command).as_str());
    text.append("\n");
    assert(text@ =~= old(text)@ + option_line(command));
}

/// The text that asks for the next command.
pub fn get_new_command() -> (text: String)
    ensures
        text@ == menu(),
{
    let mut text = String::from_str("Enter command: \n");
    text.append("OPTIONS: \n");
    append_option(&mut text, Command::Add);
    append_option(&mut text, Command::Check);
    append_option(&mut text, Command::Remove);
    append_option(&mut text, Command::Print);
    append_option(&mut text, Command::Exit);
    text.append("\n");
    text.append("\n\n");
    text
}

/// The four words that call for `Check`, whichever way the mark is to be turned.
pub proof fn lemma_check_words()
    ensures
        command_of("check"@) == Command::Check,
        command_of("c"@) == Command::Check,
        command_of("uncheck"@) == Command::Check,
        command_of("u"@) == Command::Check,
{
    reveal_strlit("add");
    reveal_strlit("a");
    reveal_strlit("check");
    reveal_strlit("c");
    reveal_strlit("uncheck");
    reveal_strlit("u");
    assert("add"@.len() == 3 && "a"@.len() == 1 && "a"@[0] == 'a');
    assert("check"@.len() == 5 && "c"@.len() == 1 && "c"@[0] == 'c');
    assert("uncheck"@.len() == 7 && "u"@.len() == 1 && "u"@[0] == 'u');
}

} // verus!
