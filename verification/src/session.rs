//! One session at the terminal, step by step: each step says what is shown and what comes next.
//! Whoever runs the session shows the text, does what the stage asks for, and takes the next step.

use vstd::prelude::*;
use crate::command::{
    command_of, get_command, resolve_notice, resolved, unknown_notice, Command,
};
use crate::item::{Item, ItemView};
use crate::list::{
    add_todo, added, check_todo, checked, get_operation_index, lemma_added_appends, listing,
    picked, print_todo, remove_todo, removed, toggled,
};

verus! {

/// The status with which the program leaves when the session ends.
pub const EXIT_STATUS: i32 = 1;

/// What a line from the user is awaited for.
#[derive(Debug, Clone, Copy, PartialEq, Eq, Structural)]
pub enum Awaited {
    /// The name of the entry to add.
    Name,
    /// The index of the entry whose mark is turned over.
    CheckIndex,
    /// The index of the entry to take out.
    RemoveIndex,
}

/// What comes next in a session.
#[derive(Debug, Clone, Copy, PartialEq, Eq, Structural)]
pub enum Stage {
    /// The stored list is loaded, and the command is dispatched on it.
    Dispatch(Command),
    /// A line is read, and the answer is given with it.
    Input(Awaited),
    /// The list is stored, the menu is shown, a line is read and resolved to a command.
    Menu,
    /// The session ends: nothing more is stored, and the program leaves with `EXIT_STATUS`.
    Exit,
}

/// One step of a session: the text to show, then what comes next.
pub struct Step {
    pub output: String,
    pub stage: Stage,
}

/// What a `Step` stands for in contracts.
pub struct StepView {
    pub output: Seq<char>,
    pub stage: Stage,
}

impl View for Step {
    type V = StepView;

    open spec fn view(&self) -> StepView {
        StepView { output: self.output@, stage: self.stage }
    }
}

/// The text that clears the screen and sends the cursor home.
pub open spec fn clear() -> Seq<char> {
    "\u{1b}[2J\u{1b}[1;1H"@
}

/// The step that resolves what was entered: it says so where the word calls for no command,
/// and goes on to dispatch the command.
pub open spec fn entered_step(entered: Option<Seq<char>>) -> StepView {
    StepView { output: resolve_notice(entered), stage: Stage::Dispatch(resolved(entered)) }
}

/// The step that asks which entry is meant, or shows the empty list and asks nothing.
pub open spec fn pick_step(items: Seq<ItemView>, awaited: Awaited) -> StepView {
    if items.len() == 0 {
        StepView { output: clear() + listing(items, false), stage: Stage::Menu }
    } else {
        StepView {
            output: clear() + "Which one?\n"@ + listing(items, true),
            stage: Stage::Input(awaited),
        }
    }
}

/// The step that dispatches `command` on the list `items`.
pub open spec fn dispatched(command: Command, items: Seq<ItemView>) -> StepView {
    match command {
        Command::Add => StepView {
            output: clear() + "What's the Todo's name?\n"@,
            stage: Stage::Input(Awaited::Name),
        },
        Command::Check => pick_step(items, Awaited::CheckIndex),
        Command::Remove => pick_step(items, Awaited::RemoveIndex),
        Command::Print => StepView { output: clear() + listing(items, false), stage: Stage::Menu },
        Command::Exit => StepView { output: clear(), stage: Stage::Exit },
        Command::Continue => StepView { output: clear(), stage: Stage::Menu },
    }
}

/// The list after the line `line` has answered what was awaited.
/// A line that picks no entry leaves the list as it is.
pub open spec fn answered_list(awaited: Awaited, items: Seq<ItemView>, line: Seq<char>) -> Seq<
    ItemView,
> {
    match awaited {
        Awaited::Name => added(items, line),
        Awaited::CheckIndex => match picked(items.len(), line) {
            Some(index) => checked(items, index as int),
            None => items,
        },
        Awaited::RemoveIndex => match picked(items.len(), line) {
            Some(index) => removed(items, index as int),
            None => items,
        },
    }
}

/// Whether the line `line` answers what was awaited: any line names an entry,
/// but only one that picks an entry of the list gives an index.
pub open spec fn answers(awaited: Awaited, items: Seq<ItemView>, line: Seq<char>) -> bool {
    awaited == Awaited::Name || picked(items.len(), line) is Some
}

/// The step that takes the line `line` as the answer: the changed list is shown,
/// or the line is refused and another one awaited.
pub open spec fn answered(awaited: Awaited, items: Seq<ItemView>, line: Seq<char>) -> StepView {
    if answers(awaited, items, line) {
        StepView {
            output: "\n\n"@ + clear() + listing(answered_list(awaited, items, line), false),
            stage: Stage::Menu,
        }
    } else {
        StepView { output: "\nInvalid input. Try again\n"@, stage: Stage::Input(awaited) }
    }
}

/// The text that clears the screen.
pub fn clear_screen() -> (text: String)
    ensures
        text@ == clear(),
{
    String::from_str("\u{1b}[2J\u{1b}[1;1H")
}

/// Resolves what was entered, at the start or at the menu, and goes on to dispatch.
pub fn resolve_command(entered: Option<&str>) -> (step: Step)
    ensures
        step@ == entered_step(entered.deep_view()),
{
    let command = get_command(entered);
    let mut output = String::new();
    match entered {
        Some(token) => {
            if command == Command::Continue {
                output.append("No Command called ");
                output.append(token);
                output.append("\n");
            }
        },
        None => {},
    }
    assert(output@ =~= resolve_notice(entered.deep_view()));
    Step { output, stage: Stage::Dispatch(command) }
}

/// Asks which entry is meant, unless there is none to pick.
fn ask_index(todos: &Vec<Item>, awaited: Awaited) -> (step: Step)
    ensures
        step@ == pick_step(todos.deep_view(), awaited),
{
    let mut output = clear_screen();
    if todos.is_empty() {
        output.append(print_todo(todos, false).as_str());
        Step { output, stage: Stage::Menu }
    } else {
        output.append("Which one?\n");
        output.append(print_todo(todos, true).as_str());
        Step { output, stage: Stage::Input(awaited) }
    }
}

/// Dispatches `command` on the list as it was loaded: shows what the command shows at once,
/// and asks for a line where the command needs one.
pub fn process_command(command: Command, todos: &Vec<Item>) -> (step: Step)
    ensures
        step@ == dispatched(command, todos.deep_view()),
{
    match command {
        Command::Add => {
            let mut output = clear_screen();
            output.append("What's the Todo's name?\n");
            Step { output, stage: Stage::Input(Awaited::Name) }
        },
        Command::Check => ask_index(todos, Awaited::CheckIndex),
        Command::Remove => ask_index(todos, Awaited::RemoveIndex),
        Command::Print => {
            let mut output = clear_screen();
            output.append(print_todo(todos, false).as_str());
            Step { output, stage: Stage::Menu }
        },
        Command::Exit => Step { output: clear_screen(), stage: Stage::Exit },
        Command::Continue => Step { output: clear_screen(), stage: Stage::Menu },
    }
}

/// Takes `line` as the answer to what was awaited: changes the list and shows it,
/// or refuses a line that picks no entry and awaits another.
pub fn answer(awaited: Awaited, todos: &mut Vec<Item>, line: &str) -> (step: Step)
    ensures
        step@ == answered(awaited, old(todos).deep_view(), line@),
        final(todos).deep_view() == answered_list(awaited, old(todos).deep_view(), line@),
{
    match awaited {
        Awaited::Name => {
            add_todo(todos, line.to_owned());
        },
        _ => {
            match get_operation_index(todos, line) {
                Some(index) => {
                    if awaited == Awaited::CheckIndex {
                        check_todo(todos, index);
                    } else {
                        remove_todo(todos, index);
                    }
                },
                None => {
                    return Step {
                        output: String::from_str("\nInvalid input. Try again\n"),
                        stage: Stage::Input(awaited),
                    };
                },
            }
        },
    }
    let mut output = String::from_str("\n\n");
    output.append(clear_screen().as_str());
    output.append(print_todo(todos, false).as_str());
    Step { output, stage: Stage::Menu }
}

/// A line that picks no entry is refused: the list stays as it is, and another line is awaited
/// for the same thing.
pub proof fn lemma_refused_line(awaited: Awaited, items: Seq<ItemView>, line: Seq<char>)
    requires
        awaited != Awaited::Name,
        picked(items.len(), line) is None,
    ensures
        answered_list(awaited, items, line) == items,
        answered(awaited, items, line).stage == Stage::Input(awaited),
{
}

/// A line that picks an entry is taken: checking changes that entry alone, removing makes the
/// list one entry shorter, and the menu comes next.
pub proof fn lemma_taken_line(awaited: Awaited, items: Seq<ItemView>, line: Seq<char>, index: usize)
    requires
        awaited != Awaited::Name,
        picked(items.len(), line) == Some(index),
    ensures
        answered(awaited, items, line).stage == Stage::Menu,
        awaited == Awaited::CheckIndex ==> answered_list(awaited, items, line) == items.update(
            index as int,
            toggled(items[index as int]),
        ),
        awaited == Awaited::RemoveIndex ==> answered_list(awaited, items, line) == items.remove(
            index as int,
        ) && answered_list(awaited, items, line).len() == items.len() - 1,
{
}

/// An answer changes the list in one of three ways, or not at all: one entry more at the end,
/// one mark turned over, or one entry less.
pub proof fn lemma_one_change(awaited: Awaited, items: Seq<ItemView>, line: Seq<char>)
    ensures
        ({
            let after = answered_list(awaited, items, line);
            ||| after == items
            ||| after == added(items, line)
            ||| exists|index: int| 0 <= index < items.len() && after == checked(items, index)
            ||| exists|index: int| 0 <= index < items.len() && after == removed(items, index)
        }),
{
    let after = answered_list(awaited, items, line);
    if awaited != Awaited::Name {
        if let Some(index) = picked(items.len(), line) {
            assert(0 <= index as int && (index as int) < items.len());
            if awaited == Awaited::CheckIndex {
                assert(after == checked(items, index as int));
            } else {
                assert(after == removed(items, index as int));
            }
        }
    }
}

/// Any line names a new entry: it is put at the end of the list, not yet done.
pub proof fn lemma_named_entry(items: Seq<ItemView>, line: Seq<char>)
    ensures
        dispatched(Command::Add, items).stage == Stage::Input(Awaited::Name),
        answered(Awaited::Name, items, line).stage == Stage::Menu,
        answered_list(Awaited::Name, items, line) == items + seq![
            ItemView { name: line, completed: false },
        ],
{
    lemma_added_appends(items, line);
}

/// On the empty list, checking and removing ask for no line: the list is shown as empty,
/// and the menu comes next.
pub proof fn lemma_empty_list_asks_nothing(command: Command)
    requires
        command == Command::Check || command == Command::Remove,
    ensures
        dispatched(command, Seq::empty()) == (StepView {
            output: clear() + listing(Seq::empty(), false),
            stage: Stage::Menu,
        }),
{
}

/// A word that calls for no command is named in a notice, and dispatching does nothing but
/// clear the screen before the menu comes next.
pub proof fn lemma_unknown_word(token: Seq<char>, items: Seq<ItemView>)
    requires
        command_of(token) == Command::Continue,
    ensures
        entered_step(Some(token)) == (StepView {
            output: unknown_notice(token),
            stage: Stage::Dispatch(Command::Continue),
        }),
        dispatched(Command::Continue, items) == (StepView { output: clear(), stage: Stage::Menu }),
{
}

} // verus!
