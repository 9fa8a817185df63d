//! The list of entries: the three ways to change it, how an entry is picked, how the list is shown.

use vstd::prelude::*;
use crate::item::{shown, Item, ItemView};
use crate::text::{decimal, decimal_text, lemma_decimal_round_trip, parse_index, parsed_index};

verus! {

/// The entry `item` with its mark turned over.
pub open spec fn toggled(item: ItemView) -> ItemView {
    ItemView { name: item.name, completed: !item.completed }
}

/// The list `items` with a new entry called `name`, not yet done, at its end.
pub open spec fn added(items: Seq<ItemView>, name: Seq<char>) -> Seq<ItemView> {
    items.push(ItemView { name, completed: false })
}

/// The list `items` with the mark of the entry at `index` turned over.
/// A list without such an entry is left as it is.
pub open spec fn checked(items: Seq<ItemView>, index: int) -> Seq<ItemView> {
    if 0 <= index < items.len() {
        items.update(index, toggled(items[index]))
    } else {
        items
    }
}

/// The list `items` without the entry at `index`.
/// A list without such an entry is left as it is.
pub open spec fn removed(items: Seq<ItemView>, index: int) -> Seq<ItemView> {
    if 0 <= index < items.len() {
        items.remove(index)
    } else {
        items
    }
}

/// The entry of a list of `length` entries that the line `line` picks:
/// the index that the line writes, where the list has an entry there.
pub open spec fn picked(length: nat, line: Seq<char>) -> Option<usize> {
    match parsed_index(line) {
        Some(index) if index < length => Some(index),
        _ => None,
    }
}

/// The line that shows the entry at `at`, led by its index and a space where `show_index` is set.
pub open spec fn listed_line(items: Seq<ItemView>, at: int, show_index: bool) -> Seq<char> {
    if show_index {
        decimal_text(at as nat) + " "@ + shown(items[at]) + "\n"@
    } else {
        shown(items[at]) + "\n"@
    }
}

/// The lines that show the first `count` entries, in the order of the list.
pub open spec fn listed_lines(items: Seq<ItemView>, count: nat, show_index: bool) -> Seq<char>
    decreases count,
{
    if count == 0 {
        Seq::empty()
    } else {
        listed_lines(items, (count - 1) as nat, show_index) + listed_line(
            items,
            count - 1,
            show_index,
        )
    }
}

/// The text that shows a list: a line for each entry, or one line that says that there is none,
/// and an empty line after them.
pub open spec fn listing(items: Seq<ItemView>, show_index: bool) -> Seq<char> {
    if items.len() == 0 {
        "[Empty Todo List]\n"@ + "\n"@
    } else {
        listed_lines(items, items.len(), show_index) + "\n"@
    }
}

/// Puts a new entry called `name`, not yet done, at the end of the list.
pub fn add_todo(todos: &mut Vec<Item>, name: String)
    ensures
        final(todos).deep_view() == added(old(todos).deep_view(), name@),
{
    todos.push(Item::new(name));
    assert(todos.deep_view() =~= added(old(todos).deep_view(), name@));
}

/// Turns over the mark of the entry at `index`. A list without such an entry stays as it is.
pub fn check_todo(todos: &mut Vec<Item>, index: usize)
    ensures
        final(todos).deep_view() == checked(old(todos).deep_view(), index as int),
{
    if index < todos.len() {
        todos[index].completed = !todos[index].completed;
    }
    assert(todos.deep_view() =~= checked(old(todos).deep_view(), index as int));
}

/// Takes the entry at `index` out of the list. A list without such an entry stays as it is.
pub fn remove_todo(todos: &mut Vec<Item>, index: usize)
    ensures
        final(todos).deep_view() == removed(old(todos).deep_view(), index as int),
{
    if index < todos.len() {
        todos.remove(index);
    }
    assert(todos.deep_view() =~= removed(old(todos).deep_view(), index as int));
}

/// Reads `line` as the index of an entry of the list. There is none where the line writes
/// no index, or one that the list does not reach.
pub fn get_operation_index(todos: &Vec<Item>, line: &str) -> (index: Option<usize>)
    ensures
        index == picked(todos.deep_view().len(), line@),
{
    match parse_index(line) {
        Some(index) => {
            if index < todos.len() {
                Some(index)
            } else {
                None
            }
        },
        None => None,
    }
}

/// The text that shows the list, each entry led by its index where `show_index` is set.
pub fn print_todo(todos: &Vec<Item>, show_index: bool) -> (text: String)
    ensures
        text@ == listing(todos.deep_view(), show_index),
{
    let mut text = String::new();
    if todos.is_empty() {
        text.append("[Empty Todo List]\n");
    }
    let mut at: usize = 0;
    while at < todos.len()
        invariant
            at <= todos.len(),
            todos.len() > 0 ==> text@ == listed_lines(todos.deep_view(), at as nat, show_index),
            todos.len() == 0 ==> text@ == "[Empty Todo List]\n"@,
        decreases todos.len() - at,
    {
        if show_index {
            text.append(decimal(at).as_str());
            text.append(" ");
        }
        text.append(todos[at].to_string().as_str());
        text.append("\n");
        at = at + 1;
    }
    text.append("\n");
    text
}

/// The list that a session works on: the stored one, or an empty one where none could be read.
pub fn restored(stored: Option<Vec<Item>>) -> (todos: Vec<Item>)
    ensures
        stored matches Some(items) ==> todos == items,
        stored is None ==> todos.deep_view() == Seq::<ItemView>::empty(),
{
    match stored {
        Some(items) => items,
        None => {
            let todos: Vec<Item> = Vec::new();
            assert(todos.deep_view() =~= Seq::<ItemView>::empty());
            todos
        },
    }
}

/// Adding puts one entry, called `name` and not yet done, behind the entries that were there.
pub proof fn lemma_added_appends(items: Seq<ItemView>, name: Seq<char>)
    ensures
        added(items, name) == items + seq![ItemView { name, completed: false }],
        added(items, name).len() == items.len() + 1,
{
    assert(added(items, name) =~= items + seq![ItemView { name, completed: false }]);
}

/// Checking turns over the mark of one entry and changes nothing else.
pub proof fn lemma_checked_toggles_one(items: Seq<ItemView>, index: int)
    requires
        0 <= index < items.len(),
    ensures
        checked(items, index).len() == items.len(),
        checked(items, index)[index].name == items[index].name,
        checked(items, index)[index].completed == !items[index].completed,
        forall|other: int|
            0 <= other < items.len() && other != index ==> checked(items, index)[other]
                == items[other],
{
}

/// Checking the same entry twice gives the list back.
pub proof fn lemma_checked_twice(items: Seq<ItemView>, index: int)
    ensures
        checked(checked(items, index), index) == items,
{
    assert(checked(checked(items, index), index) =~= items);
}

/// Removing takes one entry out and keeps the others in their order.
pub proof fn lemma_removed_drops_one(items: Seq<ItemView>, index: int)
    requires
        0 <= index < items.len(),
    ensures
        removed(items, index).len() == items.len() - 1,
        forall|other: int| 0 <= other < index ==> removed(items, index)[other] == items[other],
        forall|other: int|
            index <= other < items.len() - 1 ==> removed(items, index)[other] == items[other + 1],
{
}

/// An index that the list does not reach changes nothing; so none changes the empty list.
pub proof fn lemma_out_of_reach_keeps_list(items: Seq<ItemView>, index: int)
    requires
        !(0 <= index < items.len()),
    ensures
        checked(items, index) == items,
        removed(items, index) == items,
{
}

/// The index that leads an entry where the list is shown picks that entry.
pub proof fn lemma_shown_index_picks(length: nat, index: usize)
    requires
        index < length,
    ensures
        picked(length, decimal_text(index as nat)) == Some(index),
{
    lemma_decimal_round_trip(index as nat);
}

/// A line picks no entry where it writes no index, or one that the list does not reach.
pub proof fn lemma_picked_none(length: nat, line: Seq<char>)
    ensures
        picked(length, line) is None <==> (parsed_index(line) matches Some(index) ==> index
            >= length),
{
}

} // verus!
