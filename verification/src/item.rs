//! The entries of the list and how one of them is shown.

use vstd::prelude::*;

verus! {

/// One entry: a label and whether it is done.
#[derive(Debug, Clone)]
pub struct Item {
    pub name: String,
    pub completed: bool,
}

/// What an `Item` stands for in contracts: its label as characters, and its mark.
pub struct ItemView {
    pub name: Seq<char>,
    pub completed: bool,
}

impl View for Item {
    type V = ItemView;

    open spec fn view(&self) -> ItemView {
        ItemView { name: self.name@, completed: self.completed }
    }
}

impl DeepView for Item {
    type V = ItemView;

    open spec fn deep_view(&self) -> ItemView {
        self@
    }
}

/// The line that shows an entry: its mark in brackets, a space, its label.
pub open spec fn shown(item: ItemView) -> Seq<char> {
    if item.completed {
        "[x] "@ + item.name
    } else {
        "[ ] "@ + item.name
    }
}

impl Item {
    /// A fresh entry, not yet done.
    pub fn new(name: String) -> (item: Item)
        ensures
            item@ == (ItemView { name: name@, completed: false }),
    {
        Item { name, completed: false }
    }

    /// The entry as one line of text, `[x] label` when done and `[ ] label` when not.
    pub fn to_string(&self) -> (text: String)
        ensures
            text@ == shown(self@),
    {
        let mark = if self.completed {
            "[x] "
        } else {
            "[ ] "
        };
        String::from_str(mark).concat(self.name.as_str())
    }
}

impl PartialEq for Item {
    /// Two entries are equal when their labels hold the same characters and their marks agree.
    fn eq(&self, other: &Item) -> (equal: bool) {
        self.name == other.name && self.completed == other.completed
    }
}

impl vstd::std_specs::cmp::PartialEqSpecImpl for Item {
    open spec fn obeys_eq_spec() -> bool {
        true
    }

    open spec fn eq_spec(&self, other: &Item) -> bool {
        self.name@ == other.name@ && self.completed == other.completed
    }
}

impl Eq for Item {

}

} // verus!
