use todo_list::item::Item;

#[test]
fn a_done_item_shows_a_cross() {
    let item = Item { name: "Buy milk".to_string(), completed: true };
    assert_eq!(item.to_string(), "[x] Buy milk");
}

#[test]
fn an_open_item_shows_a_blank() {
    let item = Item { name: "Buy milk".to_string(), completed: false };
    assert_eq!(item.to_string(), "[ ] Buy milk");
}

#[test]
fn an_item_without_a_name_shows_its_mark_alone() {
    let item = Item { name: String::new(), completed: false };
    assert_eq!(item.to_string(), "[ ] ");
    let item = Item { name: String::new(), completed: true };
    assert_eq!(item.to_string(), "[x] ");
}

#[test]
fn an_item_shows_any_text_as_it_is() {
    let item = Item { name: "  caf\u{e9} \"x\" [x] \u{1f600}".to_string(), completed: false };
    assert_eq!(item.to_string(), "[ ]   caf\u{e9} \"x\" [x] \u{1f600}");
}

#[test]
fn a_new_item_is_not_done() {
    let item = Item::new("A".to_string());
    assert_eq!(item.name, "A");
    assert!(!item.completed);
}

#[test]
fn items_are_equal_by_name_and_mark() {
    let a = Item { name: "A".to_string(), completed: false };
    assert_eq!(a, Item::new("A".to_string()));
    assert_ne!(a, Item { name: "A".to_string(), completed: true });
    assert_ne!(a, Item { name: "B".to_string(), completed: false });
    assert_eq!(a.clone(), a);
}
