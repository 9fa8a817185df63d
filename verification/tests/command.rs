use todo_list::command::{get_command, get_command_string, get_new_command, Command};

#[test]
fn add_has_two_words() {
    assert_eq!(get_command(Some("add")), Command::Add);
    assert_eq!(get_command(Some("a")), Command::Add);
}

#[test]
fn check_has_four_words() {
    assert_eq!(get_command(Some("check")), Command::Check);
    assert_eq!(get_command(Some("c")), Command::Check);
    assert_eq!(get_command(Some("uncheck")), Command::Check);
    assert_eq!(get_command(Some("u")), Command::Check);
}

#[test]
fn remove_has_two_words() {
    assert_eq!(get_command(Some("remove")), Command::Remove);
    assert_eq!(get_command(Some("r")), Command::Remove);
}

#[test]
fn print_has_two_words() {
    assert_eq!(get_command(Some("print")), Command::Print);
    assert_eq!(get_command(Some("p")), Command::Print);
}

#[test]
fn exit_has_two_words() {
    assert_eq!(get_command(Some("exit")), Command::Exit);
    assert_eq!(get_command(Some("e")), Command::Exit);
}

#[test]
fn nothing_entered_asks_for_nothing() {
    assert_eq!(get_command(None), Command::Continue);
}

#[test]
fn an_unknown_word_asks_for_nothing() {
    assert_eq!(get_command(Some("zz")), Command::Continue);
    assert_eq!(get_command(Some("")), Command::Continue);
    assert_eq!(get_command(Some("continue")), Command::Continue);
    assert_eq!(get_command(Some("ad")), Command::Continue);
    assert_eq!(get_command(Some("addd")), Command::Continue);
    assert_eq!(get_command(Some("x")), Command::Continue);
}

#[test]
fn words_are_taken_to_the_letter() {
    assert_eq!(get_command(Some("Add")), Command::Continue);
    assert_eq!(get_command(Some("A")), Command::Continue);
    assert_eq!(get_command(Some(" a")), Command::Continue);
    assert_eq!(get_command(Some("a ")), Command::Continue);
    assert_eq!(get_command(Some("a\n")), Command::Continue);
    assert_eq!(get_command(Some("CHECK")), Command::Continue);
}

#[test]
fn each_command_has_its_name_in_the_menu() {
    assert_eq!(get_command_string(Command::Add), "(a)dd");
    assert_eq!(get_command_string(Command::Print), "(p)rint");
    assert_eq!(get_command_string(Command::Exit), "(e)xit");
    assert_eq!(get_command_string(Command::Check), "(c)heck/uncheck");
    assert_eq!(get_command_string(Command::Remove), "(r)emove");
}

#[test]
fn the_menu_offers_the_five_commands_in_order() {
    assert_eq!(
        get_new_command(),
        "Enter command: \nOPTIONS: \n - (a)dd\n - (c)heck/uncheck\n - (r)emove\n - (p)rint\n - (e)xit\n\n\n\n"
    );
}
