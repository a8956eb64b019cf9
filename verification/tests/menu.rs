use passforge::menu::{
    entry_action, list_selection, main_choice, password_length, selector_choice, wants_special,
    EntryAction, ListSelection, MainChoice, SelectorChoice,
};

#[test]
fn selector_choices() {
    assert_eq!(selector_choice("1\n"), SelectorChoice::CreateNew);
    assert_eq!(selector_choice(" 2 "), SelectorChoice::OpenExisting);
    assert_eq!(selector_choice("3"), SelectorChoice::OpenDefault);
    assert_eq!(selector_choice("4"), SelectorChoice::Exit);
    assert_eq!(selector_choice("5"), SelectorChoice::Invalid);
    assert_eq!(selector_choice("14"), SelectorChoice::Invalid);
    assert_eq!(selector_choice(""), SelectorChoice::Invalid);
}

#[test]
fn main_menu_choices() {
    assert_eq!(main_choice("1"), MainChoice::AddLogin);
    assert_eq!(main_choice("2\r\n"), MainChoice::ShowLogins);
    assert_eq!(main_choice("3"), MainChoice::GeneratePassword);
    assert_eq!(main_choice("4"), MainChoice::ChangePassfile);
    assert_eq!(main_choice("5"), MainChoice::Exit);
    assert_eq!(main_choice("6"), MainChoice::Invalid);
    assert_eq!(main_choice("exit"), MainChoice::Invalid);
}

#[test]
fn entry_page_actions() {
    assert_eq!(entry_action("1"), EntryAction::CopyPassword);
    assert_eq!(entry_action("2"), EntryAction::Edit);
    assert_eq!(entry_action(" 3\n"), EntryAction::Delete);
    assert_eq!(entry_action("4"), EntryAction::Back);
    assert_eq!(entry_action("x"), EntryAction::Back);
}

#[test]
fn list_selection_readings() {
    assert_eq!(list_selection("0", 3), ListSelection::Back);
    assert_eq!(list_selection("1", 3), ListSelection::Open(0));
    assert_eq!(list_selection(" 3\n", 3), ListSelection::Open(2));
    assert_eq!(list_selection("4", 3), ListSelection::OutOfRange);
    assert_eq!(list_selection("two", 3), ListSelection::Unreadable);
    assert_eq!(list_selection("-1", 3), ListSelection::Unreadable);
    assert_eq!(list_selection("", 3), ListSelection::Unreadable);
}

#[test]
fn password_length_readings() {
    assert_eq!(password_length(""), 16);
    assert_eq!(password_length("0"), 16);
    assert_eq!(password_length("abc"), 16);
    assert_eq!(password_length("-5"), 16);
    assert_eq!(password_length(" 24\n"), 24);
    assert_eq!(password_length("1"), 1);
}

#[test]
fn special_characters_unless_no() {
    assert!(wants_special(""));
    assert!(wants_special("y"));
    assert!(wants_special("no"));
    assert!(!wants_special("n"));
    assert!(!wants_special(" N \n"));
}
