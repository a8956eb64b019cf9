use passforge::flow::{
    entry_step, list_step, main_menu_gate, main_menu_step, selector_step, EntryStep, ListStep,
    MainStep, MenuGate,
};
use passforge::menu::SelectorChoice;
use passforge::session::Session;

#[test]
fn selector_step_stops_only_on_exit() {
    let mut running = true;
    assert_eq!(selector_step("1", &mut running), SelectorChoice::CreateNew);
    assert!(running);
    assert_eq!(selector_step("x", &mut running), SelectorChoice::Invalid);
    assert!(running);
    assert_eq!(selector_step(" 4\n", &mut running), SelectorChoice::Exit);
    assert!(!running);
}

#[test]
fn main_menu_without_passfile_goes_to_selector() {
    let mut s = Session::new(None);
    assert_eq!(main_menu_gate(&s), MenuGate::ToSelector);
    s.open("/p".to_string(), "k".to_string());
    assert_eq!(main_menu_gate(&s), MenuGate::ShowMenu);
}

#[test]
fn main_menu_steps() {
    let mut s = Session::new(None);
    s.open("/p".to_string(), "k".to_string());
    let mut running = true;
    assert_eq!(main_menu_step(&s, "1", &mut running), MainStep::AddLogin);
    assert_eq!(main_menu_step(&s, "2", &mut running), MainStep::ShowLogins);
    assert_eq!(main_menu_step(&s, "3", &mut running), MainStep::GeneratePassword);
    assert_eq!(
        main_menu_step(&s, "4", &mut running),
        MainStep::ChangePassfile { announce: true }
    );
    assert_eq!(main_menu_step(&s, "9", &mut running), MainStep::Invalid);
    assert!(running);
    assert_eq!(main_menu_step(&s, "5", &mut running), MainStep::Exit { announce: true });
    assert!(!running);
}

#[test]
fn main_menu_announces_nothing_without_passfile() {
    let s = Session::new(None);
    let mut running = true;
    assert_eq!(main_menu_step(&s, "5", &mut running), MainStep::Exit { announce: false });
    assert!(!running);
}

#[test]
fn list_step_names_the_title() {
    let titles = vec!["a".to_string(), "b".to_string(), "c".to_string()];
    assert!(matches!(list_step(&titles, "0"), ListStep::Back));
    match list_step(&titles, " 2 ") {
        ListStep::Open(t) => assert_eq!(t, "b"),
        _ => panic!("expected a title"),
    }
    assert!(matches!(list_step(&titles, "4"), ListStep::OutOfRange));
    assert!(matches!(list_step(&titles, "b"), ListStep::Unreadable));
}

#[test]
fn entry_step_acts_on_the_shown_title() {
    assert!(matches!(entry_step("mail", "1"), EntryStep::CopyPassword));
    match entry_step("mail", "2") {
        EntryStep::Edit(t) => assert_eq!(t, "mail"),
        _ => panic!("expected an edit"),
    }
    match entry_step("mail", " 3\n") {
        EntryStep::Delete(t) => assert_eq!(t, "mail"),
        _ => panic!("expected a delete"),
    }
    assert!(matches!(entry_step("mail", "4"), EntryStep::Back));
    assert!(matches!(entry_step("mail", ""), EntryStep::Back));
}
