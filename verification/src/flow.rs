//! The dialogue: for each screen, what the program does next with the
//! reply typed there and the state of the session.

use vstd::prelude::*;

use crate::menu::{
    entry_action, entry_action_meaning, list_selection, main_choice, main_meaning,
    selection_meaning, selector_choice, selector_meaning, EntryAction, ListSelection, MainChoice,
    SelectorChoice,
};
use crate::session::Session;

verus! {

/// The passfile selector's next step: the choice made, and whether the
/// program keeps running. Exit stops it; every other choice, an invalid one
/// (which shows the selector again) among them, leaves it as it was.
pub fn selector_step(reply: &str, running: &mut bool) -> (r: SelectorChoice)
    ensures
        r == selector_meaning(reply@),
        *final(running) == (*old(running) && r != SelectorChoice::Exit),
{
    let choice = selector_choice(reply);
    if let SelectorChoice::Exit = choice {
        *running = false;
    }
    choice
}

/// What the main menu does before it reads a choice.
#[derive(PartialEq, Eq, Structural, Debug, Clone, Copy)]
pub enum MenuGate {
    /// No passfile is open: go to the passfile selector, reading no choice.
    ToSelector,
    /// Show the menu and read a choice.
    ShowMenu,
}

/// The main menu's first step: without an open passfile it hands over to the
/// passfile selector.
pub fn main_menu_gate(session: &Session) -> (r: MenuGate)
    ensures
        r == MenuGate::ToSelector <==> session@.passfile is None,
        r == MenuGate::ShowMenu <==> session@.passfile is Some,
{
    if session.is_open() {
        MenuGate::ShowMenu
    } else {
        MenuGate::ToSelector
    }
}

/// What the main menu does with a choice.
#[derive(PartialEq, Eq, Structural, Debug, Clone, Copy)]
pub enum MainStep {
    AddLogin,
    ShowLogins,
    GeneratePassword,
    /// Leave the passfile for the selector, announcing the save where
    /// `announce` holds.
    ChangePassfile { announce: bool },
    /// Leave the program, announcing the save where `announce` holds.
    Exit { announce: bool },
    Invalid,
}

/// The step the main menu takes for a choice, given whether leaving
/// announces a save.
pub open spec fn main_step_of(choice: MainChoice, announce: bool) -> MainStep {
    match choice {
        MainChoice::AddLogin => MainStep::AddLogin,
        MainChoice::ShowLogins => MainStep::ShowLogins,
        MainChoice::GeneratePassword => MainStep::GeneratePassword,
        MainChoice::ChangePassfile => MainStep::ChangePassfile { announce },
        MainChoice::Exit => MainStep::Exit { announce },
        MainChoice::Invalid => MainStep::Invalid,
    }
}

/// The main menu's step for a reply: exit stops the program, and leaving
/// the passfile announces the save where one is open.
pub fn main_menu_step(session: &Session, reply: &str, running: &mut bool) -> (r: MainStep)
    ensures
        r == main_step_of(main_meaning(reply@), session@.passfile is Some),
        *final(running) == (*old(running) && !(r is Exit)),
{
    let announce = session.announces_save();
    match main_choice(reply) {
        MainChoice::AddLogin => MainStep::AddLogin,
        MainChoice::ShowLogins => MainStep::ShowLogins,
        MainChoice::GeneratePassword => MainStep::GeneratePassword,
        MainChoice::ChangePassfile => MainStep::ChangePassfile { announce },
        MainChoice::Exit => {
            *running = false;
            MainStep::Exit { announce }
        },
        MainChoice::Invalid => MainStep::Invalid,
    }
}

/// What the list of logins does with a reply.
pub enum ListStep {
    /// Go back.
    Back,
    /// Show the login kept under this title.
    Open(String),
    /// Say that the number names no login.
    OutOfRange,
    /// Go back without a word.
    Unreadable,
}

/// The list's step for a reply, when it shows `titles` numbered from 1: a
/// number names the title at that place.
pub fn list_step(titles: &Vec<String>, reply: &str) -> (r: ListStep)
    ensures
        match selection_meaning(reply@, titles.len()) {
            ListSelection::Back => r is Back,
            ListSelection::Open(i) => r matches ListStep::Open(t) && t@ == titles@[i as int]@,
            ListSelection::OutOfRange => r is OutOfRange,
            ListSelection::Unreadable => r is Unreadable,
        },
{
    match list_selection(reply, titles.len()) {
        ListSelection::Back => ListStep::Back,
        ListSelection::Open(i) => ListStep::Open(titles[i].clone()),
        ListSelection::OutOfRange => ListStep::OutOfRange,
        ListSelection::Unreadable => ListStep::Unreadable,
    }
}

/// What a login's detail page does with a reply.
pub enum EntryStep {
    /// Copy the login's password to the clipboard.
    CopyPassword,
    /// Run the edit dialogue for the login kept under this title.
    Edit(String),
    /// Run the delete dialogue for the login kept under this title.
    Delete(String),
    /// Go back; nothing more happens.
    Back,
}

/// The detail page's step for a reply, on the page of the login kept under
/// `title`: editing and deleting act on that title.
pub fn entry_step(title: &str, reply: &str) -> (r: EntryStep)
    ensures
        match entry_action_meaning(reply@) {
            EntryAction::CopyPassword => r is CopyPassword,
            EntryAction::Edit => r matches EntryStep::Edit(t) && t@ == title@,
            EntryAction::Delete => r matches EntryStep::Delete(t) && t@ == title@,
            EntryAction::Back => r is Back,
        },
{
    match entry_action(reply) {
        EntryAction::CopyPassword => EntryStep::CopyPassword,
        EntryAction::Edit => EntryStep::Edit(title.to_owned()),
        EntryAction::Delete => EntryStep::Delete(title.to_owned()),
        EntryAction::Back => EntryStep::Back,
    }
}

} // verus!
