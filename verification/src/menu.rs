//! The menus: what each answer the user types asks the program to do.

use vstd::prelude::*;

use crate::text::{is_no, parse_usize, parsed_usize, means_no, sole_char, trimmed, trimmed_char};

verus! {

/// The answers of the passfile selector.
#[derive(PartialEq, Eq, Structural, Debug, Clone, Copy)]
pub enum SelectorChoice {
    CreateNew,
    OpenExisting,
    OpenDefault,
    Exit,
    Invalid,
}

/// What the passfile selector does with a reply.
pub open spec fn selector_meaning(reply: Seq<char>) -> SelectorChoice {
    match sole_char(trimmed(reply)) {
        Some('1') => SelectorChoice::CreateNew,
        Some('2') => SelectorChoice::OpenExisting,
        Some('3') => SelectorChoice::OpenDefault,
        Some('4') => SelectorChoice::Exit,
        _ => SelectorChoice::Invalid,
    }
}

/// Reads a reply to the passfile selector.
pub fn selector_choice(reply: &str) -> (r: SelectorChoice)
    ensures
        r == selector_meaning(reply@),
{
    match trimmed_char(reply) {
        Some('1') => SelectorChoice::CreateNew,
        Some('2') => SelectorChoice::OpenExisting,
        Some('3') => SelectorChoice::OpenDefault,
        Some('4') => SelectorChoice::Exit,
        _ => SelectorChoice::Invalid,
    }
}

/// The answers of the main menu.
#[derive(PartialEq, Eq, Structural, Debug, Clone, Copy)]
pub enum MainChoice {
    AddLogin,
    ShowLogins,
    GeneratePassword,
    ChangePassfile,
    Exit,
    Invalid,
}

/// What the main menu does with a reply.
pub open spec fn main_meaning(reply: Seq<char>) -> MainChoice {
    match sole_char(trimmed(reply)) {
        Some('1') => MainChoice::AddLogin,
        Some('2') => MainChoice::ShowLogins,
        Some('3') => MainChoice::GeneratePassword,
        Some('4') => MainChoice::ChangePassfile,
        Some('5') => MainChoice::Exit,
        _ => MainChoice::Invalid,
    }
}

/// Reads a reply to the main menu.
pub fn main_choice(reply: &str) -> (r: MainChoice)
    ensures
        r == main_meaning(reply@),
{
    match trimmed_char(reply) {
        Some('1') => MainChoice::AddLogin,
        Some('2') => MainChoice::ShowLogins,
        Some('3') => MainChoice::GeneratePassword,
        Some('4') => MainChoice::ChangePassfile,
        Some('5') => MainChoice::Exit,
        _ => MainChoice::Invalid,
    }
}

/// The answers offered on a login's detail page.
#[derive(PartialEq, Eq, Structural, Debug, Clone, Copy)]
pub enum EntryAction {
    CopyPassword,
    Edit,
    Delete,
    Back,
}

/// What the detail page does with a reply: anything but 1, 2 or 3 goes
/// back.
pub open spec fn entry_action_meaning(reply: Seq<char>) -> EntryAction {
    match sole_char(trimmed(reply)) {
        Some('1') => EntryAction::CopyPassword,
        Some('2') => EntryAction::Edit,
        Some('3') => EntryAction::Delete,
        _ => EntryAction::Back,
    }
}

/// Reads a reply on a login's detail page.
pub fn entry_action(reply: &str) -> (r: EntryAction)
    ensures
        r == entry_action_meaning(reply@),
{
    match trimmed_char(reply) {
        Some('1') => EntryAction::CopyPassword,
        Some('2') => EntryAction::Edit,
        Some('3') => EntryAction::Delete,
        _ => EntryAction::Back,
    }
}

/// The answers to the numbered list of logins.
#[derive(PartialEq, Eq, Structural, Debug, Clone, Copy)]
pub enum ListSelection {
    /// The reply is 0: go back.
    Back,
    /// The login at this place in the list, counted from 0.
    Open(usize),
    /// A number that names no login.
    OutOfRange,
    /// Not a number: go back without a word.
    Unreadable,
}

/// What the list does with a reply when it shows `count` logins numbered
/// from 1.
pub open spec fn selection_meaning(reply: Seq<char>, count: usize) -> ListSelection {
    match parsed_usize(trimmed(reply)) {
        None => ListSelection::Unreadable,
        Some(n) => if n == 0 {
            ListSelection::Back
        } else if n <= count {
            ListSelection::Open((n - 1) as usize)
        } else {
            ListSelection::OutOfRange
        },
    }
}

/// Reads a reply to the numbered list of `count` logins.
pub fn list_selection(reply: &str, count: usize) -> (r: ListSelection)
    ensures
        r == selection_meaning(reply@, count),
{
    match parse_usize(crate::text::trim(reply)) {
        None => ListSelection::Unreadable,
        Some(n) => if n == 0 {
            ListSelection::Back
        } else if n <= count {
            ListSelection::Open(n - 1)
        } else {
            ListSelection::OutOfRange
        },
    }
}

/// A number picked from the list always names one of the logins shown.
pub proof fn law_selection_in_range(reply: Seq<char>, count: usize)
    ensures
        selection_meaning(reply, count) matches ListSelection::Open(i) ==> i < count,
{
}

/// Every number from 1 to the count opens the login at that place, counted
/// from 1; 0 goes back, a larger number names no login, and a reply that is
/// not a number is unreadable.
pub proof fn law_number_opens_its_login(reply: Seq<char>, count: usize)
    ensures
        forall|n: usize|
            parsed_usize(trimmed(reply)) == Some(n) && 1 <= n <= count ==> selection_meaning(
                reply,
                count,
            ) == ListSelection::Open((n - 1) as usize),
        parsed_usize(trimmed(reply)) == Some(0usize) ==> selection_meaning(reply, count)
            == ListSelection::Back,
        forall|n: usize|
            parsed_usize(trimmed(reply)) == Some(n) && n > count ==> selection_meaning(reply, count)
                == ListSelection::OutOfRange,
        parsed_usize(trimmed(reply)) is None ==> selection_meaning(reply, count)
            == ListSelection::Unreadable,
{
}

/// A login opened from the list is the one whose number, counted from 1,
/// was typed.
pub proof fn law_opened_login_was_typed(reply: Seq<char>, count: usize, i: usize)
    requires
        selection_meaning(reply, count) == ListSelection::Open(i),
    ensures
        i < count,
        parsed_usize(trimmed(reply)) == Some((i + 1) as usize),
{
}

/// The length a generated password gets when the user does not name one.
pub const DEFAULT_PASSWORD_LENGTH: usize = 16;

/// The length asked for: the number typed if it is a positive number, else
/// the default.
pub open spec fn length_meaning(reply: Seq<char>) -> usize {
    match parsed_usize(trimmed(reply)) {
        Some(n) => if n > 0 {
            n
        } else {
            DEFAULT_PASSWORD_LENGTH
        },
        None => DEFAULT_PASSWORD_LENGTH,
    }
}

/// The password length read from any reply is positive.
pub proof fn law_length_positive(reply: Seq<char>)
    ensures
        length_meaning(reply) > 0,
{
}

/// Reads the reply to the password length prompt.
pub fn password_length(reply: &str) -> (r: usize)
    ensures
        r == length_meaning(reply@),
        r > 0,
{
    match parse_usize(crate::text::trim(reply)) {
        Some(n) => if n > 0 {
            n
        } else {
            DEFAULT_PASSWORD_LENGTH
        },
        None => DEFAULT_PASSWORD_LENGTH,
    }
}

/// Reads the reply to "Include special characters? (Y/n)": anything but
/// `n` means yes.
pub fn wants_special(reply: &str) -> (r: bool)
    ensures
        r == !means_no(reply@),
{
    !is_no(reply)
}

} // verus!
