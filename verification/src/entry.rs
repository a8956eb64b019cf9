//! One login kept in the vault, and the rules by which an edit changes it.

use vstd::prelude::*;

use crate::generator::{generate_random_password, is_alphanumeric};
use crate::menu::DEFAULT_PASSWORD_LENGTH;
use crate::text::{is_blank, same_text, trim, trimmed};

verus! {

/// A stored login.
pub struct LoginEntry {
    pub title: String,
    pub username: String,
    pub password: String,
    pub url: String,
    pub notes: String,
}

/// The text of each field of a login.
pub struct EntryView {
    pub title: Seq<char>,
    pub username: Seq<char>,
    pub password: Seq<char>,
    pub url: Seq<char>,
    pub notes: Seq<char>,
}

impl View for LoginEntry {
    type V = EntryView;

    open spec fn view(&self) -> EntryView {
        EntryView {
            title: self.title@,
            username: self.username@,
            password: self.password@,
            url: self.url@,
            notes: self.notes@,
        }
    }
}

impl Clone for LoginEntry {
    fn clone(&self) -> (r: Self)
        ensures
            r@ == self@,
    {
        LoginEntry {
            title: self.title.clone(),
            username: self.username.clone(),
            password: self.password.clone(),
            url: self.url.clone(),
            notes: self.notes.clone(),
        }
    }
}

impl LoginEntry {
    /// A login made of the given fields.
    pub fn new(title: String, username: String, password: String, url: String, notes: String) -> (r: LoginEntry)
        ensures
            r.title == title,
            r.username == username,
            r.password == password,
            r.url == url,
            r.notes == notes,
    {
        LoginEntry { title, username, password, url, notes }
    }

    /// The login after an edit: it takes the given title and password, and
    /// each other field keeps its value where the reply for it is blank,
    /// else takes the trimmed reply.
    pub fn edited(
        &self,
        title: &str,
        username_reply: &str,
        password: String,
        url_reply: &str,
        notes_reply: &str,
    ) -> (r: LoginEntry)
        ensures
            r.title@ == title@,
            r.username@ == after_reply(self.username@, username_reply@),
            r.password == password,
            r.url@ == after_reply(self.url@, url_reply@),
            r.notes@ == after_reply(self.notes@, notes_reply@),
    {
        LoginEntry {
            title: title.to_owned(),
            username: edited_field(&self.username, username_reply),
            password,
            url: edited_field(&self.url, url_reply),
            notes: edited_field(&self.notes, notes_reply),
        }
    }
}

/// A field's value after the user answered `reply` to the prompt for it:
/// unchanged when the reply is blank, else the trimmed reply.
pub open spec fn after_reply(current: Seq<char>, reply: Seq<char>) -> Seq<char> {
    if trimmed(reply).len() == 0 {
        current
    } else {
        trimmed(reply)
    }
}

/// A field's new value, read from the reply to its edit prompt.
pub fn edited_field(current: &String, reply: &str) -> (r: String)
    ensures
        r@ == after_reply(current@, reply@),
{
    if is_blank(reply) {
        current.clone()
    } else {
        trim(reply).to_owned()
    }
}

/// What the user asked for at a password prompt.
pub enum PasswordReply {
    /// Keep the password the login has.
    Keep,
    /// Generate a new one.
    Generate,
    /// Use this text.
    Typed(String),
}

/// The word that asks for a generated password.
pub open spec fn generate_word() -> Seq<char> {
    seq!['g', 'e', 'n', 'e', 'r', 'a', 't', 'e']
}

/// The reading of a reply to the password prompt of a new login: the word
/// `generate` asks for a generated password; anything else, trimmed, is the
/// password.
pub open spec fn new_password_meaning(reply: Seq<char>) -> Option<Seq<char>> {
    if trimmed(reply) == generate_word() {
        None
    } else {
        Some(trimmed(reply))
    }
}

/// Reads the reply to the password prompt of a new login.
pub fn new_password_reply(reply: &str) -> (r: PasswordReply)
    ensures
        match r {
            PasswordReply::Keep => false,
            PasswordReply::Generate => new_password_meaning(reply@) is None,
            PasswordReply::Typed(p) => new_password_meaning(reply@) == Some(p@),
        },
{
    let t = trim(reply);
    let word = "generate";
    proof {
        reveal_strlit("generate");
    }
    assert(word@ =~= generate_word());
    if same_text(t, word) {
        PasswordReply::Generate
    } else {
        PasswordReply::Typed(t.to_owned())
    }
}

/// Reads the reply to the password prompt of an edit: a blank reply keeps
/// the password, else it is read as for a new login.
pub fn edit_password_reply(reply: &str) -> (r: PasswordReply)
    ensures
        match r {
            PasswordReply::Keep => trimmed(reply@).len() == 0,
            PasswordReply::Generate => trimmed(reply@).len() != 0 && new_password_meaning(
                reply@,
            ) is None,
            PasswordReply::Typed(p) => trimmed(reply@).len() != 0 && new_password_meaning(reply@)
                == Some(p@),
        },
{
    if is_blank(reply) {
        PasswordReply::Keep
    } else {
        new_password_reply(reply)
    }
}

/// The password that a reply to a password prompt settles on: the current
/// one, a fresh random one of the default length made of ASCII letters and
/// digits, or the typed one.
pub fn resolve_password(reply: &PasswordReply, current: &str) -> (p: String)
    ensures
        match reply {
            PasswordReply::Keep => p@ == current@,
            PasswordReply::Generate => p@.len() == DEFAULT_PASSWORD_LENGTH && forall|i: int|
                0 <= i < p@.len() ==> #[trigger] is_alphanumeric(p@[i]),
            PasswordReply::Typed(t) => p@ == t@,
        },
{
    match reply {
        PasswordReply::Keep => current.to_owned(),
        PasswordReply::Generate => generate_random_password(DEFAULT_PASSWORD_LENGTH),
        PasswordReply::Typed(t) => t.clone(),
    }
}

/// A blank reply to an edit prompt leaves the field as it was.
pub proof fn law_blank_reply_keeps_field(current: Seq<char>, reply: Seq<char>)
    requires
        trimmed(reply).len() == 0,
    ensures
        after_reply(current, reply) == current,
{
}

/// A reply that is not blank replaces the field with the trimmed reply,
/// whatever the field held, an empty field too.
pub proof fn law_reply_replaces_field(current: Seq<char>, reply: Seq<char>)
    requires
        trimmed(reply).len() != 0,
    ensures
        after_reply(current, reply) == trimmed(reply),
{
}

/// At a new login's password prompt, the reply `generate` (whitespace
/// around it aside) asks for a generated password, and any other reply is
/// the password: exactly its trimmed text, whatever its length.
pub proof fn law_typed_password_is_kept_whole(reply: Seq<char>)
    ensures
        trimmed(reply) == "generate"@ ==> new_password_meaning(reply) is None,
        trimmed(reply) != "generate"@ ==> new_password_meaning(reply) == Some(trimmed(reply)),
        new_password_meaning(reply) matches Some(p) ==> p.len() == trimmed(reply).len(),
{
    reveal_strlit("generate");
    assert("generate"@ =~= generate_word());
}

/// An edit with blank replies for every field but the password, with the
/// login's own title and password, gives the login back unchanged.
pub proof fn law_blank_edit_is_identity(
    entry: EntryView,
    username_reply: Seq<char>,
    url_reply: Seq<char>,
    notes_reply: Seq<char>,
)
    requires
        trimmed(username_reply).len() == 0,
        trimmed(url_reply).len() == 0,
        trimmed(notes_reply).len() == 0,
    ensures
        (EntryView {
            title: entry.title,
            username: after_reply(entry.username, username_reply),
            password: entry.password,
            url: after_reply(entry.url, url_reply),
            notes: after_reply(entry.notes, notes_reply),
        }) == entry,
{
}

} // verus!
