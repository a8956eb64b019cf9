//! Where passfiles live, and the state a running session keeps: which
//! passfile is open and with which password.

use vstd::prelude::*;

use crate::crypto::{unseal, unsealed};
use crate::text::same_text;

verus! {

/// The environment variable that holds the user's home folder on `os`.
pub open spec fn home_variable_of(os: Seq<char>) -> Option<Seq<char>> {
    if os == "linux"@ || os == "macos"@ {
        Some("HOME"@)
    } else if os == "windows"@ {
        Some("USERPROFILE"@)
    } else {
        None
    }
}

/// Names the environment variable that holds the home folder on `os`, one
/// of `linux`, `windows` and `macos`.
pub fn home_variable(os: &str) -> (r: Option<&'static str>)
    ensures
        match home_variable_of(os@) {
            Some(v) => r matches Some(s) && s@ == v,
            None => r is None,
        },
{
    if same_text(os, "linux") || same_text(os, "macos") {
        Some("HOME")
    } else if same_text(os, "windows") {
        Some("USERPROFILE")
    } else {
        None
    }
}

/// Whether the terminal of `os` is cleared with the `clear` command (else
/// with `cls`).
pub fn uses_clear_command(os: &str) -> (r: bool)
    ensures
        r == (os@ == "linux"@ || os@ == "macos"@),
{
    same_text(os, "linux") || same_text(os, "macos")
}

/// The folder, under the home folder `home`, where passfiles are kept on
/// `os`.
pub open spec fn location_of(os: Seq<char>, home: Seq<char>) -> Option<Seq<char>> {
    if os == "linux"@ {
        Some(home + "/.config/passforge/passfiles/"@)
    } else if os == "windows"@ {
        Some(home + "\\AppData\\Local\\passforge\\passfiles\\"@)
    } else if os == "macos"@ {
        Some(home + "/Library/Application Support/passforge/passfiles/"@)
    } else {
        None
    }
}

/// The passfile folder for `os` and the home folder `home`; `None` for an
/// operating system the program does not know.
pub fn passfile_location(os: &str, home: &str) -> (r: Option<String>)
    ensures
        match location_of(os@, home@) {
            Some(l) => r matches Some(s) && s@ == l,
            None => r is None,
        },
{
    if same_text(os, "linux") {
        Some(String::from_str(home).concat("/.config/passforge/passfiles/"))
    } else if same_text(os, "windows") {
        Some(String::from_str(home).concat("\\AppData\\Local\\passforge\\passfiles\\"))
    } else if same_text(os, "macos") {
        Some(String::from_str(home).concat("/Library/Application Support/passforge/passfiles/"))
    } else {
        None
    }
}

/// The path of the passfile named `name` in the folder `location`.
pub fn passfile_path(location: &str, name: &str) -> (r: String)
    ensures
        r@ == location@ + name@ + ".pfg"@,
{
    String::from_str(location).concat(name).concat(".pfg")
}

/// The path of the default passfile in the folder `location`.
pub fn default_passfile_path(location: &str) -> (r: String)
    ensures
        r@ == location@ + "default.pfg"@,
{
    String::from_str(location).concat("default.pfg")
}

/// The text of an optional string.
pub open spec fn opt_text(o: Option<String>) -> Option<Seq<char>> {
    match o {
        Some(t) => Some(t@),
        None => None,
    }
}

/// How an attempt to open a sealed passfile ended.
#[derive(PartialEq, Eq, Structural, Debug, Clone, Copy)]
pub enum OpenOutcome {
    /// The passfile is now the open one.
    Opened,
    /// The password opened it, but its text is not a passfile.
    InvalidFormat,
    /// The password is wrong or the file is damaged.
    Undecryptable,
}

/// What a session knows, as text.
pub struct SessionView {
    pub location: Option<Seq<char>>,
    pub passfile: Option<Seq<char>>,
    pub password: Option<Seq<char>>,
    pub started_once: bool,
}

impl SessionView {
    /// A passfile is known exactly when its password is.
    pub open spec fn paired(self) -> bool {
        (self.passfile is Some) == (self.password is Some)
    }

    /// The same session with the passfile at `path` open under `password`.
    pub open spec fn opened(self, path: Seq<char>, password: Seq<char>) -> SessionView {
        SessionView {
            location: self.location,
            passfile: Some(path),
            password: Some(password),
            started_once: self.started_once,
        }
    }
}

/// The state of a running session: where new passfiles go, which passfile
/// is open and with which password. A passfile is never known without its
/// password, nor a password without its passfile.
pub struct Session {
    location: Option<String>,
    current_passfile: Option<String>,
    encryption_password: Option<String>,
    started_once: bool,
}

impl View for Session {
    type V = SessionView;

    closed spec fn view(&self) -> SessionView {
        SessionView {
            location: opt_text(self.location),
            passfile: opt_text(self.current_passfile),
            password: opt_text(self.encryption_password),
            started_once: self.started_once,
        }
    }
}

impl Session {
    #[verifier::type_invariant]
    spec fn paired_fields(&self) -> bool {
        self.current_passfile.is_some() == self.encryption_password.is_some()
    }

    /// A session with nothing open, keeping new passfiles in `location`.
    pub fn new(location: Option<String>) -> (r: Session)
        ensures
            r@.location == opt_text(location),
            r@.passfile is None,
            r@.password is None,
            !r@.started_once,
            r@.paired(),
    {
        Session { location, current_passfile: None, encryption_password: None, started_once: false }
    }

    /// Every session holds a passfile exactly when it holds its password.
    pub fn check_paired(&self) -> (r: bool)
        ensures
            r,
            self@.paired(),
    {
        proof {
            use_type_invariant(self);
        }
        true
    }

    /// Makes the passfile at `path`, sealed with `password`, the open one.
    pub fn open(&mut self, path: String, password: String)
        ensures
            final(self)@ == old(self)@.opened(path@, password@),
            final(self)@.paired(),
    {
        proof {
            use_type_invariant(&*self);
        }
        let mut location: Option<String> = None;
        std::mem::swap(&mut location, &mut self.location);
        *self = Session {
            location,
            current_passfile: Some(path),
            encryption_password: Some(password),
            started_once: self.started_once,
        };
    }

    /// Opens the passfile at `path`, whose text is `sealed`, with
    /// `password`, where the password opens it and `is_passfile` accepts the
    /// text inside; otherwise the session stays as it was.
    pub fn open_sealed<F: Fn(&str) -> bool>(
        &mut self,
        path: String,
        password: String,
        sealed: &str,
        is_passfile: F,
    ) -> (r: OpenOutcome)
        requires
            forall|t: &str| is_passfile.requires((t,)),
        ensures
            final(self)@.paired(),
            r == OpenOutcome::Opened ==> final(self)@ == old(self)@.opened(path@, password@),
            r != OpenOutcome::Opened ==> final(self)@ == old(self)@,
            match unsealed(password@, sealed@) {
                None => r == OpenOutcome::Undecryptable,
                Some(text) => (r == OpenOutcome::Opened && exists|t: &str|
                    t@ == text && #[trigger] is_passfile.ensures((t,), true)) || (r
                    == OpenOutcome::InvalidFormat && exists|t: &str|
                    t@ == text && #[trigger] is_passfile.ensures((t,), false)),
            },
    {
        proof {
            use_type_invariant(&*self);
        }
        match unseal(password.as_str(), sealed) {
            Ok(text) => {
                let accepted = is_passfile(text.as_str());
                if accepted {
                    self.open(path, password);
                    OpenOutcome::Opened
                } else {
                    OpenOutcome::InvalidFormat
                }
            },
            Err(_) => OpenOutcome::Undecryptable,
        }
    }

    /// Whether a passfile is open.
    pub fn is_open(&self) -> (r: bool)
        ensures
            r == self@.passfile is Some,
            r == self@.password is Some,
    {
        proof {
            use_type_invariant(self);
        }
        self.current_passfile.is_some()
    }

    /// Whether leaving the passfile announces that it is saved: only where a
    /// passfile and its password are both known.
    pub fn announces_save(&self) -> (r: bool)
        ensures
            r == (self@.passfile is Some && self@.password is Some),
            r == self@.passfile is Some,
    {
        proof {
            use_type_invariant(self);
        }
        self.current_passfile.is_some() && self.encryption_password.is_some()
    }

    /// The open passfile's path and password, where a passfile is open.
    pub fn credentials(&self) -> (r: Option<(&String, &String)>)
        ensures
            match r {
                Some(c) => self@.passfile == Some(c.0@) && self@.password == Some(c.1@),
                None => self@.passfile is None && self@.password is None,
            },
    {
        proof {
            use_type_invariant(self);
        }
        match (&self.current_passfile, &self.encryption_password) {
            (Some(p), Some(k)) => Some((p, k)),
            _ => None,
        }
    }

    /// The folder where new passfiles go.
    pub fn location(&self) -> (r: Option<&String>)
        ensures
            match r {
                Some(l) => self@.location == Some(l@),
                None => self@.location is None,
            },
    {
        self.location.as_ref()
    }

    /// The path of the open passfile.
    pub fn current_passfile(&self) -> (r: Option<&String>)
        ensures
            match r {
                Some(p) => self@.passfile == Some(p@),
                None => self@.passfile is None,
            },
    {
        self.current_passfile.as_ref()
    }

    /// Whether the passfile selector has been shown before.
    pub fn started_once(&self) -> (r: bool)
        ensures
            r == self@.started_once,
    {
        self.started_once
    }

    /// Whether this is the first showing of the passfile selector; marks the
    /// session as started.
    pub fn first_start(&mut self) -> (r: bool)
        ensures
            r == !old(self)@.started_once,
            final(self)@.started_once,
            final(self)@.location == old(self)@.location,
            final(self)@.passfile == old(self)@.passfile,
            final(self)@.password == old(self)@.password,
            final(self)@.paired(),
    {
        proof {
            use_type_invariant(&*self);
        }
        let first = !self.started_once;
        self.started_once = true;
        first
    }
}

} // verus!
