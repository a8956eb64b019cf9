use passforge::entry::{
    edit_password_reply, edited_field, new_password_reply, resolve_password, LoginEntry,
    PasswordReply,
};

fn sample() -> LoginEntry {
    LoginEntry::new(
        "mail".to_string(),
        "alice".to_string(),
        "s3cret".to_string(),
        "https://mail.example".to_string(),
        "personal".to_string(),
    )
}

#[test]
fn new_entry_holds_its_fields() {
    let e = sample();
    assert_eq!(e.title, "mail");
    assert_eq!(e.username, "alice");
    assert_eq!(e.password, "s3cret");
    assert_eq!(e.url, "https://mail.example");
    assert_eq!(e.notes, "personal");
}

#[test]
fn clone_copies_every_field() {
    let e = sample();
    let c = e.clone();
    assert_eq!(c.title, e.title);
    assert_eq!(c.username, e.username);
    assert_eq!(c.password, e.password);
    assert_eq!(c.url, e.url);
    assert_eq!(c.notes, e.notes);
}

#[test]
fn blank_reply_keeps_field() {
    assert_eq!(edited_field(&"alice".to_string(), ""), "alice");
    assert_eq!(edited_field(&"alice".to_string(), "  \n"), "alice");
}

#[test]
fn reply_replaces_field_trimmed() {
    assert_eq!(edited_field(&"alice".to_string(), "  bob \n"), "bob");
}

#[test]
fn edited_entry_follows_replies() {
    let e = sample();
    let r = e.edited("mail", "\n", "newpass".to_string(), " https://new.example\n", "");
    assert_eq!(r.title, "mail");
    assert_eq!(r.username, "alice");
    assert_eq!(r.password, "newpass");
    assert_eq!(r.url, "https://new.example");
    assert_eq!(r.notes, "personal");
}

#[test]
fn blank_edit_gives_entry_back() {
    let e = sample();
    let r = e.edited("mail", "", e.password.clone(), " ", "\t");
    assert_eq!(r.title, e.title);
    assert_eq!(r.username, e.username);
    assert_eq!(r.password, e.password);
    assert_eq!(r.url, e.url);
    assert_eq!(r.notes, e.notes);
}

#[test]
fn new_password_reply_reads_generate() {
    assert!(matches!(new_password_reply("generate"), PasswordReply::Generate));
    assert!(matches!(new_password_reply("  generate\n"), PasswordReply::Generate));
    match new_password_reply("Generate") {
        PasswordReply::Typed(p) => assert_eq!(p, "Generate"),
        _ => panic!("expected a typed password"),
    }
    match new_password_reply(" hunter2 \n") {
        PasswordReply::Typed(p) => assert_eq!(p, "hunter2"),
        _ => panic!("expected a typed password"),
    }
    match new_password_reply("") {
        PasswordReply::Typed(p) => assert_eq!(p, ""),
        _ => panic!("expected a typed password"),
    }
}

#[test]
fn edit_password_reply_keeps_on_blank() {
    assert!(matches!(edit_password_reply("   \n"), PasswordReply::Keep));
    assert!(matches!(edit_password_reply("generate"), PasswordReply::Generate));
    match edit_password_reply(" x ") {
        PasswordReply::Typed(p) => assert_eq!(p, "x"),
        _ => panic!("expected a typed password"),
    }
}

#[test]
fn resolve_password_per_reply() {
    assert_eq!(resolve_password(&PasswordReply::Keep, "old"), "old");
    assert_eq!(resolve_password(&PasswordReply::Typed("new".to_string()), "old"), "new");
    let g = resolve_password(&PasswordReply::Generate, "old");
    assert_eq!(g.chars().count(), 16);
    assert!(g.chars().all(|c| c.is_ascii_alphanumeric()));
}
