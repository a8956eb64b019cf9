use passforge::entry::LoginEntry;
use passforge::vault::PassFile;

fn entry(title: &str, password: &str) -> LoginEntry {
    LoginEntry::new(
        title.to_string(),
        "user".to_string(),
        password.to_string(),
        "https://example.org".to_string(),
        String::new(),
    )
}

#[test]
fn new_vault_is_empty() {
    let v = PassFile::new();
    assert!(v.is_empty());
    assert_eq!(v.len(), 0);
    assert!(v.titles().is_empty());
    assert!(v.get("anything").is_none());
}

#[test]
fn lookup_after_insert_finds_the_entry() {
    let mut v = PassFile::new();
    v.insert("bank".to_string(), entry("bank", "p1"));
    let e = v.get("bank").unwrap();
    assert_eq!(e.password, "p1");
    assert!(v.contains("bank"));
    assert_eq!(v.len(), 1);
}

#[test]
fn insert_leaves_other_titles() {
    let mut v = PassFile::new();
    v.insert("a".to_string(), entry("a", "1"));
    v.insert("b".to_string(), entry("b", "2"));
    assert_eq!(v.get("a").unwrap().password, "1");
    assert_eq!(v.get("b").unwrap().password, "2");
    assert!(v.get("c").is_none());
}

#[test]
fn insert_overwrites_same_title() {
    let mut v = PassFile::new();
    v.insert("a".to_string(), entry("a", "1"));
    v.insert("b".to_string(), entry("b", "2"));
    v.insert("a".to_string(), entry("a", "3"));
    assert_eq!(v.len(), 2);
    assert_eq!(v.get("a").unwrap().password, "3");
    assert_eq!(v.titles(), vec!["a".to_string(), "b".to_string()]);
}

#[test]
fn remove_drops_only_that_title() {
    let mut v = PassFile::new();
    v.add(entry("a", "1"));
    v.add(entry("b", "2"));
    v.add(entry("c", "3"));
    v.remove("b");
    assert!(v.get("b").is_none());
    assert_eq!(v.len(), 2);
    assert_eq!(v.titles(), vec!["a".to_string(), "c".to_string()]);
    v.remove("zzz");
    assert_eq!(v.len(), 2);
}

#[test]
fn delete_undoes_add() {
    let mut v = PassFile::new();
    v.add(entry("a", "1"));
    v.add(entry("new", "x"));
    v.remove("new");
    assert_eq!(v.titles(), vec!["a".to_string()]);
    assert_eq!(v.get("a").unwrap().password, "1");
}

#[test]
fn titles_are_listed_once_each() {
    let mut v = PassFile::new();
    for t in ["x", "y", "x", "z", "y"] {
        v.add(entry(t, t));
    }
    assert_eq!(v.titles(), vec!["x".to_string(), "y".to_string(), "z".to_string()]);
}

#[test]
fn add_keys_by_title() {
    let mut v = PassFile::new();
    v.add(entry("GitHub", "gh"));
    assert!(v.contains("GitHub"));
    assert!(!v.contains("github"));
}
