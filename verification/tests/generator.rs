use passforge::generator::{
    alphabet_size, generate_random_password, generate_random_password_with_special,
    password_from_bytes, password_from_indices,
};

const ALPHABET: &str =
    "abcdefghijklmnopqrstuvwxyzABCDEFGHIJKLMNOPQRSTUVWXYZ0123456789!@#$%^&*()_+-=[]{}|;:,.<>?";

#[test]
fn bytes_spell_the_password() {
    assert_eq!(password_from_bytes(&b"aZ09".to_vec()), "aZ09");
    assert_eq!(password_from_bytes(&Vec::new()), "");
}

#[test]
fn indices_pick_from_the_alphabet() {
    assert_eq!(password_from_indices(&vec![0, 26, 52, 62, 87]), "aA0!?");
    assert_eq!(password_from_indices(&vec![25, 61, 70]), "z9(");
}

#[test]
fn alphabet_has_eighty_eight_characters() {
    assert_eq!(alphabet_size(), 88);
    assert_eq!(ALPHABET.chars().count(), 88);
}

#[test]
fn random_password_has_the_length_asked() {
    for n in [0usize, 1, 16, 100] {
        let p = generate_random_password(n);
        assert_eq!(p.chars().count(), n);
        assert!(p.chars().all(|c| c.is_ascii_alphanumeric()));
    }
}

#[test]
fn random_password_with_special_uses_the_alphabet() {
    for n in [0usize, 1, 16, 200] {
        let p = generate_random_password_with_special(n);
        assert_eq!(p.chars().count(), n);
        assert!(p.chars().all(|c| ALPHABET.contains(c)));
    }
}
