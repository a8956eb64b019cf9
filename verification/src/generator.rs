//! Random passwords.

use vstd::prelude::*;

use rand::distributions::Alphanumeric;
use rand::rngs::ThreadRng;
use rand::Rng;

verus! {

/// `rand::rngs::ThreadRng`, carried through opaque.
#[verifier::external_type_specification]
#[verifier::external_body]
pub struct ExThreadRng(ThreadRng);

/// An ASCII letter or digit.
pub open spec fn is_alphanumeric(c: char) -> bool {
    ||| ('a' <= c && c <= 'z')
    ||| ('A' <= c && c <= 'Z')
    ||| ('0' <= c && c <= '9')
}

/// The byte of an ASCII letter or digit.
pub open spec fn is_alphanumeric_byte(b: u8) -> bool {
    ||| (97 <= b && b <= 122)
    ||| (65 <= b && b <= 90)
    ||| (48 <= b && b <= 57)
}

/// The letters and digits that passwords with special characters draw from.
pub open spec fn plain_characters() -> Seq<char> {
    "abcdefghijklmnopqrstuvwxyzABCDEFGHIJKLMNOPQRSTUVWXYZ0123456789"@
}

/// The special characters that passwords with special characters draw from.
pub open spec fn special_characters() -> Seq<char> {
    "!@#$%^&*()_+-=[]{}|;:,.<>?"@
}

/// Every character a password with special characters may hold, in order.
pub open spec fn full_alphabet() -> Seq<char> {
    plain_characters() + special_characters()
}

/// Calls `rand::thread_rng`. Nothing is stated of the generator.
#[verifier::external_body]
fn new_rng() -> ThreadRng {
    rand::thread_rng()
}

/// Calls `Rng::sample(Alphanumeric)`. Trusted: the byte is an ASCII letter
/// or digit; which one is left to chance.
#[verifier::external_body]
fn sample_alphanumeric(rng: &mut ThreadRng) -> (b: u8)
    ensures
        is_alphanumeric_byte(b),
{
    rng.sample(Alphanumeric)
}

/// Calls `Rng::gen_range(0..bound)`, which panics on an empty range.
/// Trusted: the result lies below `bound`; which one is left to chance.
#[verifier::external_body]
fn random_below(rng: &mut ThreadRng, bound: usize) -> (i: usize)
    requires
        bound > 0,
    ensures
        i < bound,
{
    rng.gen_range(0..bound)
}

/// Calls `String::push`. Trusted: the character is added at the end.
#[verifier::external_body]
fn push_char(s: &mut String, c: char)
    ensures
        final(s)@ == old(s)@.push(c),
{
    s.push(c)
}

/// The password spelled by `bytes`, each byte read as a character.
pub fn password_from_bytes(bytes: &Vec<u8>) -> (p: String)
    ensures
        p@.len() == bytes@.len(),
        forall|i: int| 0 <= i < bytes@.len() ==> #[trigger] p@[i] == (bytes@[i] as char),
{
    let mut p = String::new();
    let mut i: usize = 0;
    while i < bytes.len()
        invariant
            i <= bytes@.len(),
            p@.len() == i,
            forall|k: int| 0 <= k < i ==> #[trigger] p@[k] == (bytes@[k] as char),
        decreases bytes@.len() - i,
    {
        let c = bytes[i] as char;
        push_char(&mut p, c);
        i = i + 1;
    }
    p
}

/// The password whose characters are those at `indices` in the full
/// alphabet.
pub fn password_from_indices(indices: &Vec<usize>) -> (p: String)
    requires
        forall|i: int| 0 <= i < indices@.len() ==> #[trigger] indices@[i] < full_alphabet().len(),
    ensures
        p@.len() == indices@.len(),
        forall|i: int|
            0 <= i < indices@.len() ==> #[trigger] p@[i] == full_alphabet()[indices@[i] as int],
{
    let alphabet = String::from_str("abcdefghijklmnopqrstuvwxyzABCDEFGHIJKLMNOPQRSTUVWXYZ0123456789")
        .concat("!@#$%^&*()_+-=[]{}|;:,.<>?");
    assert(alphabet@ == full_alphabet());
    let mut p = String::new();
    let mut i: usize = 0;
    while i < indices.len()
        invariant
            i <= indices@.len(),
            alphabet@ == full_alphabet(),
            forall|k: int| 0 <= k < indices@.len() ==> #[trigger] indices@[k] < full_alphabet().len(),
            p@.len() == i,
            forall|k: int| 0 <= k < i ==> #[trigger] p@[k] == full_alphabet()[indices@[k] as int],
        decreases indices@.len() - i,
    {
        let c = alphabet.as_str().get_char(indices[i]);
        push_char(&mut p, c);
        i = i + 1;
    }
    p
}

/// The number of characters in the full alphabet.
pub fn alphabet_size() -> (n: usize)
    ensures
        n == full_alphabet().len(),
        n == 88,
{
    proof {
        reveal_strlit("abcdefghijklmnopqrstuvwxyzABCDEFGHIJKLMNOPQRSTUVWXYZ0123456789");
        reveal_strlit("!@#$%^&*()_+-=[]{}|;:,.<>?");
    }
    88
}

/// A random password of `length` ASCII letters and digits.
pub fn generate_random_password(length: usize) -> (p: String)
    ensures
        p@.len() == length,
        forall|i: int| 0 <= i < length ==> #[trigger] is_alphanumeric(p@[i]),
{
    let mut rng = new_rng();
    let mut bytes: Vec<u8> = Vec::new();
    let mut i: usize = 0;
    while i < length
        invariant
            i <= length,
            bytes@.len() == i,
            forall|k: int| 0 <= k < i ==> #[trigger] is_alphanumeric_byte(bytes@[k]),
        decreases length - i,
    {
        bytes.push(sample_alphanumeric(&mut rng));
        i = i + 1;
    }
    let p = password_from_bytes(&bytes);
    assert forall|k: int| 0 <= k < length implies #[trigger] is_alphanumeric(p@[k]) by {
        let b = bytes@[k];
        assert(is_alphanumeric_byte(b));
        assert(p@[k] == (b as char));
    }
    p
}

/// A random password of `length` characters drawn from the letters, the
/// digits and the special characters.
pub fn generate_random_password_with_special(length: usize) -> (p: String)
    ensures
        p@.len() == length,
        forall|i: int| 0 <= i < length ==> #[trigger] full_alphabet().contains(p@[i]),
{
    let mut rng = new_rng();
    let n = alphabet_size();
    let mut indices: Vec<usize> = Vec::new();
    let mut i: usize = 0;
    while i < length
        invariant
            i <= length,
            n == full_alphabet().len(),
            n > 0,
            indices@.len() == i,
            forall|k: int| 0 <= k < i ==> #[trigger] indices@[k] < full_alphabet().len(),
        decreases length - i,
    {
        indices.push(random_below(&mut rng, n));
        i = i + 1;
    }
    let p = password_from_indices(&indices);
    assert forall|k: int| 0 <= k < length implies #[trigger] full_alphabet().contains(p@[k]) by {
        assert(full_alphabet()[indices@[k] as int] == p@[k]);
    }
    p
}

} // verus!
