//! Reading what a user typed: whitespace trimming, yes/no answers and
//! decimal numbers.

use vstd::prelude::*;

verus! {

/// Unicode `White_Space`, the set that `char::is_whitespace` tests.
pub open spec fn is_space(c: char) -> bool {
    ||| ('\u{9}' <= c && c <= '\u{d}')
    ||| c == ' '
    ||| c == '\u{85}'
    ||| c == '\u{a0}'
    ||| c == '\u{1680}'
    ||| ('\u{2000}' <= c && c <= '\u{200a}')
    ||| c == '\u{2028}'
    ||| c == '\u{2029}'
    ||| c == '\u{202f}'
    ||| c == '\u{205f}'
    ||| c == '\u{3000}'
}

/// `s` without its leading whitespace.
pub open spec fn trim_start(s: Seq<char>) -> Seq<char>
    decreases s.len(),
{
    if s.len() > 0 && is_space(s[0]) {
        trim_start(s.drop_first())
    } else {
        s
    }
}

/// `s` without its trailing whitespace.
pub open spec fn trim_end(s: Seq<char>) -> Seq<char>
    decreases s.len(),
{
    if s.len() > 0 && is_space(s.last()) {
        trim_end(s.drop_last())
    } else {
        s
    }
}

/// `s` without leading and trailing whitespace, as `str::trim` gives it.
pub open spec fn trimmed(s: Seq<char>) -> Seq<char> {
    trim_end(trim_start(s))
}

/// What is left after the leading whitespace goes is empty or starts with
/// something else.
proof fn lemma_trim_start_shape(s: Seq<char>)
    ensures
        trim_start(s).len() == 0 || !is_space(trim_start(s)[0]),
        trim_start(s).len() <= s.len(),
    decreases s.len(),
{
    if s.len() > 0 && is_space(s[0]) {
        lemma_trim_start_shape(s.drop_first());
    }
}

/// Dropping the trailing whitespace keeps a prefix that is empty or ends in
/// something else.
proof fn lemma_trim_end_shape(s: Seq<char>)
    ensures
        trim_end(s) == s.subrange(0, trim_end(s).len() as int),
        trim_end(s).len() <= s.len(),
        trim_end(s).len() == 0 || !is_space(trim_end(s).last()),
    decreases s.len(),
{
    if s.len() > 0 && is_space(s.last()) {
        lemma_trim_end_shape(s.drop_last());
        assert(s.drop_last().subrange(0, trim_end(s).len() as int) =~= s.subrange(
            0,
            trim_end(s).len() as int,
        ));
    } else {
        assert(s.subrange(0, s.len() as int) =~= s);
    }
}

/// Trimming what is already trimmed changes nothing.
pub proof fn law_trim_idempotent(s: Seq<char>)
    ensures
        trimmed(trimmed(s)) == trimmed(s),
{
    let u = trim_start(s);
    lemma_trim_start_shape(s);
    lemma_trim_end_shape(u);
    let t = trim_end(u);
    if t.len() > 0 {
        assert(t[0] == u[0]);
        assert(trim_start(t) == t);
        assert(trim_end(t) == t);
    }
}

/// Tests one character for Unicode whitespace.
pub fn is_space_char(c: char) -> (r: bool)
    ensures
        r == is_space(c),
{
    ('\u{9}' <= c && c <= '\u{d}') || c == ' ' || c == '\u{85}' || c == '\u{a0}' || c
        == '\u{1680}' || ('\u{2000}' <= c && c <= '\u{200a}') || c == '\u{2028}' || c
        == '\u{2029}' || c == '\u{202f}' || c == '\u{205f}' || c == '\u{3000}'
}

/// The input with leading and trailing whitespace removed.
pub fn trim(s: &str) -> (r: &str)
    ensures
        r@ == trimmed(s@),
{
    let n = s.unicode_len();
    let mut i: usize = 0;
    assert(s@.subrange(0, n as int) =~= s@);
    while i < n && is_space_char(s.get_char(i))
        invariant
            n == s@.len(),
            i <= n,
            trim_start(s@) == trim_start(s@.subrange(i as int, n as int)),
        decreases n - i,
    {
        assert(s@.subrange(i as int, n as int).drop_first() =~= s@.subrange(i + 1, n as int));
        i = i + 1;
    }
    assert(trim_start(s@) == s@.subrange(i as int, n as int));
    let mut j: usize = n;
    while j > i && is_space_char(s.get_char(j - 1))
        invariant
            n == s@.len(),
            i <= j <= n,
            trim_end(s@.subrange(i as int, n as int)) == trim_end(s@.subrange(i as int, j as int)),
        decreases j,
    {
        assert(s@.subrange(i as int, j as int).drop_last() =~= s@.subrange(i as int, j - 1));
        j = j - 1;
    }
    s.substring_char(i, j)
}


/// Whether two texts hold the same characters.
pub fn same_text(a: &str, b: &str) -> (r: bool)
    ensures
        r == (a@ == b@),
{
    let n = a.unicode_len();
    if n != b.unicode_len() {
        return false;
    }
    let mut i: usize = 0;
    while i < n
        invariant
            n == a@.len(),
            n == b@.len(),
            i <= n,
            forall|k: int| 0 <= k < i ==> a@[k] == b@[k],
        decreases n - i,
    {
        if a.get_char(i) != b.get_char(i) {
            return false;
        }
        i = i + 1;
    }
    assert(a@ =~= b@);
    true
}

/// The only character of `s`, if `s` has exactly one.
pub open spec fn sole_char(s: Seq<char>) -> Option<char> {
    if s.len() == 1 {
        Some(s[0])
    } else {
        None
    }
}

/// The trimmed input, if it is a single character.
pub fn trimmed_char(s: &str) -> (r: Option<char>)
    ensures
        r == sole_char(trimmed(s@)),
{
    let t = trim(s);
    if t.unicode_len() == 1 {
        Some(t.get_char(0))
    } else {
        None
    }
}

/// A reply that means "yes": `y` in either case, whitespace around it
/// aside.
pub open spec fn means_yes(s: Seq<char>) -> bool {
    sole_char(trimmed(s)) == Some('y') || sole_char(trimmed(s)) == Some('Y')
}

/// A reply that means "no": `n` in either case, whitespace around it
/// aside.
pub open spec fn means_no(s: Seq<char>) -> bool {
    sole_char(trimmed(s)) == Some('n') || sole_char(trimmed(s)) == Some('N')
}

/// A reply means yes exactly when, trimmed, it is the one letter `y` or
/// `Y`; it means no exactly when, trimmed, it is `n` or `N`; and no reply
/// means both.
pub proof fn law_yes_and_no_replies(s: Seq<char>)
    ensures
        means_yes(s) <==> (trimmed(s) == seq!['y'] || trimmed(s) == seq!['Y']),
        means_no(s) <==> (trimmed(s) == seq!['n'] || trimmed(s) == seq!['N']),
        means_no(s) ==> !means_yes(s),
        trimmed(s).len() != 1 ==> !means_yes(s) && !means_no(s),
{
    let t = trimmed(s);
    if t.len() == 1 {
        if t[0] == 'y' {
            assert(t =~= seq!['y']);
        }
        if t[0] == 'Y' {
            assert(t =~= seq!['Y']);
        }
        if t[0] == 'n' {
            assert(t =~= seq!['n']);
        }
        if t[0] == 'N' {
            assert(t =~= seq!['N']);
        }
    }
    if t == seq!['y'] {
        assert(t.len() == 1 && t[0] == 'y');
    }
    if t == seq!['Y'] {
        assert(t.len() == 1 && t[0] == 'Y');
    }
    if t == seq!['n'] {
        assert(t.len() == 1 && t[0] == 'n');
    }
    if t == seq!['N'] {
        assert(t.len() == 1 && t[0] == 'N');
    }
}

/// Whether the reply, lower-cased and trimmed, is `y`.
pub fn is_yes(s: &str) -> (r: bool)
    ensures
        r == means_yes(s@),
{
    match trimmed_char(s) {
        Some(c) => c == 'y' || c == 'Y',
        None => false,
    }
}

/// Whether the reply, lower-cased and trimmed, is `n`.
pub fn is_no(s: &str) -> (r: bool)
    ensures
        r == means_no(s@),
{
    match trimmed_char(s) {
        Some(c) => c == 'n' || c == 'N',
        None => false,
    }
}

/// Whether the reply is empty once whitespace is removed.
pub fn is_blank(s: &str) -> (r: bool)
    ensures
        r == (trimmed(s@).len() == 0),
{
    trim(s).unicode_len() == 0
}

/// An ASCII decimal digit.
pub open spec fn is_digit(c: char) -> bool {
    '0' <= c && c <= '9'
}

/// Every character of `s` is an ASCII decimal digit.
pub open spec fn all_digits(s: Seq<char>) -> bool {
    forall|i: int| 0 <= i < s.len() ==> #[trigger] is_digit(s[i])
}

/// The value of a string of decimal digits.
pub open spec fn digits_value(s: Seq<char>) -> nat
    decreases s.len(),
{
    if s.len() == 0 {
        0
    } else {
        digits_value(s.drop_last()) * 10 + ((s.last() as u32) - ('0' as u32)) as nat
    }
}

/// The digits of a number written with an optional leading `+`.
pub open spec fn unsigned_digits(s: Seq<char>) -> Seq<char> {
    if s.len() > 0 && s[0] == '+' {
        s.drop_first()
    } else {
        s
    }
}

/// What `usize::from_str` gives for `s`: an optional `+`, then at least one
/// ASCII digit, and a value that fits.
pub open spec fn parsed_usize(s: Seq<char>) -> Option<usize> {
    let d = unsigned_digits(s);
    if d.len() > 0 && all_digits(d) && digits_value(d) <= usize::MAX {
        Some(digits_value(d) as usize)
    } else {
        None
    }
}

/// A prefix of a digit string has no greater value than the whole.
proof fn lemma_digits_value_prefix(s: Seq<char>, i: int)
    requires
        0 <= i <= s.len(),
        all_digits(s),
    ensures
        digits_value(s.subrange(0, i)) <= digits_value(s),
    decreases s.len() - i,
{
    if i < s.len() {
        lemma_digits_value_prefix(s, i + 1);
        let p = s.subrange(0, i + 1);
        assert(p.drop_last() =~= s.subrange(0, i));
        assert(is_digit(s[i]));
    } else {
        assert(s.subrange(0, i) =~= s);
    }
}

/// Reads a number as `usize::from_str` does; `None` where it fails.
pub fn parse_usize(s: &str) -> (r: Option<usize>)
    ensures
        r == parsed_usize(s@),
{
    let n = s.unicode_len();
    let mut start: usize = 0;
    if n > 0 && s.get_char(0) == '+' {
        start = 1;
    }
    let ghost d = unsigned_digits(s@);
    assert(d =~= s@.subrange(start as int, n as int));
    if start == n {
        return None;
    }
    let mut acc: usize = 0;
    let mut i: usize = start;
    while i < n
        invariant
            n == s@.len(),
            start < n,
            start <= i <= n,
            d =~= s@.subrange(start as int, n as int),
            d == unsigned_digits(s@),
            all_digits(d.subrange(0, i - start)),
            acc == digits_value(d.subrange(0, i - start)),
        decreases n - i,
    {
        let c = s.get_char(i);
        assert(d.subrange(0, i - start + 1).drop_last() =~= d.subrange(0, i - start));
        if !('0' <= c && c <= '9') {
            assert(d[i - start] == c);
            assert(!is_digit(d[i - start]));
            return None;
        }
        let digit = (c as u32 - '0' as u32) as usize;
        assert(d.subrange(0, i - start + 1).last() == c);
        let next = match acc.checked_mul(10) {
            Some(m) => m.checked_add(digit),
            None => None,
        };
        match next {
            Some(v) => {
                acc = v;
            },
            None => {
                proof {
                    let j = i - start + 1;
                    assert forall|k: int| 0 <= k < j implies #[trigger] is_digit(
                        d.subrange(0, j)[k],
                    ) by {
                        if k < j - 1 {
                            assert(d.subrange(0, j)[k] == d.subrange(0, j - 1)[k]);
                        }
                    }
                    assert(digits_value(d.subrange(0, j)) > usize::MAX);
                    if all_digits(d) {
                        lemma_digits_value_prefix(d, j);
                    }
                }
                return None;
            },
        }
        proof {
            let j = i - start + 1;
            assert forall|k: int| 0 <= k < j implies #[trigger] is_digit(d.subrange(0, j)[k]) by {
                if k < j - 1 {
                    assert(d.subrange(0, j)[k] == d.subrange(0, j - 1)[k]);
                }
            }
        }
        i = i + 1;
    }
    assert(d.subrange(0, n - start) =~= d);
    Some(acc)
}

} // verus!
