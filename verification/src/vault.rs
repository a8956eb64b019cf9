//! The vault: logins kept under their titles, no title twice.

use vstd::prelude::*;

use crate::entry::{EntryView, LoginEntry};

verus! {

/// The logins of one passfile, each kept under a title.
pub struct PassFile {
    entries: Vec<(String, LoginEntry)>,
}

/// The titles of a list of titled logins, in order.
pub open spec fn titles_of(s: Seq<(String, LoginEntry)>) -> Seq<Seq<char>> {
    s.map_values(|p: (String, LoginEntry)| p.0@)
}

/// The map from title to login that a list of titled logins stands for.
pub open spec fn map_of(s: Seq<(String, LoginEntry)>) -> Map<Seq<char>, EntryView>
    decreases s.len(),
{
    if s.len() == 0 {
        Map::empty()
    } else {
        map_of(s.drop_last()).insert(s.last().0@, s.last().1@)
    }
}

/// Holds of every title but `k`.
pub open spec fn other_than(k: Seq<char>) -> spec_fn(Seq<char>) -> bool {
    |t: Seq<char>| t != k
}

/// No title occurs twice.
pub open spec fn distinct_titles(s: Seq<(String, LoginEntry)>) -> bool {
    forall|i: int, j: int| 0 <= i < s.len() && 0 <= j < s.len() && i != j ==> s[i].0@ != s[j].0@
}

/// A title is in the map exactly when some pair holds it, and with distinct
/// titles the map holds that pair's login.
proof fn lemma_map_of(s: Seq<(String, LoginEntry)>)
    requires
        distinct_titles(s),
    ensures
        map_of(s).dom().finite(),
        map_of(s).len() == s.len(),
        forall|k: Seq<char>| #[trigger]
            map_of(s).dom().contains(k) <==> exists|i: int| 0 <= i < s.len() && s[i].0@ == k,
        forall|i: int| 0 <= i < s.len() ==> #[trigger] map_of(s)[s[i].0@] == s[i].1@,
    decreases s.len(),
{
    if s.len() > 0 {
        let t = s.drop_last();
        assert(distinct_titles(t));
        lemma_map_of(t);
        let last = s.last().0@;
        assert(!map_of(t).dom().contains(last)) by {
            if map_of(t).dom().contains(last) {
                let i = choose|i: int| 0 <= i < t.len() && t[i].0@ == last;
                assert(s[i].0@ == s[s.len() - 1].0@);
            }
        }
        assert forall|k: Seq<char>| #[trigger]
            map_of(s).dom().contains(k) <==> exists|i: int| 0 <= i < s.len() && s[i].0@ == k by {
            if map_of(s).dom().contains(k) && k != last {
                let i = choose|i: int| 0 <= i < t.len() && t[i].0@ == k;
                assert(s[i].0@ == k);
            }
            if exists|i: int| 0 <= i < s.len() && s[i].0@ == k {
                let i = choose|i: int| 0 <= i < s.len() && s[i].0@ == k;
                if i < s.len() - 1 {
                    assert(t[i].0@ == k);
                }
            }
        }
        assert forall|i: int| 0 <= i < s.len() implies #[trigger] map_of(s)[s[i].0@] == s[i].1@ by {
            if i < s.len() - 1 {
                assert(t[i] == s[i]);
                assert(s[i].0@ != last);
            }
        }
    }
}

impl View for PassFile {
    type V = Map<Seq<char>, EntryView>;

    closed spec fn view(&self) -> Map<Seq<char>, EntryView> {
        map_of(self.entries@)
    }
}

impl PassFile {
    #[verifier::type_invariant]
    spec fn titles_distinct(&self) -> bool {
        distinct_titles(self.entries@)
    }

    /// The titles in the order in which `titles` lists them.
    pub closed spec fn order(&self) -> Seq<Seq<char>> {
        titles_of(self.entries@)
    }

    /// An empty vault.
    pub fn new() -> (r: PassFile)
        ensures
            r@ == Map::<Seq<char>, EntryView>::empty(),
            r@.dom().finite(),
            r.order() == Seq::<Seq<char>>::empty(),
    {
        let r = PassFile { entries: Vec::new() };
        assert(r.order() =~= Seq::<Seq<char>>::empty());
        r
    }

    /// The index of the pair that holds `title`.
    fn find(&self, title: &str) -> (r: Option<usize>)
        ensures
            match r {
                Some(i) => i < self.entries@.len() && self.entries@[i as int].0@ == title@,
                None => forall|i: int| 0 <= i < self.entries@.len() ==> self.entries@[i].0@ != title@,
            },
    {
        let mut i: usize = 0;
        while i < self.entries.len()
            invariant
                i <= self.entries@.len(),
                forall|k: int| 0 <= k < i ==> self.entries@[k].0@ != title@,
            decreases self.entries@.len() - i,
        {
            if crate::text::same_text(self.entries[i].0.as_str(), title) {
                return Some(i);
            }
            i = i + 1;
        }
        None
    }

    /// How many logins the vault holds.
    pub fn len(&self) -> (r: usize)
        ensures
            self@.dom().finite(),
            r == self@.len(),
    {
        proof {
            use_type_invariant(self);
            lemma_map_of(self.entries@);
        }
        self.entries.len()
    }

    /// Whether the vault holds no login.
    pub fn is_empty(&self) -> (r: bool)
        ensures
            r == (self@.len() == 0),
    {
        self.len() == 0
    }

    /// Whether a login is kept under `title`.
    pub fn contains(&self, title: &str) -> (r: bool)
        ensures
            r == self@.dom().contains(title@),
    {
        proof {
            use_type_invariant(self);
            lemma_map_of(self.entries@);
        }
        match self.find(title) {
            Some(i) => true,
            None => false,
        }
    }

    /// The login kept under `title`.
    pub fn get(&self, title: &str) -> (r: Option<&LoginEntry>)
        ensures
            match r {
                Some(e) => self@.dom().contains(title@) && e@ == self@[title@],
                None => !self@.dom().contains(title@),
            },
    {
        proof {
            use_type_invariant(self);
            lemma_map_of(self.entries@);
        }
        match self.find(title) {
            Some(i) => Some(&self.entries[i].1),
            None => None,
        }
    }

    /// The titles, each once, in the vault's order.
    pub fn titles(&self) -> (r: Vec<String>)
        ensures
            r@.map_values(|t: String| t@) == self.order(),
            self@.dom().finite(),
            self.order().len() == self@.len(),
            self.order().no_duplicates(),
            forall|k: Seq<char>| #[trigger] self@.dom().contains(k) <==> self.order().contains(k),
    {
        proof {
            use_type_invariant(self);
            lemma_map_of(self.entries@);
            let s = self.entries@;
            assert forall|k: Seq<char>| #[trigger]
                self@.dom().contains(k) <==> self.order().contains(k) by {
                if self@.dom().contains(k) {
                    let i = choose|i: int| 0 <= i < s.len() && s[i].0@ == k;
                    assert(self.order()[i] == k);
                }
                if self.order().contains(k) {
                    let i = choose|i: int| 0 <= i < self.order().len() && self.order()[i] == k;
                    assert(s[i].0@ == k);
                }
            }
        }
        let mut r: Vec<String> = Vec::new();
        let mut i: usize = 0;
        while i < self.entries.len()
            invariant
                i <= self.entries@.len(),
                r@.len() == i,
                forall|k: int| 0 <= k < i ==> #[trigger] r@[k]@ == self.entries@[k].0@,
            decreases self.entries@.len() - i,
        {
            r.push(self.entries[i].0.clone());
            i = i + 1;
        }
        assert(r@.map_values(|t: String| t@) =~= self.order());
        r
    }

    /// Keeps `entry` under `title`, in place of any login kept there.
    pub fn insert(&mut self, title: String, entry: LoginEntry)
        ensures
            final(self)@ == old(self)@.insert(title@, entry@),
            old(self)@.dom().contains(title@) ==> final(self).order() == old(self).order(),
            !old(self)@.dom().contains(title@) ==> final(self).order() == old(self).order().push(
                title@,
            ),
    {
        proof {
            use_type_invariant(&*self);
            lemma_map_of(self.entries@);
        }
        let ghost old_entries = self.entries@;
        match self.find(title.as_str()) {
            Some(i) => {
                let ghost k = title@;
                let mut entries = Vec::new();
                std::mem::swap(&mut entries, &mut self.entries);
                entries.set(i, (title, entry));
                proof {
                    let s = entries@;
                    assert(distinct_titles(s)) by {
                        assert forall|a: int, b: int|
                            0 <= a < s.len() && 0 <= b < s.len() && a != b implies s[a].0@
                            != s[b].0@ by {
                            if a != i && b != i {
                                assert(s[a] == old_entries[a] && s[b] == old_entries[b]);
                            } else if a == i {
                                assert(s[b] == old_entries[b]);
                                assert(old_entries[i as int].0@ == k);
                            } else {
                                assert(s[a] == old_entries[a]);
                                assert(old_entries[i as int].0@ == k);
                            }
                        }
                    }
                    lemma_map_of(s);
                    assert(map_of(s) =~= map_of(old_entries).insert(k, entry@)) by {
                        assert forall|t: Seq<char>| #[trigger] map_of(s).dom().contains(t)
                            == map_of(old_entries).insert(k, entry@).dom().contains(t) by {
                            if map_of(s).dom().contains(t) {
                                let j = choose|j: int| 0 <= j < s.len() && s[j].0@ == t;
                                if j != i {
                                    assert(s[j] == old_entries[j]);
                                }
                            }
                            if map_of(old_entries).dom().contains(t) {
                                let j = choose|j: int|
                                    0 <= j < old_entries.len() && old_entries[j].0@ == t;
                                if j != i {
                                    assert(s[j] == old_entries[j]);
                                } else {
                                    assert(s[i as int].0@ == t);
                                }
                            }
                            if t == k {
                                assert(s[i as int].0@ == t);
                            }
                        }
                        assert forall|t: Seq<char>| #[trigger] map_of(s).dom().contains(t)
                            implies map_of(s)[t] == map_of(old_entries).insert(k, entry@)[t] by {
                            let j = choose|j: int| 0 <= j < s.len() && s[j].0@ == t;
                            if j != i {
                                assert(s[j] == old_entries[j]);
                            }
                        }
                    }
                    assert(titles_of(s) =~= titles_of(old_entries));
                }
                self.entries = entries;
            },
            None => {
                let ghost k = title@;
                let mut entries = Vec::new();
                std::mem::swap(&mut entries, &mut self.entries);
                entries.push((title, entry));
                proof {
                    let s = entries@;
                    assert(s.drop_last() =~= old_entries);
                    assert(distinct_titles(s)) by {
                        assert forall|a: int, b: int|
                            0 <= a < s.len() && 0 <= b < s.len() && a != b implies s[a].0@
                            != s[b].0@ by {
                            if a < old_entries.len() && b < old_entries.len() {
                                assert(s[a] == old_entries[a] && s[b] == old_entries[b]);
                            } else if a < old_entries.len() {
                                assert(s[a] == old_entries[a]);
                            } else {
                                assert(s[b] == old_entries[b]);
                            }
                        }
                    }
                    assert(titles_of(s) =~= titles_of(old_entries).push(k));
                }
                self.entries = entries;
            },
        }
    }

    /// Keeps `entry` under its own title, in place of any login kept there.
    pub fn add(&mut self, entry: LoginEntry)
        ensures
            final(self)@ == old(self)@.insert(entry.title@, entry@),
    {
        let title = entry.title.clone();
        self.insert(title, entry);
    }

    /// Drops the login kept under `title`, if there is one.
    pub fn remove(&mut self, title: &str)
        ensures
            final(self)@ == old(self)@.remove(title@),
            final(self).order() == old(self).order().filter(other_than(title@)),
    {
        proof {
            use_type_invariant(&*self);
            lemma_map_of(self.entries@);
        }
        let ghost old_entries = self.entries@;
        let ghost k = title@;
        match self.find(title) {
            Some(i) => {
                let mut entries = Vec::new();
                std::mem::swap(&mut entries, &mut self.entries);
                entries.remove(i);
                proof {
                    let s = entries@;
                    assert(s =~= old_entries.subrange(0, i as int) + old_entries.subrange(
                        i + 1,
                        old_entries.len() as int,
                    ));
                    assert(distinct_titles(s)) by {
                        assert forall|a: int, b: int|
                            0 <= a < s.len() && 0 <= b < s.len() && a != b implies s[a].0@
                            != s[b].0@ by {
                            let a2 = if a < i { a } else { a + 1 };
                            let b2 = if b < i { b } else { b + 1 };
                            assert(s[a] == old_entries[a2] && s[b] == old_entries[b2]);
                        }
                    }
                    lemma_map_of(s);
                    assert(map_of(s) =~= map_of(old_entries).remove(k)) by {
                        assert forall|t: Seq<char>| #[trigger] map_of(s).dom().contains(t)
                            == map_of(old_entries).remove(k).dom().contains(t) by {
                            if map_of(s).dom().contains(t) {
                                let j = choose|j: int| 0 <= j < s.len() && s[j].0@ == t;
                                let j2 = if j < i { j } else { j + 1 };
                                assert(s[j] == old_entries[j2]);
                                assert(j2 != i);
                            }
                            if map_of(old_entries).remove(k).dom().contains(t) {
                                let j = choose|j: int|
                                    0 <= j < old_entries.len() && old_entries[j].0@ == t;
                                assert(j != i);
                                if j < i {
                                    assert(s[j] == old_entries[j]);
                                } else {
                                    assert(s[j - 1] == old_entries[j]);
                                }
                            }
                        }
                        assert forall|t: Seq<char>| #[trigger] map_of(s).dom().contains(t)
                            implies map_of(s)[t] == map_of(old_entries).remove(k)[t] by {
                            let j = choose|j: int| 0 <= j < s.len() && s[j].0@ == t;
                            let j2 = if j < i { j } else { j + 1 };
                            assert(s[j] == old_entries[j2]);
                        }
                    }
                    lemma_titles_filter(old_entries, i as int);
                }
                self.entries = entries;
            },
            None => {
                proof {
                    assert(map_of(old_entries) =~= map_of(old_entries).remove(k));
                    lemma_titles_filter_absent(old_entries, k);
                }
            },
        }
    }
}

/// What a lookup finds after a login is kept under a title: that login.
pub proof fn law_lookup_after_insert(v: Map<Seq<char>, EntryView>, title: Seq<char>, e: EntryView)
    ensures
        v.insert(title, e).dom().contains(title),
        v.insert(title, e)[title] == e,
{
}

/// Keeping a login under one title leaves what every other title holds.
pub proof fn law_insert_keeps_others(
    v: Map<Seq<char>, EntryView>,
    title: Seq<char>,
    e: EntryView,
    other: Seq<char>,
)
    requires
        other != title,
    ensures
        v.insert(title, e).dom().contains(other) == v.dom().contains(other),
        v.dom().contains(other) ==> v.insert(title, e)[other] == v[other],
{
}

/// After a title is dropped nothing is kept under it, and every other title
/// holds what it held.
pub proof fn law_remove(v: Map<Seq<char>, EntryView>, title: Seq<char>, other: Seq<char>)
    ensures
        !v.remove(title).dom().contains(title),
        other != title ==> v.remove(title).dom().contains(other) == v.dom().contains(other),
        other != title && v.dom().contains(other) ==> v.remove(title)[other] == v[other],
{
}

/// Deleting a login just added under a new title gives the vault back.
pub proof fn law_delete_undoes_add(v: Map<Seq<char>, EntryView>, title: Seq<char>, e: EntryView)
    requires
        !v.dom().contains(title),
    ensures
        v.insert(title, e).remove(title) == v,
{
    assert(v.insert(title, e).remove(title) =~= v);
}

/// Keeping a login under a title twice leaves only the second.
pub proof fn law_insert_overwrites(
    v: Map<Seq<char>, EntryView>,
    title: Seq<char>,
    first: EntryView,
    second: EntryView,
)
    ensures
        v.insert(title, first).insert(title, second) == v.insert(title, second),
{
    assert(v.insert(title, first).insert(title, second) =~= v.insert(title, second));
}

/// A login under a new title adds one to the count; one under a title in
/// use leaves the count as it was.
pub proof fn law_insert_count(v: Map<Seq<char>, EntryView>, title: Seq<char>, e: EntryView)
    requires
        v.dom().finite(),
    ensures
        v.dom().contains(title) ==> v.insert(title, e).len() == v.len(),
        !v.dom().contains(title) ==> v.insert(title, e).len() == v.len() + 1,
{
}

/// Dropping the pair at `i`, whose title occurs nowhere else, leaves the
/// titles with that one filtered out.
proof fn lemma_titles_filter(s: Seq<(String, LoginEntry)>, i: int)
    requires
        0 <= i < s.len(),
        distinct_titles(s),
    ensures
        titles_of(s.subrange(0, i) + s.subrange(i + 1, s.len() as int)) == titles_of(s).filter(other_than(s[i].0@)),
    decreases s.len(),
{
    let k = s[i].0@;
    let f = other_than(k);
    if i == s.len() - 1 {
        assert(s.subrange(0, i) + s.subrange(i + 1, s.len() as int) =~= s.drop_last());
        assert(titles_of(s).drop_last() =~= titles_of(s.drop_last()));
        lemma_titles_filter_absent(s.drop_last(), k);
        assert(titles_of(s) =~= titles_of(s.drop_last()).push(k));
        titles_of(s.drop_last()).lemma_filter_push(k, f);
    } else {
        let t = s.drop_last();
        assert(distinct_titles(t));
        lemma_titles_filter(t, i);
        assert(t[i] == s[i]);
        let last = s.last();
        assert(last.0@ != k);
        assert(s.subrange(0, i) + s.subrange(i + 1, s.len() as int) =~= (t.subrange(0, i)
            + t.subrange(i + 1, t.len() as int)).push(last));
        assert(titles_of(s) =~= titles_of(t).push(last.0@));
        titles_of(t).lemma_filter_push(last.0@, f);
        assert(titles_of((t.subrange(0, i) + t.subrange(i + 1, t.len() as int)).push(last))
            =~= titles_of(t.subrange(0, i) + t.subrange(i + 1, t.len() as int)).push(last.0@));
    }
}

/// Filtering out a title that no pair holds leaves the titles unchanged.
proof fn lemma_titles_filter_absent(s: Seq<(String, LoginEntry)>, k: Seq<char>)
    requires
        forall|i: int| 0 <= i < s.len() ==> s[i].0@ != k,
    ensures
        titles_of(s).filter(other_than(k)) == titles_of(s),
    decreases s.len(),
{
    let f = other_than(k);
    if s.len() > 0 {
        let t = s.drop_last();
        lemma_titles_filter_absent(t, k);
        assert(titles_of(s) =~= titles_of(t).push(s.last().0@));
        titles_of(t).lemma_filter_push(s.last().0@, f);
    } else {
        assert(titles_of(s).filter(f) =~= titles_of(s));
    }
}

} // verus!
