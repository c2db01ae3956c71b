use vstd::prelude::*;

verus! {

/// Relies on str's PartialEq: two string slices are equal exactly when
/// their character sequences are.
#[verifier::external_body]
pub fn str_eq(a: &str, b: &str) -> (r: bool)
    ensures
        r == (a@ == b@),
{
    a == b
}

/// An insertion-ordered association of names to values.
///
/// Both the tensor store and the operator store of a graph use this type.
/// Iteration order is the insertion order, which makes edge inference and
/// the scheduler deterministic; inserting under an existing name replaces
/// the value in place.
pub struct Store<V> {
    items: Vec<(String, V)>,
}

/// Whether some entry carries the key `k`.
pub open spec fn has_key<V>(s: Seq<(Seq<char>, V)>, k: Seq<char>) -> bool {
    exists|i: int| 0 <= i < s.len() && s[i].0 == k
}

/// The index of the first entry carrying `k`; the length when none does.
pub open spec fn find_key<V>(s: Seq<(Seq<char>, V)>, k: Seq<char>) -> int
    decreases s.len(),
{
    if s.len() == 0 {
        0
    } else if s[0].0 == k {
        0
    } else {
        1 + find_key(s.drop_first(), k)
    }
}

/// The value stored under `k`, if any.
pub open spec fn get_key<V>(s: Seq<(Seq<char>, V)>, k: Seq<char>) -> Option<V> {
    if has_key(s, k) {
        Some(s[find_key(s, k)].1)
    } else {
        None
    }
}

/// The entry sequence after storing `v` under `k`: the first entry named
/// `k` is replaced in place, or a new entry is appended.
pub open spec fn upserted<V>(s: Seq<(Seq<char>, V)>, k: Seq<char>, v: V) -> Seq<(Seq<char>, V)> {
    if has_key(s, k) {
        s.update(find_key(s, k), (k, v))
    } else {
        s.push((k, v))
    }
}

/// No two entries share a key.
pub open spec fn unique_keys<V>(s: Seq<(Seq<char>, V)>) -> bool {
    forall|i: int, j: int| 0 <= i < j < s.len() ==> s[i].0 != s[j].0
}

/// Two entry sequences with pointwise-equal keys agree on where any key is.
pub proof fn lemma_find_key_same_keys<V>(s1: Seq<(Seq<char>, V)>, s2: Seq<(Seq<char>, V)>, k: Seq<char>)
    requires
        s1.len() == s2.len(),
        forall|j: int| 0 <= j < s1.len() ==> s1[j].0 == s2[j].0,
    ensures
        has_key(s1, k) == has_key(s2, k),
        find_key(s1, k) == find_key(s2, k),
    decreases s1.len(),
{
    if s1.len() > 0 {
        lemma_find_key_same_keys(s1.drop_first(), s2.drop_first(), k);
        assert(forall|i: int| 0 < i < s1.len() ==> s1.drop_first()[i - 1] == s1[i]);
        assert(forall|i: int| 0 < i < s2.len() ==> s2.drop_first()[i - 1] == s2[i]);
        if has_key(s1, k) {
            let w = choose|i: int| 0 <= i < s1.len() && s1[i].0 == k;
            assert(s2[w].0 == k);
        }
        if has_key(s2, k) {
            let w = choose|i: int| 0 <= i < s2.len() && s2[i].0 == k;
            assert(s1[w].0 == k);
        }
    }
}

/// How `get_key` reads an appended entry sequence.
proof fn lemma_get_key_push<V>(s: Seq<(Seq<char>, V)>, p: (Seq<char>, V), k: Seq<char>)
    ensures
        get_key(s.push(p), k) == (if has_key(s, k) {
            get_key(s, k)
        } else if p.0 == k {
            Some(p.1)
        } else {
            None::<V>
        }),
        has_key(s.push(p), k) == (has_key(s, k) || p.0 == k),
    decreases s.len(),
{
    lemma_find_key(s, k);
    lemma_find_key(s.push(p), k);
    let t = s.push(p);
    if has_key(s, k) {
        let w = choose|i: int| 0 <= i < s.len() && s[i].0 == k;
        assert(t[w].0 == k);
        assert(has_key(t, k));
        let i1 = find_key(s, k);
        let i2 = find_key(t, k);
        assert(t[i1].0 == k);
        if i2 < i1 {
            assert(s[i2] == t[i2]);
        }
        assert(i2 == i1);
        assert(t[i1] == s[i1]);
    } else if p.0 == k {
        assert(t[s.len() as int].0 == k);
        assert(has_key(t, k));
        let i2 = find_key(t, k);
        assert(i2 == s.len() as int) by {
            if i2 < s.len() {
                assert(s[i2] == t[i2]);
                assert(has_key(s, k));
            }
        }
    } else {
        if has_key(t, k) {
            let w = choose|i: int| 0 <= i < t.len() && t[i].0 == k;
            assert(w < s.len() ==> s[w].0 == k);
            assert(w == s.len() ==> t[w].0 == p.0);
        }
    }
}

/// What storing a value under a key does to every lookup: the stored key
/// now yields the new value, every other key reads as before, and the
/// length grows exactly when the key was absent.
pub proof fn lemma_upserted<V>(s: Seq<(Seq<char>, V)>, k: Seq<char>, v: V)
    ensures
        has_key(upserted(s, k, v), k),
        get_key(upserted(s, k, v), k) == Some(v),
        forall|k2: Seq<char>|
            k2 != k ==> #[trigger] get_key(upserted(s, k, v), k2) == get_key(s, k2),
        forall|k2: Seq<char>|
            k2 != k ==> #[trigger] has_key(upserted(s, k, v), k2) == has_key(s, k2),
        upserted(s, k, v).len() == (if has_key(s, k) {
            s.len() as int
        } else {
            s.len() as int + 1
        }),
        unique_keys(s) ==> unique_keys(upserted(s, k, v)),
{
    lemma_find_key(s, k);
    let t = upserted(s, k, v);
    if has_key(s, k) {
        let i = find_key(s, k);
        assert(t == s.update(i, (k, v)));
        assert(t[i].0 == k);
        assert forall|k2: Seq<char>| true implies {
            &&& #[trigger] has_key(t, k2) == has_key(s, k2)
            &&& find_key(t, k2) == find_key(s, k2)
        } by {
            lemma_find_key_same_keys(s, t, k2);
        }
        assert(get_key(t, k) == Some(v));
        assert forall|k2: Seq<char>| k2 != k implies #[trigger] get_key(t, k2) == get_key(
            s,
            k2,
        ) by {
            lemma_find_key_same_keys(s, t, k2);
            if has_key(s, k2) {
                lemma_find_key(s, k2);
                let j = find_key(s, k2);
                assert(s[j].0 == k2);
                assert(j != i);
                assert(t[j] == s[j]);
            }
        }
    } else {
        assert(t == s.push((k, v)));
        lemma_get_key_push(s, (k, v), k);
        assert forall|k2: Seq<char>| k2 != k implies #[trigger] get_key(t, k2) == get_key(
            s,
            k2,
        ) by {
            lemma_get_key_push(s, (k, v), k2);
        }
        assert forall|k2: Seq<char>| k2 != k implies #[trigger] has_key(t, k2) == has_key(
            s,
            k2,
        ) by {
            lemma_get_key_push(s, (k, v), k2);
        }
        if unique_keys(s) {
            assert forall|i: int, j: int| 0 <= i < j < t.len() implies t[i].0 != t[j].0 by {
                if j == s.len() as int {
                    assert(t[i] == s[i]);
                    assert(!has_key(s, k));
                    assert(s[i].0 != k);
                }
            }
        }
    }
}

/// `find_key` points at the first entry with the key, or past the end.
pub proof fn lemma_find_key<V>(s: Seq<(Seq<char>, V)>, k: Seq<char>)
    ensures
        has_key(s, k) ==> {
            &&& 0 <= find_key(s, k) < s.len()
            &&& s[find_key(s, k)].0 == k
            &&& forall|j: int| 0 <= j < find_key(s, k) ==> s[j].0 != k
        },
        !has_key(s, k) ==> find_key(s, k) == s.len(),
    decreases s.len(),
{
    if s.len() > 0 && s[0].0 != k {
        lemma_find_key(s.drop_first(), k);
        assert(forall|i: int| 0 < i < s.len() ==> s.drop_first()[i - 1] == s[i]);
        if has_key(s, k) {
            let w = choose|i: int| 0 <= i < s.len() && s[i].0 == k;
            assert(s.drop_first()[w - 1].0 == k);
        }
    }
}

impl<V> View for Store<V> {
    type V = Seq<(Seq<char>, V)>;

    closed spec fn view(&self) -> Seq<(Seq<char>, V)> {
        self.items@.map_values(|p: (String, V)| (p.0@, p.1))
    }
}

impl<V> Store<V> {
    pub fn new() -> (r: Self)
        ensures
            r@ == Seq::<(Seq<char>, V)>::empty(),
    {
        let r = Store { items: Vec::new() };
        proof {
            assert(r@ =~= Seq::<(Seq<char>, V)>::empty());
        }
        r
    }

    pub fn len(&self) -> (r: usize)
        ensures
            r == self@.len(),
    {
        self.items.len()
    }

    /// The index of the first entry named `k`, if one exists.
    pub fn index_of(&self, k: &str) -> (r: Option<usize>)
        ensures
            match r {
                Some(i) => has_key(self@, k@) && i == find_key(self@, k@),
                None => !has_key(self@, k@),
            },
    {
        let n = self.items.len();
        for i in 0..n
            invariant
                n == self@.len(),
                forall|j: int| 0 <= j < i ==> self@[j].0 != k@,
        {
            assert(self@[i as int].0 == self.items@[i as int].0@);
            if str_eq(self.items[i].0.as_str(), k) {
                assert(self@[i as int].0 == k@);
                assert(has_key(self@, k@));
                proof {
                    lemma_find_key(self@, k@);
                }
                return Some(i);
            }
        }
        None
    }

    pub fn contains_key(&self, k: &str) -> (r: bool)
        ensures
            r == has_key(self@, k@),
    {
        self.index_of(k).is_some()
    }

    pub fn get(&self, k: &str) -> (r: Option<&V>)
        ensures
            match r {
                Some(v) => get_key(self@, k@) == Some(*v),
                None => get_key(self@, k@) is None,
            },
    {
        proof {
            lemma_find_key(self@, k@);
        }
        match self.index_of(k) {
            Some(i) => Some(&self.items[i].1),
            None => None,
        }
    }

    /// Stores `v` under `k`: replaces the first entry named `k` in place,
    /// or appends a new entry when none exists.
    pub fn insert(&mut self, k: &str, v: V)
        ensures
            final(self)@ == upserted(old(self)@, k@, v),
    {
        let name = k.to_owned();
        match self.index_of(k) {
            Some(i) => {
                proof {
                    lemma_find_key(self@, k@);
                }
                let _ = self.items.remove(i);
                self.items.insert(i, (name, v));
                assert(self@ =~= old(self)@.update(find_key(old(self)@, k@), (k@, v)));
            }
            None => {
                self.items.push((name, v));
                assert(self@ =~= old(self)@.push((k@, v)));
            }
        }
    }

    /// The name of the entry at position `i`.
    pub fn key_at(&self, i: usize) -> (r: &String)
        requires
            i < self@.len(),
        ensures
            r@ == self@[i as int].0,
    {
        &self.items[i].0
    }

    /// The value of the entry at position `i`.
    pub fn value_at(&self, i: usize) -> (r: &V)
        requires
            i < self@.len(),
        ensures
            *r == self@[i as int].1,
    {
        &self.items[i].1
    }

    /// Removes and returns the entry at position `i`.
    pub fn take_at(&mut self, i: usize) -> (r: (String, V))
        requires
            i < old(self)@.len(),
        ensures
            r.0@ == old(self)@[i as int].0,
            r.1 == old(self)@[i as int].1,
            final(self)@ == old(self)@.remove(i as int),
    {
        self.items.remove(i)
    }

    /// Puts an entry back at position `i`.
    pub fn put_at(&mut self, i: usize, k: String, v: V)
        requires
            i <= old(self)@.len(),
        ensures
            final(self)@ == old(self)@.insert(i as int, (k@, v)),
    {
        self.items.insert(i, (k, v));
        assert(self@ =~= old(self)@.insert(i as int, (k@, v)));
    }

    /// Removes the first entry named `k`, if any.
    pub fn remove(&mut self, k: &str) -> (r: bool)
        ensures
            r == has_key(old(self)@, k@),
            final(self)@ == (if has_key(old(self)@, k@) {
                old(self)@.remove(find_key(old(self)@, k@))
            } else {
                old(self)@
            }),
    {
        proof {
            lemma_find_key(self@, k@);
        }
        match self.index_of(k) {
            Some(i) => {
                let _ = self.items.remove(i);
                assert(self@ =~= old(self)@.remove(find_key(old(self)@, k@)));
                true
            }
            None => {
                false
            }
        }
    }
}

} // verus!
