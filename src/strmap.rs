use vstd::prelude::*;

verus! {

/// Lexicographic order on character sequences (by code point), the order in
/// which `String`'s `Ord` compares.
pub open spec fn seq_lt(a: Seq<char>, b: Seq<char>) -> bool
    decreases a.len(),
{
    if a.len() == 0 {
        b.len() > 0
    } else if b.len() == 0 {
        false
    } else if a[0] == b[0] {
        seq_lt(a.drop_first(), b.drop_first())
    } else {
        (a[0] as int) < (b[0] as int)
    }
}

/// Two different sequences are ordered one way or the other.
pub proof fn lemma_seq_lt_total(a: Seq<char>, b: Seq<char>)
    requires
        a != b,
        !seq_lt(a, b),
    ensures
        seq_lt(b, a),
    decreases a.len(),
{
    if a.len() == 0 {
        assert(b.len() == 0);
        assert(a =~= b);
    } else if b.len() == 0 {
    } else if a[0] == b[0] {
        if a.drop_first() == b.drop_first() {
            assert(a =~= seq![a[0]] + a.drop_first());
            assert(b =~= seq![b[0]] + b.drop_first());
        }
        lemma_seq_lt_total(a.drop_first(), b.drop_first());
    } else {
        assert((a[0] as int) != (b[0] as int));
    }
}

/// Decides `seq_lt(a@, b@)`.
pub fn str_lt(a: &str, b: &str) -> (r: bool)
    ensures
        r == seq_lt(a@, b@),
{
    let la = a.unicode_len();
    let lb = b.unicode_len();
    let mut i: usize = 0;
    assert(a@.skip(0) =~= a@);
    assert(b@.skip(0) =~= b@);
    while i < la && i < lb
        invariant
            la == a@.len(),
            lb == b@.len(),
            i <= la,
            i <= lb,
            seq_lt(a@, b@) == seq_lt(a@.skip(i as int), b@.skip(i as int)),
        decreases la - i,
    {
        let ca = a.get_char(i);
        let cb = b.get_char(i);
        if ca != cb {
            return (ca as u32) < (cb as u32);
        }
        assert(a@.skip(i as int).drop_first() =~= a@.skip(i as int + 1));
        assert(b@.skip(i as int).drop_first() =~= b@.skip(i as int + 1));
        i = i + 1;
    }
    i == la && i < lb
}

/// Decides whether `a` and `b` hold the same characters.
pub fn str_eq(a: &str, b: &str) -> (r: bool)
    ensures
        r == (a@ == b@),
{
    proof {
        lemma_seq_lt_irreflexive(a@);
        if a@ != b@ && !seq_lt(a@, b@) {
            lemma_seq_lt_total(a@, b@);
        }
    }
    !str_lt(a, b) && !str_lt(b, a)
}

/// The key/value pairs of a map, as sequences of characters.
pub open spec fn pairs_view(v: Seq<(String, String)>) -> Seq<(Seq<char>, Seq<char>)> {
    v.map_values(|p: (String, String)| (p.0@, p.1@))
}

/// Keys strictly increase from each entry to the next.
pub open spec fn keys_sorted(e: Seq<(Seq<char>, Seq<char>)>) -> bool {
    forall|i: int| 0 <= i < e.len() - 1 ==> #[trigger] seq_lt(e[i].0, e[i + 1].0)
}

/// The value of the first entry whose key is `k`.
pub open spec fn lookup(e: Seq<(Seq<char>, Seq<char>)>, k: Seq<char>) -> Option<Seq<char>>
    decreases e.len(),
{
    if e.len() == 0 {
        None
    } else if e[0].0 == k {
        Some(e[0].1)
    } else {
        lookup(e.drop_first(), k)
    }
}

/// A mapping from strings to strings, walked in increasing key order.
pub struct StrMap {
    entries: Vec<(String, String)>,
}

impl View for StrMap {
    type V = Seq<(Seq<char>, Seq<char>)>;

    closed spec fn view(&self) -> Seq<(Seq<char>, Seq<char>)> {
        pairs_view(self.entries@)
    }
}

impl StrMap {
    /// Entries are kept in strictly increasing key order.
    pub open spec fn wf(&self) -> bool {
        keys_sorted(self@)
    }

    #[verifier::type_invariant]
    spec fn inv(&self) -> bool {
        keys_sorted(pairs_view(self.entries@))
    }

    /// An empty map.
    pub fn new() -> (r: StrMap)
        ensures
            r.wf(),
            r@.len() == 0,
    {
        StrMap { entries: Vec::new() }
    }

    /// Number of entries; every map keeps its keys in order.
    pub fn len(&self) -> (r: usize)
        ensures
            r == self@.len(),
            self.wf(),
    {
        proof {
            use_type_invariant(self);
        }
        self.entries.len()
    }

    /// The key of entry `i`.
    pub fn key_at(&self, i: usize) -> (r: &String)
        requires
            i < self@.len(),
        ensures
            r@ == self@[i as int].0,
    {
        &self.entries[i].0
    }

    /// The value of entry `i`.
    pub fn value_at(&self, i: usize) -> (r: &String)
        requires
            i < self@.len(),
        ensures
            r@ == self@[i as int].1,
    {
        &self.entries[i].1
    }

    /// Sets the value of `key`: an entry with that key has its value replaced,
    /// otherwise a new entry goes where the key order puts it.
    pub fn insert(&mut self, key: String, value: String)
        ensures
            final(self).wf(),
            lookup(final(self)@, key@) == Some(value@),
            forall|k: Seq<char>| k != key@ ==> lookup(#[trigger] final(self)@, k) == lookup(old(self)@, k),
    {
        let mut taken = StrMap::new();
        std::mem::swap(self, &mut taken);
        proof {
            use_type_invariant(&taken);
        }
        let mut entries = taken.entries;
        let n = entries.len();
        let mut i: usize = 0;
        while i < n && str_lt(entries[i].0.as_str(), key.as_str())
            invariant
                n == pairs_view(entries@).len(),
                i <= n,
                i > 0 ==> seq_lt(pairs_view(entries@)[i - 1].0, key@),
                forall|j: int| 0 <= j < i ==> pairs_view(entries@)[j].0 != key@,
            decreases n - i,
        {
            proof {
                if seq_lt(pairs_view(entries@)[i as int].0, key@) {
                    lemma_seq_lt_irreflexive(key@);
                }
            }
            i = i + 1;
        }
        let ghost before = pairs_view(entries@);
        let ghost kv = (key@, value@);
        if i < n && entries[i].0 == key {
            entries.set(i, (key, value));
            proof {
                assert(pairs_view(entries@) =~= before.update(i as int, kv));
                assert forall|j: int| 0 <= j < pairs_view(entries@).len() - 1 implies #[trigger] seq_lt(pairs_view(entries@)[j].0, pairs_view(entries@)[j + 1].0) by {
                    assert(before[j].0 == pairs_view(entries@)[j].0 && before[j + 1].0 == pairs_view(entries@)[j + 1].0);
                }
                lemma_lookup_set(before, i as int, key@, value@);
            }
        } else {
            proof {
                if i < n {
                    assert(pairs_view(entries@)[i as int].0 == entries@[i as int].0@);
                    lemma_seq_lt_total(pairs_view(entries@)[i as int].0, key@);
                }
            }
            entries.insert(i, (key, value));
            proof {
                assert(pairs_view(entries@) =~= before.insert(i as int, kv));
                assert forall|j: int| 0 <= j < pairs_view(entries@).len() - 1 implies #[trigger] seq_lt(pairs_view(entries@)[j].0, pairs_view(entries@)[j + 1].0) by {
                    if j < i - 1 {
                        assert(before[j].0 == pairs_view(entries@)[j].0 && before[j + 1].0 == pairs_view(entries@)[j + 1].0);
                        assert(seq_lt(before[j].0, before[j + 1].0));
                    } else if j > i {
                        let jj = j - 1;
                        assert(before[jj].0 == pairs_view(entries@)[j].0 && before[jj + 1].0 == pairs_view(entries@)[j + 1].0);
                        assert(seq_lt(before[jj].0, before[jj + 1].0));
                    } else if j == i {
                        assert(pairs_view(entries@)[j].0 == key@ && pairs_view(entries@)[j + 1].0 == before[j].0);
                        assert(seq_lt(key@, before[j].0));
                    } else {
                        assert(pairs_view(entries@)[j].0 == before[j].0 && pairs_view(entries@)[j + 1].0 == key@);
                        assert(seq_lt(before[j].0, key@));
                    }
                }
                lemma_lookup_insert(before, i as int, key@, value@);
            }
        }
        *self = StrMap { entries };
    }

    /// The value stored under `key`, if any.
    pub fn get(&self, key: &str) -> (r: Option<&String>)
        ensures
            r matches Some(v) ==> lookup(self@, key@) == Some(v@),
            r is None ==> lookup(self@, key@) is None,
    {
        let n = self.entries.len();
        let mut i: usize = 0;
        assert(self@.skip(0) =~= self@);
        while i < n
            invariant
                n == self@.len(),
                i <= n,
                lookup(self@, key@) == lookup(self@.skip(i as int), key@),
            decreases n - i,
        {
            if str_eq(self.entries[i].0.as_str(), key) {
                return Some(&self.entries[i].1);
            }
            assert(self@.skip(i as int).drop_first() =~= self@.skip(i as int + 1));
            i = i + 1;
        }
        None
    }
}

/// No sequence comes before itself.
pub proof fn lemma_seq_lt_irreflexive(a: Seq<char>)
    ensures
        !seq_lt(a, a),
    decreases a.len(),
{
    if a.len() > 0 {
        lemma_seq_lt_irreflexive(a.drop_first());
    }
}

proof fn lemma_lookup_set(e: Seq<(Seq<char>, Seq<char>)>, i: int, k: Seq<char>, v: Seq<char>)
    requires
        0 <= i < e.len(),
        e[i].0 == k,
        forall|j: int| 0 <= j < i ==> e[j].0 != k,
    ensures
        lookup(e.update(i, (k, v)), k) == Some(v),
        forall|k2: Seq<char>| k2 != k ==> lookup(#[trigger] e.update(i, (k, v)), k2) == lookup(e, k2),
    decreases e.len(),
{
    let f = e.update(i, (k, v));
    if i > 0 {
        assert(f.drop_first() =~= e.drop_first().update(i - 1, (k, v)));
        lemma_lookup_set(e.drop_first(), i - 1, k, v);
    }
    assert forall|k2: Seq<char>| k2 != k implies lookup(#[trigger] e.update(i, (k, v)), k2) == lookup(e, k2) by {
        if i == 0 {
            assert(f.drop_first() =~= e.drop_first());
        } else {
            assert(f[0] == e[0]);
            if e[0].0 != k2 {
                assert(lookup(f, k2) == lookup(f.drop_first(), k2));
                assert(lookup(e.drop_first().update(i - 1, (k, v)), k2) == lookup(e.drop_first(), k2));
            }
        }
    }
}

proof fn lemma_lookup_insert(e: Seq<(Seq<char>, Seq<char>)>, i: int, k: Seq<char>, v: Seq<char>)
    requires
        0 <= i <= e.len(),
        forall|j: int| 0 <= j < i ==> e[j].0 != k,
    ensures
        lookup(e.insert(i, (k, v)), k) == Some(v),
        forall|k2: Seq<char>| k2 != k ==> lookup(#[trigger] e.insert(i, (k, v)), k2) == lookup(e, k2),
    decreases e.len(),
{
    let f = e.insert(i, (k, v));
    if i > 0 {
        assert(f.drop_first() =~= e.drop_first().insert(i - 1, (k, v)));
        lemma_lookup_insert(e.drop_first(), i - 1, k, v);
    }
    assert forall|k2: Seq<char>| k2 != k implies lookup(#[trigger] e.insert(i, (k, v)), k2) == lookup(e, k2) by {
        if i == 0 {
            assert(f.drop_first() =~= e);
        } else {
            assert(f[0] == e[0]);
            if e[0].0 != k2 {
                assert(lookup(f, k2) == lookup(f.drop_first(), k2));
                assert(lookup(e.drop_first().insert(i - 1, (k, v)), k2) == lookup(e.drop_first(), k2));
            }
        }
    }
}

} // verus!
