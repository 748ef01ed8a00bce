use vstd::prelude::*;

verus! {

/// Folds a sequence of key/value pairs into a map, later pairs overriding
/// earlier ones (the semantics of collecting pairs into a hash map).
pub open spec fn pairs_to_map<V>(s: Seq<(Seq<char>, V)>) -> Map<Seq<char>, V>
    decreases s.len(),
{
    if s.len() == 0 {
        Map::empty()
    } else {
        pairs_to_map(s.drop_last()).insert(s.last().0, s.last().1)
    }
}

/// No key occurs twice in the sequence of pairs.
pub open spec fn keys_unique<V>(s: Seq<(Seq<char>, V)>) -> bool {
    forall|i: int, j: int| 0 <= i < j < s.len() ==> #[trigger] s[i].0 != #[trigger] s[j].0
}

/// For unique keys, the folded map holds exactly the pairs of the sequence.
pub proof fn lemma_pairs_to_map_unique<V>(s: Seq<(Seq<char>, V)>)
    requires
        keys_unique(s),
    ensures
        forall|k: Seq<char>|
            pairs_to_map(s).dom().contains(k) <==> exists|i: int| 0 <= i < s.len() && #[trigger] s[i].0 == k,
        forall|i: int| 0 <= i < s.len() ==> #[trigger] pairs_to_map(s)[s[i].0] == s[i].1,
    decreases s.len(),
{
    if s.len() > 0 {
        let t = s.drop_last();
        assert(t.len() == s.len() - 1);
        assert(forall|i: int| 0 <= i < t.len() ==> #[trigger] t[i] == s[i]);
        assert(keys_unique(t));
        lemma_pairs_to_map_unique(t);
        assert forall|k: Seq<char>|
            pairs_to_map(s).dom().contains(k) implies exists|i: int| 0 <= i < s.len() && #[trigger] s[i].0 == k by {
            if k == s.last().0 {
                assert(s[s.len() - 1].0 == k);
            } else {
                assert(pairs_to_map(t).dom().contains(k));
                let i = choose|i: int| 0 <= i < t.len() && #[trigger] t[i].0 == k;
                assert(s[i].0 == k);
            }
        }
        assert forall|k: Seq<char>|
            (exists|i: int| 0 <= i < s.len() && #[trigger] s[i].0 == k) implies pairs_to_map(s).dom().contains(k) by {
            let i = choose|i: int| 0 <= i < s.len() && #[trigger] s[i].0 == k;
            if i < s.len() - 1 {
                assert(t[i].0 == k);
                assert(pairs_to_map(t).dom().contains(k));
            }
        }
        assert forall|i: int| 0 <= i < s.len() implies #[trigger] pairs_to_map(s)[s[i].0] == s[i].1 by {
            if i < s.len() - 1 {
                assert(t[i] == s[i]);
                assert(s[i].0 != s[s.len() - 1].0);
                assert(pairs_to_map(t)[t[i].0] == t[i].1);
                assert(pairs_to_map(t).dom().contains(t[i].0));
            }
        }
    }
}

/// Pushing a pair inserts it into the folded map.
pub proof fn lemma_pairs_to_map_push<V>(s: Seq<(Seq<char>, V)>, p: (Seq<char>, V))
    ensures
        pairs_to_map(s.push(p)) == pairs_to_map(s).insert(p.0, p.1),
{
    assert(s.push(p).drop_last() =~= s);
}

/// Replacing the pair of an existing key inserts the new value into the folded map.
pub proof fn lemma_pairs_to_map_update<V>(s: Seq<(Seq<char>, V)>, i: int, v: V)
    requires
        keys_unique(s),
        0 <= i < s.len(),
    ensures
        keys_unique(s.update(i, (s[i].0, v))),
        pairs_to_map(s.update(i, (s[i].0, v))) == pairs_to_map(s).insert(s[i].0, v),
{
    let u = s.update(i, (s[i].0, v));
    assert(keys_unique(u)) by {
        assert forall|a: int, b: int| 0 <= a < b < u.len() implies #[trigger] u[a].0 != #[trigger] u[b].0 by {
            assert(u[a].0 == s[a].0);
            assert(u[b].0 == s[b].0);
        }
    }
    lemma_pairs_to_map_unique(s);
    lemma_pairs_to_map_unique(u);
    let m1 = pairs_to_map(u);
    let m2 = pairs_to_map(s).insert(s[i].0, v);
    assert forall|k: Seq<char>| m1.dom().contains(k) <==> m2.dom().contains(k) by {
        if m1.dom().contains(k) {
            let j = choose|j: int| 0 <= j < u.len() && #[trigger] u[j].0 == k;
            assert(s[j].0 == k);
        }
        if m2.dom().contains(k) && k != s[i].0 {
            let j = choose|j: int| 0 <= j < s.len() && #[trigger] s[j].0 == k;
            assert(u[j].0 == k);
        }
        if k == s[i].0 {
            assert(u[i].0 == k);
        }
    }
    assert forall|k: Seq<char>| m1.dom().contains(k) implies m1[k] == m2[k] by {
        let j = choose|j: int| 0 <= j < u.len() && #[trigger] u[j].0 == k;
        if j != i {
            assert(u[j] == s[j]);
        }
    }
    assert(m1 =~= m2);
}

} // verus!

verus! {

/// A map from string keys to values, kept as a list of pairs in insertion
/// order in which no key occurs twice.
#[derive(Debug, PartialEq)]
pub struct StrMap<V: View> {
    entries: Vec<(String, V)>,
}

/// The views of a list of string-keyed pairs.
pub open spec fn pairs_view<V: View>(s: Seq<(String, V)>) -> Seq<(Seq<char>, V::V)> {
    s.map_values(|p: (String, V)| (p.0@, p.1@))
}

impl<V: View> StrMap<V> {
    /// The pairs held, by their views, in insertion order.
    pub closed spec fn pairs(&self) -> Seq<(Seq<char>, V::V)> {
        pairs_view(self.entries@)
    }

    #[verifier::type_invariant]
    closed spec fn wf(&self) -> bool {
        keys_unique(self.pairs())
    }

    /// An empty map.
    pub fn new() -> (r: Self)
        ensures
            r@ == Map::<Seq<char>, V::V>::empty(),
            r.pairs() == Seq::<(Seq<char>, V::V)>::empty(),
    {
        let r = StrMap { entries: Vec::new() };
        assert(r.pairs() =~= Seq::<(Seq<char>, V::V)>::empty());
        r
    }

    /// The number of keys.
    pub fn len(&self) -> (r: usize)
        ensures
            r == self.pairs().len(),
            r == self@.dom().len(),
            self@.dom().finite(),
    {
        proof {
            use_type_invariant(self);
            self.lemma_dom_len();
        }
        self.entries.len()
    }

    /// Whether the map holds no key.
    pub fn is_empty(&self) -> (r: bool)
        ensures
            r == (self@.dom().len() == 0),
            r == (self@ == Map::<Seq<char>, V::V>::empty()),
    {
        proof {
            use_type_invariant(self);
            self.lemma_dom_len();
            if self.entries.len() == 0 {
                assert(self.pairs() =~= Seq::<(Seq<char>, V::V)>::empty());
                assert(self@ =~= Map::<Seq<char>, V::V>::empty());
            } else {
                lemma_pairs_to_map_unique(self.pairs());
                assert(self@.dom().contains(self.pairs()[0].0));
            }
        }
        self.entries.len() == 0
    }

    /// The keys are unique, and the map holds exactly the pairs.
    pub proof fn lemma_pairs(&self)
        requires
            keys_unique(self.pairs()),
        ensures
            forall|k: Seq<char>|
                self@.dom().contains(k) <==> exists|i: int| 0 <= i < self.pairs().len() && #[trigger] self.pairs()[i].0 == k,
            forall|i: int| 0 <= i < self.pairs().len() ==> #[trigger] self@[self.pairs()[i].0] == self.pairs()[i].1,
    {
        lemma_pairs_to_map_unique(self.pairs());
    }

    proof fn lemma_dom_len(&self)
        requires
            keys_unique(self.pairs()),
        ensures
            self@.dom().finite(),
            self@.dom().len() == self.pairs().len(),
    {
        lemma_unique_pairs_dom_len(self.pairs());
    }

    /// The value held under `key`, if any.
    pub fn get(&self, key: &String) -> (r: Option<&V>)
        ensures
            keys_unique(self.pairs()),
            r is Some <==> self@.dom().contains(key@),
            r matches Some(v) ==> v@ == self@[key@],
    {
        proof {
            use_type_invariant(self);
            lemma_pairs_to_map_unique(self.pairs());
        }
        let n = self.entries.len();
        let mut i: usize = 0;
        while i < n
            invariant
                n == self.entries.len(),
                keys_unique(self.pairs()),
                0 <= i <= n,
                forall|j: int| 0 <= j < i ==> #[trigger] self.pairs()[j].0 != key@,
            decreases n - i,
        {
            if self.entries[i].0 == *key {
                proof {
                    lemma_pairs_to_map_unique(self.pairs());
                    assert(self.pairs()[i as int] == (self.entries@[i as int].0@, self.entries@[i as int].1@));
                    assert(self.pairs()[i as int].0 == key@);
                    assert(self@[self.pairs()[i as int].0] == self.pairs()[i as int].1);
                    assert(self@.dom().contains(key@));
                }
                return Some(&self.entries[i].1);
            }
            i = i + 1;
        }
        proof {
            lemma_pairs_to_map_unique(self.pairs());
        }
        None
    }

    /// Whether `key` is held.
    pub fn contains_key(&self, key: &String) -> (r: bool)
        ensures
            r == self@.dom().contains(key@),
    {
        self.get(key).is_some()
    }

    /// Inserts `value` under `key`, replacing any value held under it.
    pub fn insert(&mut self, key: String, value: V)
        ensures
            final(self)@ == old(self)@.insert(key@, value@),
    {
        proof {
            use_type_invariant(&*self);
        }
        let mut entries: Vec<(String, V)> = Vec::new();
        std::mem::swap(&mut entries, &mut self.entries);
        let ghost old_pairs = pairs_view(entries@);
        proof {
            lemma_pairs_to_map_unique(old_pairs);
        }
        let n = entries.len();
        let mut i: usize = 0;
        while i < n
            invariant
                n == entries.len(),
                old_pairs == pairs_view(entries@),
                old_pairs == old(self).pairs(),
                keys_unique(old_pairs),
                0 <= i <= n,
                forall|j: int| 0 <= j < i ==> #[trigger] old_pairs[j].0 != key@,
            decreases n - i,
        {
            if entries[i].0 == key {
                proof {
                    lemma_pairs_to_map_update(old_pairs, i as int, value@);
                }
                entries.set(i, (key, value));
                assert(pairs_view(entries@) =~= old_pairs.update(i as int, (old_pairs[i as int].0, value@)));
                self.entries = entries;
                return;
            }
            i = i + 1;
        }
        entries.push((key, value));
        proof {
            lemma_pairs_to_map_push(old_pairs, (key@, value@));
            assert(pairs_view(entries@) =~= old_pairs.push((key@, value@)));
            assert(keys_unique(pairs_view(entries@))) by {
                let np = pairs_view(entries@);
                assert forall|a: int, b: int| 0 <= a < b < np.len() implies #[trigger] np[a].0 != #[trigger] np[b].0 by {
                    if b == np.len() - 1 {
                        assert(np[a] == old_pairs[a]);
                    } else {
                        assert(np[a] == old_pairs[a]);
                        assert(np[b] == old_pairs[b]);
                    }
                }
            }
        }
        self.entries = entries;
    }

    /// Collects pairs into a map, later pairs overriding earlier ones with the same key.
    pub fn from_pairs(pairs: Vec<(String, V)>) -> (r: Self)
        ensures
            r@ == pairs_to_map(pairs_view(pairs@)),
    {
        let mut r = StrMap::new();
        let ghost all = pairs_view(pairs@);
        for p in it: pairs
            invariant
                all == pairs_view(it.seq()),
                r@ == pairs_to_map(all.take(it.index() as int)),
        {
            let ghost i = it.index();
            let (k, v) = p;
            r.insert(k, v);
            proof {
                assert(all.take(i + 1) =~= all.take(i as int).push((k@, v@)));
                lemma_pairs_to_map_push(all.take(i as int), (k@, v@));
            }
        }
        assert(all.take(all.len() as int) =~= all);
        r
    }

    /// The pairs held, in insertion order.
    pub fn entries(&self) -> (r: &Vec<(String, V)>)
        ensures
            pairs_view(r@) == self.pairs(),
            keys_unique(self.pairs()),
    {
        proof {
            use_type_invariant(self);
        }
        &self.entries
    }
}

/// The number of keys of a list of unique pairs is its length.
pub proof fn lemma_unique_pairs_dom_len<V>(s: Seq<(Seq<char>, V)>)
    requires
        keys_unique(s),
    ensures
        pairs_to_map(s).dom().finite(),
        pairs_to_map(s).dom().len() == s.len(),
    decreases s.len(),
{
    if s.len() > 0 {
        let t = s.drop_last();
        assert(t.len() == s.len() - 1);
        assert(forall|i: int| 0 <= i < t.len() ==> #[trigger] t[i] == s[i]);
        assert(keys_unique(t));
        lemma_unique_pairs_dom_len(t);
        lemma_pairs_to_map_unique(t);
        if pairs_to_map(t).dom().contains(s.last().0) {
            let i = choose|i: int| 0 <= i < t.len() && #[trigger] t[i].0 == s.last().0;
            assert(s[i].0 == s[s.len() - 1].0);
        }
    }
}

impl<V: View> View for StrMap<V> {
    type V = Map<Seq<char>, V::V>;

    open spec fn view(&self) -> Map<Seq<char>, V::V> {
        pairs_to_map(self.pairs())
    }
}

} // verus!

verus! {

/// The folded map holds a key exactly when some pair has it, with the value
/// of the last such pair.
pub proof fn lemma_pairs_to_map_last<V>(s: Seq<(Seq<char>, V)>, k: Seq<char>, j: int)
    requires
        0 <= j < s.len(),
        s[j].0 == k,
        forall|l: int| j < l < s.len() ==> #[trigger] s[l].0 != k,
    ensures
        pairs_to_map(s).dom().contains(k),
        pairs_to_map(s)[k] == s[j].1,
    decreases s.len(),
{
    let t = s.drop_last();
    if j < s.len() - 1 {
        assert(s[s.len() - 1].0 != k);
        assert forall|l: int| j < l < t.len() implies #[trigger] t[l].0 != k by {
            assert(t[l] == s[l]);
        }
        lemma_pairs_to_map_last(t, k, j);
    }
}

/// A key that no pair has is not in the folded map.
pub proof fn lemma_pairs_to_map_absent<V>(s: Seq<(Seq<char>, V)>, k: Seq<char>)
    requires
        forall|l: int| 0 <= l < s.len() ==> #[trigger] s[l].0 != k,
    ensures
        !pairs_to_map(s).dom().contains(k),
    decreases s.len(),
{
    if s.len() > 0 {
        let t = s.drop_last();
        assert(s[s.len() - 1].0 != k);
        assert forall|l: int| 0 <= l < t.len() implies #[trigger] t[l].0 != k by {
            assert(t[l] == s[l]);
        }
        lemma_pairs_to_map_absent(t, k);
    }
}

} // verus!
