use vstd::prelude::*;

verus! {

/// String-keyed map, the in-memory form of one TOML table.  Keys are
/// unique; the contracts speak only of the `Map` view, so callers never
/// see (and must not rely on) the order the entries were added in.
#[derive(Debug, PartialEq)]
pub struct StrMap<D> {
    entries: Vec<(String, D)>,
}

/// The map an association list denotes: each key is bound to the value of
/// its last entry (the well-formedness invariant keeps keys unique, so
/// each key has exactly one).
pub(crate) open spec fn assoc_map<D>(s: Seq<(String, D)>) -> Map<Seq<char>, D>
    decreases s.len(),
{
    if s.len() == 0 {
        Map::empty()
    } else {
        assoc_map(s.drop_last()).insert(s.last().0@, s.last().1)
    }
}

/// A key is in the map exactly when some entry carries it.
proof fn lemma_assoc_map_dom<D>(s: Seq<(String, D)>)
    ensures
        forall|k: Seq<char>|
            #[trigger] assoc_map(s).contains_key(k) <==> (exists|i: int|
                0 <= i < s.len() && s[i].0@ == k),
    decreases s.len(),
{
    if s.len() > 0 {
        lemma_assoc_map_dom(s.drop_last());
        let sdl = s.drop_last();
        assert(forall|i: int| 0 <= i < s.len() - 1 ==> sdl[i] == s[i]);
        assert forall|k: Seq<char>|
            #[trigger] assoc_map(s).contains_key(k) <==> (exists|i: int|
                0 <= i < s.len() && s[i].0@ == k) by {
            if assoc_map(s).contains_key(k) {
                if k == s.last().0@ {
                    assert(s[s.len() - 1].0@ == k);
                } else {
                    assert(assoc_map(sdl).contains_key(k));
                    let i = choose|i: int| 0 <= i < sdl.len() && sdl[i].0@ == k;
                    assert(s[i].0@ == k);
                }
            }
            if exists|i: int| 0 <= i < s.len() && s[i].0@ == k {
                let i = choose|i: int| 0 <= i < s.len() && s[i].0@ == k;
                if i < s.len() - 1 {
                    assert(sdl[i].0@ == k);
                    assert(assoc_map(sdl).contains_key(k));
                } else {
                    assert(k == s.last().0@);
                }
                assert(assoc_map(s).contains_key(k));
            }
        }
    }
}

/// An entry whose key has no later duplicate gives the key's value.
proof fn lemma_assoc_map_get<D>(s: Seq<(String, D)>, i: int)
    requires
        0 <= i < s.len(),
        forall|j: int| i < j < s.len() ==> s[j].0@ != s[i].0@,
    ensures
        assoc_map(s).contains_key(s[i].0@),
        assoc_map(s)[s[i].0@] == s[i].1,
    decreases s.len(),
{
    if i == s.len() - 1 {
    } else {
        assert(forall|j: int| 0 <= j < s.len() - 1 ==> s.drop_last()[j] == s[j]);
        lemma_assoc_map_get(s.drop_last(), i);
        assert(s.last().0@ != s[i].0@);
    }
}

impl<D> View for StrMap<D> {
    type V = Map<Seq<char>, D>;

    closed spec fn view(&self) -> Map<Seq<char>, D> {
        assoc_map(self.entries@)
    }
}

impl<D> StrMap<D> {
    /// Keys are pairwise distinct, so the association list and its map
    /// view carry exactly the same bindings.
    #[verifier::type_invariant]
    spec fn wf(self) -> bool {
        forall|i: int, j: int|
            0 <= i < j < self.entries@.len() ==> self.entries@[i].0@ != self.entries@[j].0@
    }

    /// The empty map.
    pub fn new() -> (r: Self)
        ensures
            r@ == Map::<Seq<char>, D>::empty(),
    {
        StrMap { entries: Vec::new() }
    }

    /// Whether `key` is bound.
    pub fn contains_key(&self, key: &str) -> (r: bool)
        ensures
            r == self@.contains_key(key@),
    {
        proof {
            lemma_assoc_map_dom(self.entries@);
        }
        let k = key.to_owned();
        let n = self.entries.len();
        let mut i: usize = 0;
        while i < n
            invariant
                n == self.entries@.len(),
                i <= n,
                k@ == key@,
                assoc_map(self.entries@).contains_key(key@) <==> (exists|t: int|
                    0 <= t < n && self.entries@[t].0@ == key@),
                forall|t: int| 0 <= t < i ==> self.entries@[t].0@ != key@,
            decreases n - i,
        {
            if self.entries[i].0.eq(&k) {
                assert(self.entries@[i as int].0@ == key@);
                return true;
            }
            i += 1;
        }
        false
    }

    /// The value bound to `key`, if any.
    pub fn get(&self, key: &str) -> (r: Option<&D>)
        ensures
            match r {
                Some(d) => self@.contains_key(key@) && *d == self@[key@],
                None => !self@.contains_key(key@),
            },
    {
        proof {
            use_type_invariant(&*self);
            lemma_assoc_map_dom(self.entries@);
        }
        let k = key.to_owned();
        let n = self.entries.len();
        let mut i: usize = 0;
        while i < n
            invariant
                n == self.entries@.len(),
                i <= n,
                k@ == key@,
                self.wf(),
                assoc_map(self.entries@).contains_key(key@) <==> (exists|t: int|
                    0 <= t < n && self.entries@[t].0@ == key@),
                forall|t: int| 0 <= t < i ==> self.entries@[t].0@ != key@,
            decreases n - i,
        {
            if self.entries[i].0.eq(&k) {
                proof {
                    lemma_assoc_map_get(self.entries@, i as int);
                }
                return Some(&self.entries[i].1);
            }
            i += 1;
        }
        None
    }

    /// Binds `key` to `value`.  The key must be fresh: the inventory
    /// format already rejects duplicate table keys, so no binding is ever
    /// replaced.
    pub fn insert(&mut self, key: String, value: D)
        requires
            !old(self)@.contains_key(key@),
        ensures
            final(self)@ == old(self)@.insert(key@, value),
    {
        proof {
            use_type_invariant(&*self);
            lemma_assoc_map_dom(self.entries@);
        }
        let ghost kv = key@;
        let mut entries: Vec<(String, D)> = Vec::new();
        core::mem::swap(&mut entries, &mut self.entries);
        entries.push((key, value));
        proof {
            assert(forall|t: int|
                0 <= t < entries@.len() - 1 ==> entries@[t].0@ != kv);
        }
        core::mem::swap(&mut entries, &mut self.entries);
        proof {
            assert(self.entries@.drop_last() =~= old(self).entries@);
            assert(self@ == old(self)@.insert(kv, value));
        }
    }

    /// Every bound key, once each, in an unspecified order.
    pub fn keys(&self) -> (r: Vec<String>)
        ensures
            forall|i: int| 0 <= i < r@.len() ==> self@.contains_key(#[trigger] r@[i]@),
            forall|k: Seq<char>|
                self@.contains_key(k) ==> (exists|i: int| 0 <= i < r@.len() && r@[i]@ == k),
            forall|i: int, j: int| 0 <= i < j < r@.len() ==> r@[i]@ != r@[j]@,
    {
        proof {
            use_type_invariant(&*self);
            lemma_assoc_map_dom(self.entries@);
        }
        let n = self.entries.len();
        let mut r: Vec<String> = Vec::new();
        let mut i: usize = 0;
        while i < n
            invariant
                n == self.entries@.len(),
                i <= n,
                self.wf(),
                r@.len() == i,
                forall|t: int| 0 <= t < i ==> r@[t]@ == self.entries@[t].0@,
            decreases n - i,
        {
            r.push(self.entries[i].0.clone());
            i += 1;
        }
        proof {
            assert forall|k: Seq<char>| self@.contains_key(k) implies (exists|t: int|
                0 <= t < r@.len() && r@[t]@ == k) by {
                let t = choose|t: int| 0 <= t < n && self.entries@[t].0@ == k;
                assert(r@[t]@ == k);
            }
        }
        r
    }
}

} // verus!
