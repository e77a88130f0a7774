use vstd::prelude::*;

verus! {

/// A mapping from string keys to string values, as carried in a command's
/// `Data` and `BinaryData`. Keys are unique; the order of entries carries no
/// meaning.
pub struct Fields {
    entries: Vec<(String, String)>,
}

/// Whether `k` is the key of some entry of `s`.
pub open spec fn has_key(s: Seq<(String, String)>, k: Seq<char>) -> bool {
    exists|i: int| 0 <= i < s.len() && #[trigger] s[i].0@ == k
}

/// The index of the entry of `s` whose key is `k` (meaningful when there is one).
pub open spec fn index_of_key(s: Seq<(String, String)>, k: Seq<char>) -> int {
    choose|i: int| 0 <= i < s.len() && #[trigger] s[i].0@ == k
}

/// No two entries of `s` share a key.
pub open spec fn keys_distinct(s: Seq<(String, String)>) -> bool {
    forall|i: int, j: int| 0 <= i < s.len() && 0 <= j < s.len() && i != j ==> s[i].0@ != s[j].0@
}

/// The mapping that a sequence of entries with distinct keys stands for.
pub open spec fn map_of_entries(s: Seq<(String, String)>) -> Map<Seq<char>, Seq<char>> {
    Map::new(|k: Seq<char>| has_key(s, k), |k: Seq<char>| s[index_of_key(s, k)].1@)
}

impl View for Fields {
    type V = Map<Seq<char>, Seq<char>>;

    closed spec fn view(&self) -> Map<Seq<char>, Seq<char>> {
        map_of_entries(self.entries@)
    }
}

proof fn lemma_lookup(s: Seq<(String, String)>, i: int)
    requires
        keys_distinct(s),
        0 <= i < s.len(),
    ensures
        map_of_entries(s).contains_key(s[i].0@),
        map_of_entries(s)[s[i].0@] == s[i].1@,
{
    let k = s[i].0@;
    assert(has_key(s, k));
    let j = index_of_key(s, k);
    assert(s[j].0@ == k);
}

/// Writing the entry `(kk, kv)` at position `p`, over the entry with key
/// `kk` or just past the end where there is none, stores `kv` under `kk`.
proof fn lemma_store_at(
    old: Seq<(String, String)>,
    new: Seq<(String, String)>,
    p: int,
    kk: Seq<char>,
    kv: Seq<char>,
)
    requires
        keys_distinct(old),
        0 <= p <= old.len(),
        p < old.len() ==> old[p].0@ == kk && new.len() == old.len(),
        p == old.len() ==> new.len() == old.len() + 1,
        forall|j: int| 0 <= j < p ==> old[j].0@ != kk,
        new[p].0@ == kk,
        new[p].1@ == kv,
        forall|j: int| 0 <= j < new.len() && j != p ==> new[j] == old[j],
    ensures
        keys_distinct(new),
        map_of_entries(new) == map_of_entries(old).insert(kk, kv),
{
    if p < old.len() {
        assert forall|j: int| 0 <= j < old.len() && j != p implies old[j].0@ != kk by {
            assert(old[j].0@ != old[p].0@);
        }
    }
    assert(keys_distinct(new));
    let expected = map_of_entries(old).insert(kk, kv);
    assert forall|k: Seq<char>| #![auto]
        map_of_entries(new).contains_key(k) == expected.contains_key(k) by {
        if has_key(old, k) {
            let j = index_of_key(old, k);
            if j != p {
                assert(new[j] == old[j]);
            }
        }
        if has_key(new, k) {
            let j = index_of_key(new, k);
            if j != p {
                assert(old[j].0@ == k);
            }
        }
        if k == kk {
            assert(new[p].0@ == kk);
        }
    }
    assert forall|k: Seq<char>| #[trigger] map_of_entries(new).contains_key(k) implies map_of_entries(
        new,
    )[k] == expected[k] by {
        let j = index_of_key(new, k);
        lemma_lookup(new, j);
        if j != p {
            assert(old[j].0@ == k);
            lemma_lookup(old, j);
        }
    }
    assert(map_of_entries(new) =~= expected);
}

impl Fields {
    #[verifier::type_invariant]
    spec fn inv(self) -> bool {
        keys_distinct(self.entries@)
    }

    /// The entries, in the order in which they are kept.
    pub closed spec fn spec_entries(&self) -> Seq<(String, String)> {
        self.entries@
    }

    /// An empty mapping.
    pub fn new() -> (r: Fields)
        ensures
            r@ == Map::<Seq<char>, Seq<char>>::empty(),
    {
        let r = Fields { entries: Vec::new() };
        assert(r@ =~= Map::<Seq<char>, Seq<char>>::empty());
        r
    }

    /// The value stored under `key`, if any.
    pub fn get(&self, key: &String) -> (r: Option<&String>)
        ensures
            match r {
                Some(v) => self@.contains_key(key@) && self@[key@] == v@,
                None => !self@.contains_key(key@),
            },
    {
        proof {
            use_type_invariant(self);
        }
        let n = self.entries.len();
        let mut i: usize = 0;
        while i < n
            invariant
                n == self.entries@.len(),
                keys_distinct(self.entries@),
                0 <= i <= n,
                forall|j: int| 0 <= j < i ==> self.entries@[j].0@ != key@,
            decreases n - i,
        {
            if self.entries[i].0 == *key {
                proof {
                    lemma_lookup(self.entries@, i as int);
                }
                return Some(&self.entries[i].1);
            }
            i = i + 1;
        }
        None
    }

    /// Stores `value` under `key`, replacing what was there.
    pub fn insert(&mut self, key: String, value: String)
        ensures
            final(self)@ == old(self)@.insert(key@, value@),
    {
        proof {
            use_type_invariant(&*self);
        }
        let ghost old_entries = self.entries@;
        let ghost kk = key@;
        let ghost kv = value@;
        let n = self.entries.len();
        let mut i: usize = 0;
        while i < n
            invariant
                n == self.entries@.len(),
                self.entries@ == old_entries,
                keys_distinct(old_entries),
                0 <= i <= n,
                kk == key@,
                forall|j: int| 0 <= j < i ==> self.entries@[j].0@ != kk,
            ensures
                0 <= i <= n,
                self.entries@ == old_entries,
                forall|j: int| 0 <= j < i ==> self.entries@[j].0@ != kk,
                i < n ==> self.entries@[i as int].0@ == kk,
            decreases n - i,
        {
            if self.entries[i].0 == key {
                break;
            }
            i = i + 1;
        }
        let mut entries = Vec::new();
        std::mem::swap(&mut entries, &mut self.entries);
        if i < n {
            entries.set(i, (key, value));
        } else {
            entries.push((key, value));
        }
        proof {
            lemma_store_at(old_entries, entries@, i as int, kk, kv);
        }
        self.entries = entries;
    }

    /// The entries, each key with its value, in no particular order.
    pub fn entries(&self) -> (r: &Vec<(String, String)>)
        ensures
            r@ == self.spec_entries(),
            keys_distinct(r@),
            self@ == map_of_entries(r@),
    {
        proof {
            use_type_invariant(self);
        }
        &self.entries
    }
}

impl Clone for Fields {
    fn clone(&self) -> (r: Fields)
        ensures
            r@ == self@,
    {
        proof {
            use_type_invariant(self);
        }
        let n = self.entries.len();
        let mut out: Vec<(String, String)> = Vec::new();
        let mut i: usize = 0;
        while i < n
            invariant
                n == self.entries@.len(),
                keys_distinct(self.entries@),
                0 <= i <= n,
                out@ == self.entries@.take(i as int),
            decreases n - i,
        {
            let k = self.entries[i].0.clone();
            let v = self.entries[i].1.clone();
            out.push((k, v));
            proof {
                assert(self.entries@.take(i + 1) =~= self.entries@.take(i as int).push(
                    self.entries@[i as int],
                ));
            }
            i = i + 1;
        }
        assert(out@ =~= self.entries@);
        Fields { entries: out }
    }
}

} // verus!
