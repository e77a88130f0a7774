use vstd::prelude::*;

verus! {

/// The user keys known to the registry, in the order in which they were
/// first seen. The key at position `i` owns handle `i + 1`.
pub type Identities = Seq<Seq<char>>;

/// Whether a sequence of keys can be the contents of a registry.
pub open spec fn identities_wf(v: Identities) -> bool {
    v.no_duplicates() && v.len() <= i64::MAX
}

/// The handle owned by key `k`, if it has one.
pub open spec fn handle_of(v: Identities, k: Seq<char>) -> Option<i64> {
    if v.contains(k) {
        Some((v.index_of(k) + 1) as i64)
    } else {
        None
    }
}

/// What resolving key `k` returns and the registry after it: the handle
/// already recorded for `k`, or else the next handle, newly recorded;
/// `None` once every positive `i64` has been handed out.
pub open spec fn spec_resolve(v: Identities, k: Seq<char>) -> (Identities, Option<i64>) {
    if v.contains(k) {
        (v, handle_of(v, k))
    } else if v.len() < i64::MAX {
        (v.push(k), Some((v.len() + 1) as i64))
    } else {
        (v, None)
    }
}

/// The key that owns handle `h`, if any.
pub open spec fn key_of(v: Identities, h: i64) -> Option<Seq<char>> {
    if 1 <= h <= v.len() {
        Some(v[h - 1])
    } else {
        None
    }
}

/// Gives each persisted user a handle that stays the same for the life of
/// the registry. Handles are handed out from 1 upward, one per new key.
pub struct UserManager {
    users: Vec<String>,
}

impl View for UserManager {
    type V = Identities;

    closed spec fn view(&self) -> Identities {
        self.users@.map_values(|s: String| s@)
    }
}

proof fn lemma_index_of_distinct(v: Identities, i: int)
    requires
        v.no_duplicates(),
        0 <= i < v.len(),
    ensures
        v.contains(v[i]),
        v.index_of(v[i]) == i,
{
    assert(v.contains(v[i]));
    let j = v.index_of(v[i]);
    assert(v[j] == v[i]);
}

impl UserManager {
    #[verifier::type_invariant]
    spec fn inv(self) -> bool {
        identities_wf(self@)
    }

    /// An empty registry.
    pub fn new() -> (r: UserManager)
        ensures
            r@ == Identities::empty(),
    {
        let r = UserManager { users: Vec::new() };
        assert(r@ =~= Identities::empty());
        r
    }

    /// The handle of `username`, allocating the next one on its first use.
    /// `None` only when every positive `i64` has already been handed out.
    pub fn getClientId(&mut self, username: &String) -> (r: Option<i64>)
        ensures
            (final(self)@, r) == spec_resolve(old(self)@, username@),
            r matches Some(h) ==> 1 <= h,
    {
        proof {
            use_type_invariant(&*self);
        }
        let n = self.users.len();
        let mut i: usize = 0;
        while i < n
            invariant
                n == self.users@.len(),
                self@ == old(self)@,
                identities_wf(self@),
                0 <= i <= n,
                forall|j: int| 0 <= j < i ==> self@[j] != username@,
            decreases n - i,
        {
            if self.users[i] == *username {
                proof {
                    lemma_index_of_distinct(self@, i as int);
                }
                return Some((i + 1) as i64);
            }
            i = i + 1;
        }
        assert(!self@.contains(username@));
        if n as u64 >= i64::MAX as u64 {
            return None;
        }
        let id = self.getNextId();
        let mut users = Vec::new();
        std::mem::swap(&mut users, &mut self.users);
        users.push(username.clone());
        proof {
            assert(users@.map_values(|s: String| s@) =~= old(self)@.push(username@));
            lemma_push_distinct(old(self)@, username@);
        }
        self.users = users;
        proof {
            assert(self@ =~= old(self)@.push(username@));
        }
        Some(id)
    }

    /// The key that owns handle `clientId`, if any.
    pub fn getUserId(&self, clientId: i64) -> (r: Option<String>)
        ensures
            match r {
                Some(s) => key_of(self@, clientId) == Some(s@),
                None => key_of(self@, clientId) is None,
            },
    {
        proof {
            use_type_invariant(self);
        }
        if clientId >= 1 && clientId as u64 <= self.users.len() as u64 {
            Some(self.users[(clientId - 1) as usize].clone())
        } else {
            None
        }
    }

    /// The handle that the next new key will get.
    fn getNextId(&self) -> (r: i64)
        requires
            self@.len() < i64::MAX,
        ensures
            r == self@.len() + 1,
    {
        (self.users.len() as u64 + 1) as i64
    }
}

impl Default for UserManager {
    fn default() -> (r: UserManager)
        ensures
            r@ == Identities::empty(),
    {
        UserManager::new()
    }
}

/// Resolving a key twice gives the same handle both times, and two distinct
/// keys resolved one after the other get distinct handles.
pub proof fn lemma_resolve_stable(v: Identities, k1: Seq<char>, k2: Seq<char>)
    requires
        identities_wf(v),
    ensures
        spec_resolve(spec_resolve(v, k1).0, k1).1 == spec_resolve(v, k1).1,
        k1 != k2 && spec_resolve(v, k1).1 is Some && spec_resolve(spec_resolve(v, k1).0, k2).1 is Some
            ==> spec_resolve(spec_resolve(v, k1).0, k2).1 != spec_resolve(v, k1).1,
{
    let v1 = spec_resolve(v, k1).0;
    if !v.contains(k1) && v.len() < i64::MAX {
        assert(v1[v.len() as int] == k1);
        lemma_push_distinct(v, k1);
        lemma_index_of_distinct(v1, v.len() as int);
    }
    if v1.contains(k1) {
        let i = v1.index_of(k1);
        assert(v1[i] == k1);
    }
    if k1 != k2 && v1.contains(k1) && v1.contains(k2) {
        let i = v1.index_of(k1);
        let j = v1.index_of(k2);
        assert(v1[i] == k1 && v1[j] == k2);
    }
}

proof fn lemma_push_distinct(v: Identities, k: Seq<char>)
    requires
        v.no_duplicates(),
        !v.contains(k),
    ensures
        v.push(k).no_duplicates(),
{
    let w = v.push(k);
    assert forall|a: int, b: int| 0 <= a < w.len() && 0 <= b < w.len() && a != b implies w[a]
        != w[b] by {
        if a == v.len() {
            assert(v[b] == w[b]);
        } else if b == v.len() {
            assert(v[a] == w[a]);
        }
    }
}

/// The handle that a key resolves to leads back to that key.
pub proof fn lemma_resolve_reverse(v: Identities, k: Seq<char>)
    requires
        identities_wf(v),
    ensures
        spec_resolve(v, k).1 matches Some(h) ==> key_of(spec_resolve(v, k).0, h) == Some(k),
{
    if v.contains(k) {
        let i = v.index_of(k);
        assert(v[i] == k);
    }
}

} // verus!
