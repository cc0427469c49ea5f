//! The connection registry: the single shared map from correlation token to
//! a live entry — a send capability while a client waits, or a stored
//! authorization code in the pull flow.
//!
//! Its view is a mathematical map from the token's characters to the entry.
//! `remove` is an atomic take: it either hands the entry to exactly one
//! caller or reports absence, which is what makes the handoff exactly-once.

use vstd::prelude::*;

verus! {

/// Does any entry of `s` carry the token `k`?
pub(crate) open spec fn has_key<V>(s: Seq<(String, V)>, k: Seq<char>) -> bool {
    exists|i: int| 0 <= i < s.len() && s[i].0@ == k
}

/// No two entries of `s` carry the same token.
pub(crate) open spec fn keys_distinct<V>(s: Seq<(String, V)>) -> bool {
    forall|i: int, j: int| 0 <= i < j < s.len() ==> s[i].0@ != s[j].0@
}

/// The map an entry list stands for, later entries winning.
pub(crate) open spec fn map_of<V>(s: Seq<(String, V)>) -> Map<Seq<char>, V>
    decreases s.len(),
{
    if s.len() == 0 {
        Map::empty()
    } else {
        map_of(s.drop_last()).insert(s.last().0@, s.last().1)
    }
}

/// With distinct tokens, `map_of` holds exactly the listed entries.
proof fn lemma_map_of_key<V>(s: Seq<(String, V)>, k: Seq<char>)
    ensures
        map_of(s).contains_key(k) <==> has_key(s, k),
        keys_distinct(s) ==> forall|i: int|
            0 <= i < s.len() && s[i].0@ == k ==> map_of(s)[k] == s[i].1,
    decreases s.len(),
{
    if s.len() > 0 {
        let t = s.drop_last();
        lemma_map_of_key(t, k);
        if map_of(s).contains_key(k) && s.last().0@ != k {
            let i = choose|i: int| 0 <= i < t.len() && t[i].0@ == k;
            assert(s[i].0@ == k);
        }
        if has_key(s, k) {
            let i = choose|i: int| 0 <= i < s.len() && s[i].0@ == k;
            if i < s.len() - 1 {
                assert(t[i].0@ == k);
            }
        }
        if keys_distinct(s) {
            assert(keys_distinct(t));
            assert forall|i: int| 0 <= i < s.len() && s[i].0@ == k implies map_of(s)[k]
                == s[i].1 by {
                if i < s.len() - 1 {
                    assert(t[i].0@ == k);
                    assert(s.last().0@ != k);
                }
            }
        }
    }
}

/// The registry. It owns each entry for the entry's whole lifetime; every
/// observation and every mutation goes through the methods below.
pub struct Registry<V> {
    entries: Vec<(String, V)>,
}

impl<V> Registry<V> {
    /// Each token names at most one entry.
    #[verifier::type_invariant]
    spec fn wf(&self) -> bool {
        keys_distinct(self.entries@)
    }

    /// What the registry holds: a map from token to entry.
    pub closed spec fn view(&self) -> Map<Seq<char>, V> {
        map_of(self.entries@)
    }

    /// An empty registry.
    pub fn new() -> (r: Self)
        ensures
            r@ == Map::<Seq<char>, V>::empty(),
    {
        Registry { entries: Vec::new() }
    }

    /// The position of the entry for `token`, if one is registered.
    fn find(entries: &Vec<(String, V)>, token: &String) -> (r: Option<usize>)
        ensures
            r matches Some(i) ==> i < entries@.len() && entries@[i as int].0@ == token@,
            r is None ==> !has_key(entries@, token@),
    {
        let n = entries.len();
        let mut i: usize = 0;
        while i < n
            invariant
                n == entries@.len(),
                i <= n,
                forall|j: int| 0 <= j < i ==> entries@[j].0@ != token@,
            decreases n - i,
        {
            if entries[i].0 == *token {
                return Some(i);
            }
            i = i + 1;
        }
        None
    }

    /// Is an entry registered under `token`?
    pub fn contains(&self, token: &String) -> (r: bool)
        ensures
            r == self@.contains_key(token@),
    {
        proof {
            use_type_invariant(&*self);
            lemma_map_of_key(self.entries@, token@);
        }
        Self::find(&self.entries, token).is_some()
    }

    /// Registers `value` under `token`. An entry already registered under
    /// the same token is discarded: the most recent registration owns the
    /// token.
    pub fn insert(&mut self, token: String, value: V)
        ensures
            final(self)@ == old(self)@.insert(token@, value),
    {
        proof {
            use_type_invariant(&*self);
        }
        let mut entries: Vec<(String, V)> = Vec::new();
        core::mem::swap(&mut entries, &mut self.entries);
        let ghost s0 = entries@;
        if let Some(i) = Self::find(&entries, &token) {
            let _ = entries.swap_remove(i);
            proof {
                lemma_swap_remove_map(s0, i as int);
            }
        }
        proof {
            lemma_map_of_key(entries@, token@);
            assert(!has_key(entries@, token@) ==> !map_of(entries@).contains_key(token@));
        }
        let ghost s1 = entries@;
        entries.push((token, value));
        proof {
            assert(entries@.drop_last() =~= s1);
            assert(forall|j: int| 0 <= j < s1.len() ==> entries@[j] == s1[j]);
            assert(keys_distinct(entries@));
            assert(map_of(entries@) =~= map_of(s0).insert(entries@.last().0@, value));
        }
        self.entries = entries;
    }

    /// The atomic take: removes and returns the entry under `token`, or
    /// reports absence. At most one caller can ever receive a given entry.
    pub fn remove(&mut self, token: &String) -> (r: Option<V>)
        ensures
            final(self)@ == old(self)@.remove(token@),
            r matches Some(v) ==> old(self)@.contains_key(token@) && v == old(self)@[token@],
            r is None <==> !old(self)@.contains_key(token@),
    {
        proof {
            use_type_invariant(&*self);
            lemma_map_of_key(self.entries@, token@);
        }
        let mut entries: Vec<(String, V)> = Vec::new();
        core::mem::swap(&mut entries, &mut self.entries);
        let ghost s0 = entries@;
        let r = match Self::find(&entries, &token) {
            None => {
                proof {
                    assert(map_of(s0).remove(token@) =~= map_of(s0));
                }
                None
            },
            Some(i) => {
                let pair = entries.swap_remove(i);
                proof {
                    lemma_swap_remove_map(s0, i as int);
                    lemma_map_of_key(s0, token@);
                }
                Some(pair.1)
            },
        };
        self.entries = entries;
        r
    }
}

/// Taking the entry at position `i` out of a distinct-token list (moving the
/// last entry into its place) removes exactly that token from the map.
proof fn lemma_swap_remove_map<V>(s: Seq<(String, V)>, i: int)
    requires
        keys_distinct(s),
        0 <= i < s.len(),
    ensures
        keys_distinct(s.update(i, s.last()).drop_last()),
        map_of(s.update(i, s.last()).drop_last()) == map_of(s).remove(s[i].0@),
{
    let s2 = s.update(i, s.last()).drop_last();
    assert forall|p: int, q: int| 0 <= p < q < s2.len() implies s2[p].0@ != s2[q].0@ by {
        assert(s2[p] == (if p == i { s.last() } else { s[p] }));
        assert(s2[q] == (if q == i { s.last() } else { s[q] }));
    }
    assert forall|k: Seq<char>| true implies #[trigger] map_of(s2).contains_key(k) == map_of(
        s,
    ).remove(s[i].0@).contains_key(k) by {
        lemma_map_of_key(s2, k);
        lemma_map_of_key(s, k);
        if has_key(s2, k) {
            let p = choose|p: int| 0 <= p < s2.len() && s2[p].0@ == k;
            assert(s2[p] == (if p == i { s.last() } else { s[p] }));
            if p == i {
                assert(s[s.len() - 1].0@ == k);
            }
            assert(has_key(s, k) && k != s[i].0@);
        }
        if has_key(s, k) && k != s[i].0@ {
            let p = choose|p: int| 0 <= p < s.len() && s[p].0@ == k;
            if p < s.len() - 1 {
                assert(s2[p] == (if p == i { s.last() } else { s[p] }));
                assert(s2[p].0@ == k);
            } else {
                assert(i < s.len() - 1) by {
                    assert(s[i].0@ != k);
                }
                assert(s2[i] == s.last());
                assert(s2[i].0@ == k);
            }
            assert(has_key(s2, k));
        }
    }
    assert forall|k: Seq<char>| map_of(s2).contains_key(k) implies map_of(s2)[k] == map_of(
        s,
    ).remove(s[i].0@)[k] by {
        lemma_map_of_key(s2, k);
        lemma_map_of_key(s, k);
        let p = choose|p: int| 0 <= p < s2.len() && s2[p].0@ == k;
        assert(s2[p] == (if p == i { s.last() } else { s[p] }));
        if p == i {
            assert(s[s.len() - 1].0@ == k);
            assert(map_of(s)[k] == s[s.len() - 1].1);
        } else {
            assert(map_of(s)[k] == s[p].1);
        }
    }
    assert(map_of(s2) =~= map_of(s).remove(s[i].0@));
}

/// The exactly-once law: once a take has consumed the entry for `t`, any
/// later take of `t` — by the redirect correlator, the keepalive teardown,
/// or the retrieval gate — observes absence, whatever else the map holds.
pub proof fn lemma_take_exactly_once<V>(m: Map<Seq<char>, V>, t: Seq<char>)
    ensures
        !m.remove(t).contains_key(t),
{
}

/// Removal is idempotent: removing a token a second time is a no-op on the
/// map, and by `remove`'s contract the second caller gets `None`.
pub proof fn lemma_remove_idempotent<V>(m: Map<Seq<char>, V>, t: Seq<char>)
    ensures
        m.remove(t).remove(t) == m.remove(t),
{
    assert(m.remove(t).remove(t) =~= m.remove(t));
}

/// A keepalive ping that takes the send capability out and puts it back
/// leaves the registry exactly as it was.
pub proof fn lemma_take_reinsert<V>(m: Map<Seq<char>, V>, t: Seq<char>, v: V)
    requires
        m.contains_key(t),
        m[t] == v,
    ensures
        m.remove(t).insert(t, v) == m,
{
    assert(m.remove(t).insert(t, v) =~= m);
}

} // verus!
