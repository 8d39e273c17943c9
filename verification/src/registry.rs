//! The registry of live endpoints: a mapping from a player's identity to the
//! endpoint handle the embedding program owns for it.
//!
//! Entries are keyed by the identity's full bus name, and the registry keeps
//! at most one entry per bus name. Only the discovery loop mutates it; other
//! parties read it through `get` or walk the entries.

use vstd::prelude::*;

use crate::identity::PlayerIdentity;
use crate::text::str_eq;

verus! {

/// True when no two entries share a bus name.
pub open spec fn unique_buses<H>(s: Seq<(PlayerIdentity, H)>) -> bool {
    forall|i: int, j: int| 0 <= i < j < s.len() ==> s[i].0.spec_bus() != s[j].0.spec_bus()
}

/// The entry whose identity carries `bus`, taking the first match.
pub open spec fn lookup_bus<H>(s: Seq<(PlayerIdentity, H)>, bus: Seq<char>) -> Option<
    (PlayerIdentity, H),
>
    decreases s.len(),
{
    if s.len() == 0 {
        None
    } else if s[0].0.spec_bus() == bus {
        Some(s[0])
    } else {
        lookup_bus(s.drop_first(), bus)
    }
}

/// Under unique bus names, a lookup finds an entry exactly when one with
/// that bus name is present, and then finds that entry.
pub proof fn lemma_lookup_bus<H>(s: Seq<(PlayerIdentity, H)>, bus: Seq<char>)
    requires
        unique_buses(s),
    ensures
        (lookup_bus(s, bus) is None) <==> (forall|i: int|
            0 <= i < s.len() ==> s[i].0.spec_bus() != bus),
        forall|i: int|
            0 <= i < s.len() && s[i].0.spec_bus() == bus ==> lookup_bus(s, bus) == Some(s[i]),
    decreases s.len(),
{
    if s.len() > 0 {
        let t = s.drop_first();
        assert(forall|i: int| 0 <= i < t.len() ==> t[i] == s[i + 1]);
        assert forall|a: int, c: int|
            0 <= a < c < t.len() implies t[a].0.spec_bus() != t[c].0.spec_bus() by {
            assert(t[a] == s[a + 1] && t[c] == s[c + 1]);
        }
        lemma_lookup_bus(t, bus);
        if s[0].0.spec_bus() == bus {
            assert forall|i: int|
                0 <= i < s.len() && s[i].0.spec_bus() == bus implies lookup_bus(s, bus) == Some(
                s[i],
            ) by {
                if i > 0 {
                    assert(s[0].0.spec_bus() != s[i].0.spec_bus());
                }
            }
        } else {
            assert(lookup_bus(s, bus) == lookup_bus(t, bus));
            if lookup_bus(s, bus) is None {
                assert forall|i: int| 0 <= i < s.len() implies s[i].0.spec_bus() != bus by {
                    if i > 0 {
                        assert(t[i - 1] == s[i]);
                    }
                }
            } else {
                let k = choose|k: int| 0 <= k < t.len() && t[k].0.spec_bus() == bus;
                assert(s[k + 1].0.spec_bus() == bus);
            }
            assert forall|i: int|
                0 <= i < s.len() && s[i].0.spec_bus() == bus implies lookup_bus(s, bus) == Some(
                s[i],
            ) by {
                assert(i > 0);
                assert(t[i - 1] == s[i]);
            }
        }
    }
}

/// Removing the entry at `i` keeps every other entry in order, so uniqueness
/// survives.
proof fn lemma_remove_keeps_others<H>(pre: Seq<(PlayerIdentity, H)>, i: int)
    requires
        unique_buses(pre),
        0 <= i < pre.len(),
    ensures
        unique_buses(pre.remove(i)),
        forall|j: int|
            0 <= j < pre.remove(i).len() ==> pre.remove(i)[j] == (if j < i {
                pre[j]
            } else {
                pre[j + 1]
            }),
{
    let post = pre.remove(i);
    assert forall|a: int, b: int|
        0 <= a < b < post.len() implies post[a].0.spec_bus() != post[b].0.spec_bus() by {
        let pa: int = if a < i {
            a
        } else {
            a + 1
        };
        let pb: int = if b < i {
            b
        } else {
            b + 1
        };
        assert(pre[pa].0.spec_bus() != pre[pb].0.spec_bus());
    }
}

/// Lookups of any bus name other than the removed entry's agree between the
/// original sequence and the one with index `i` removed.
proof fn lemma_lookup_agree_remove<H>(
    pre: Seq<(PlayerIdentity, H)>,
    post: Seq<(PlayerIdentity, H)>,
    i: int,
    b: Seq<char>,
)
    requires
        unique_buses(pre),
        0 <= i < pre.len(),
        post == pre.remove(i),
        pre[i].0.spec_bus() != b,
    ensures
        lookup_bus(post, b) == lookup_bus(pre, b),
{
    lemma_remove_keeps_others(pre, i);
    lemma_lookup_bus(pre, b);
    lemma_lookup_bus(post, b);
    if lookup_bus(pre, b) is Some {
        let k = choose|k: int| 0 <= k < pre.len() && pre[k].0.spec_bus() == b;
        assert(lookup_bus(pre, b) == Some(pre[k]));
        let kk: int = if k < i {
            k
        } else {
            k - 1
        };
        assert(post[kk] == pre[k]);
        assert(lookup_bus(post, b) == Some(post[kk]));
    } else {
        assert forall|j: int| 0 <= j < post.len() implies post[j].0.spec_bus() != b by {
            if j < i {
                assert(post[j] == pre[j]);
            } else {
                assert(post[j] == pre[j + 1]);
            }
        }
    }
}

/// Appending an entry under a fresh bus name keeps the lookups of every
/// other bus name.
proof fn lemma_lookup_agree_push<H>(
    mid: Seq<(PlayerIdentity, H)>,
    x: (PlayerIdentity, H),
    b: Seq<char>,
)
    requires
        unique_buses(mid.push(x)),
        x.0.spec_bus() != b,
    ensures
        lookup_bus(mid.push(x), b) == lookup_bus(mid, b),
{
    let post = mid.push(x);
    assert forall|a: int, c: int|
        0 <= a < c < mid.len() implies mid[a].0.spec_bus() != mid[c].0.spec_bus() by {
        assert(post[a] == mid[a] && post[c] == mid[c]);
    }
    lemma_lookup_bus(mid, b);
    lemma_lookup_bus(post, b);
    if lookup_bus(mid, b) is Some {
        let k = choose|k: int| 0 <= k < mid.len() && mid[k].0.spec_bus() == b;
        assert(lookup_bus(mid, b) == Some(mid[k]));
        assert(post[k] == mid[k]);
        assert(lookup_bus(post, b) == Some(post[k]));
    } else {
        assert forall|j: int| 0 <= j < post.len() implies post[j].0.spec_bus() != b by {
            if j < mid.len() {
                assert(post[j] == mid[j]);
            }
        }
    }
}

/// A shared mapping from player identity to a live endpoint handle.
#[derive(Debug)]
pub struct Registry<H> {
    entries: Vec<(PlayerIdentity, H)>,
}

impl<H> Registry<H> {
    /// The entries held, in insertion order.
    pub closed spec fn sentries(&self) -> Seq<(PlayerIdentity, H)> {
        self.entries@
    }

    /// The entry stored under `bus`, if any.
    pub open spec fn spec_lookup(&self, bus: Seq<char>) -> Option<(PlayerIdentity, H)> {
        lookup_bus(self.sentries(), bus)
    }

    /// True when an entry is stored under `bus`.
    pub open spec fn spec_contains(&self, bus: Seq<char>) -> bool {
        self.spec_lookup(bus) is Some
    }

    #[verifier::type_invariant]
    spec fn wf(self) -> bool {
        unique_buses(self.entries@)
    }

    /// Creates an empty registry.
    pub fn new() -> (r: Registry<H>)
        ensures
            r.sentries() == Seq::<(PlayerIdentity, H)>::empty(),
    {
        Registry { entries: Vec::new() }
    }

    /// The number of registered endpoints.
    pub fn len(&self) -> (r: usize)
        ensures
            r == self.sentries().len(),
    {
        self.entries.len()
    }

    /// The entries held, for walking them; insertion order is kept.
    pub fn entries(&self) -> (r: &Vec<(PlayerIdentity, H)>)
        ensures
            r@ == self.sentries(),
    {
        &self.entries
    }

    /// Gets the handle registered for this identity's bus name, if any.
    pub fn get(&self, identity: &PlayerIdentity) -> (r: Option<&H>)
        ensures
            match self.spec_lookup(identity.spec_bus()) {
                Some(p) => r matches Some(h) && *h == p.1,
                None => r is None,
            },
    {
        proof {
            use_type_invariant(self);
            lemma_lookup_bus(self.entries@, identity.spec_bus());
        }
        match find_bus_index(&self.entries, identity.bus()) {
            Some(i) => Some(&self.entries[i].1),
            None => None,
        }
    }

    /// Registers `handle` under `identity`, replacing any entry already
    /// stored under the same bus name; entries under other bus names are
    /// untouched.
    pub fn insert(&mut self, identity: PlayerIdentity, handle: H)
        ensures
            final(self).spec_lookup(identity.spec_bus()) == Some((identity, handle)),
            forall|b: Seq<char>|
                b != identity.spec_bus() ==> final(self).spec_lookup(b) == old(self).spec_lookup(
                    b,
                ),
    {
        proof {
            use_type_invariant(&*self);
        }
        let ghost pre = self.entries@;
        let ghost bus = identity.spec_bus();
        let mut entries: Vec<(PlayerIdentity, H)> = Vec::new();
        core::mem::swap(&mut entries, &mut self.entries);
        if let Some(i) = find_bus_index(&entries, identity.bus()) {
            let _ = entries.remove(i);
            proof {
                lemma_remove_keeps_others(pre, i as int);
                assert forall|j: int|
                    0 <= j < entries@.len() implies entries@[j].0.spec_bus() != bus by {
                    if j >= i {
                        assert(entries@[j] == pre[j + 1]);
                        assert(pre[i as int].0.spec_bus() != pre[j + 1].0.spec_bus());
                    }
                }
                assert forall|b: Seq<char>| b != bus implies lookup_bus(entries@, b) == lookup_bus(
                    pre,
                    b,
                ) by {
                    lemma_lookup_agree_remove(pre, entries@, i as int, b);
                }
            }
        }
        let ghost mid = entries@;
        entries.push((identity, handle));
        proof {
            let post = entries@;
            assert(post == mid.push((identity, handle)));
            assert forall|a: int, c: int|
                0 <= a < c < post.len() implies post[a].0.spec_bus() != post[c].0.spec_bus() by {
                if c < mid.len() {
                    assert(post[a] == mid[a] && post[c] == mid[c]);
                } else {
                    assert(post[a] == mid[a] && post[c] == (identity, handle));
                }
            }
            lemma_lookup_bus(post, bus);
            assert(post[post.len() - 1] == (identity, handle));
            assert(lookup_bus(post, bus) == Some((identity, handle)));
            assert forall|b: Seq<char>| b != bus implies lookup_bus(post, b) == lookup_bus(
                pre,
                b,
            ) by {
                lemma_lookup_agree_push(mid, (identity, handle), b);
            }
        }
        self.entries = entries;
    }

    /// Removes and returns the handle stored under this identity's bus name;
    /// entries under other bus names are untouched.
    pub fn remove(&mut self, identity: &PlayerIdentity) -> (r: Option<H>)
        ensures
            !final(self).spec_contains(identity.spec_bus()),
            match old(self).spec_lookup(identity.spec_bus()) {
                Some(p) => r == Some(p.1),
                None => r is None && final(self).sentries() == old(self).sentries(),
            },
            forall|b: Seq<char>|
                b != identity.spec_bus() ==> final(self).spec_lookup(b) == old(self).spec_lookup(
                    b,
                ),
    {
        match self.remove_entry(identity.bus()) {
            Some((_, h)) => Some(h),
            None => None,
        }
    }

    /// Removes and returns the entry stored under `bus`, identity included;
    /// entries under other bus names are untouched.
    pub fn remove_entry(&mut self, bus: &str) -> (r: Option<(PlayerIdentity, H)>)
        ensures
            !final(self).spec_contains(bus@),
            match old(self).spec_lookup(bus@) {
                Some(p) => r == Some(p),
                None => r is None && final(self).sentries() == old(self).sentries(),
            },
            forall|b: Seq<char>|
                b != bus@ ==> final(self).spec_lookup(b) == old(self).spec_lookup(b),
    {
        proof {
            use_type_invariant(&*self);
            lemma_lookup_bus(self.entries@, bus@);
        }
        let ghost pre = self.entries@;
        let mut entries: Vec<(PlayerIdentity, H)> = Vec::new();
        core::mem::swap(&mut entries, &mut self.entries);
        let r = match find_bus_index(&entries, bus) {
            Some(i) => {
                let p = entries.remove(i);
                proof {
                    lemma_remove_keeps_others(pre, i as int);
                    let post = entries@;
                    assert forall|j: int|
                        0 <= j < post.len() implies post[j].0.spec_bus() != bus@ by {
                        if j >= i {
                            assert(post[j] == pre[j + 1]);
                            assert(pre[i as int].0.spec_bus() != pre[j + 1].0.spec_bus());
                        }
                    }
                    lemma_lookup_bus(post, bus@);
                    assert forall|b: Seq<char>| b != bus@ implies lookup_bus(post, b) == lookup_bus(
                        pre,
                        b,
                    ) by {
                        lemma_lookup_agree_remove(pre, post, i as int, b);
                    }
                }
                Some(p)
            },
            None => {
                proof {
                    lemma_lookup_bus(entries@, bus@);
                }
                None
            },
        };
        self.entries = entries;
        r
    }
}

/// Index of the first entry whose bus name is `bus`.
fn find_bus_index<H>(entries: &Vec<(PlayerIdentity, H)>, bus: &str) -> (r: Option<usize>)
    ensures
        match r {
            Some(i) => i < entries@.len() && entries@[i as int].0.spec_bus() == bus@ && (forall|
                j: int,
            | 0 <= j < i ==> entries@[j].0.spec_bus() != bus@),
            None => forall|j: int| 0 <= j < entries@.len() ==> entries@[j].0.spec_bus() != bus@,
        },
{
    let n = entries.len();
    let mut i: usize = 0;
    while i < n
        invariant
            i <= n,
            n == entries@.len(),
            forall|j: int| 0 <= j < i ==> entries@[j].0.spec_bus() != bus@,
        decreases n - i,
    {
        if str_eq(entries[i].0.bus(), bus) {
            return Some(i);
        }
        i += 1;
    }
    None
}

} // verus!
