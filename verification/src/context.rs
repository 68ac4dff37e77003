//! The render context: an ordered mapping from text keys to text values.
//! Adding a key the context already holds overwrites that entry's value in
//! place; a new key goes to the end.

use vstd::prelude::*;
use vstd::string::*;

use crate::engine::context_entries;
use crate::engine::engine_context_insert;
use crate::engine::engine_context_new;
use crate::engine::no_entries;
use crate::paths::str_eq;

verus! {

/// The mapping that an entry list makes up: a later entry for a key
/// overrides an earlier one.
pub open spec fn entries_to_map(s: Seq<(Seq<char>, Seq<char>)>) -> Map<Seq<char>, Seq<char>>
    decreases s.len(),
{
    if s.len() == 0 {
        Map::empty()
    } else {
        entries_to_map(s.drop_last()).insert(s.last().0, s.last().1)
    }
}

/// A key maps to something exactly when some entry holds it.
pub proof fn lemma_entries_to_map_domain(s: Seq<(Seq<char>, Seq<char>)>, k: Seq<char>)
    ensures
        entries_to_map(s).contains_key(k) <==> exists|i: int|
            0 <= i < s.len() && (#[trigger] s[i]).0 == k,
    decreases s.len(),
{
    if s.len() > 0 {
        lemma_entries_to_map_domain(s.drop_last(), k);
        if s.last().0 == k {
            assert(s[s.len() - 1].0 == k);
        } else {
            if exists|i: int| 0 <= i < s.len() && (#[trigger] s[i]).0 == k {
                let i = choose|i: int| 0 <= i < s.len() && (#[trigger] s[i]).0 == k;
                assert(s.drop_last()[i] == s[i]);
            }
            assert forall|i: int| 0 <= i < s.drop_last().len() && (#[trigger] s.drop_last()[i]).0
                == k implies s[i].0 == k by {
                assert(s.drop_last()[i] == s[i]);
            }
        }
    }
}

/// An entry at `i` with no later entry for the same key gives the map its
/// value for that key.
pub proof fn lemma_entries_to_map_found(s: Seq<(Seq<char>, Seq<char>)>, i: int)
    requires
        0 <= i < s.len(),
        forall|j: int| i < j < s.len() ==> (#[trigger] s[j]).0 != s[i].0,
    ensures
        entries_to_map(s).contains_key(s[i].0),
        entries_to_map(s)[s[i].0] == s[i].1,
    decreases s.len(),
{
    if i == s.len() - 1 {
    } else {
        assert(s.drop_last()[i] == s[i]);
        assert forall|j: int| i < j < s.drop_last().len() implies (#[trigger] s.drop_last()[j]).0
            != s.drop_last()[i].0 by {
            assert(s.drop_last()[j] == s[j]);
        }
        lemma_entries_to_map_found(s.drop_last(), i);
        assert(s.last().0 != s[i].0);
    }
}

/// Overwriting the entry at `i`, when no later entry holds the same key,
/// makes the same map as inserting the new value.
pub proof fn lemma_entries_to_map_update(s: Seq<(Seq<char>, Seq<char>)>, i: int, v: Seq<char>)
    requires
        0 <= i < s.len(),
        forall|j: int| i < j < s.len() ==> (#[trigger] s[j]).0 != s[i].0,
    ensures
        entries_to_map(s.update(i, (s[i].0, v))) == entries_to_map(s).insert(s[i].0, v),
    decreases s.len(),
{
    let k = s[i].0;
    let t = s.update(i, (k, v));
    if i == s.len() - 1 {
        assert(t.drop_last() =~= s.drop_last());
        assert(t.last() == (k, v));
        assert(entries_to_map(t) =~= entries_to_map(s).insert(k, v));
    } else {
        assert(s.drop_last()[i] == s[i]);
        assert forall|j: int| i < j < s.drop_last().len() implies (#[trigger] s.drop_last()[j]).0
            != s.drop_last()[i].0 by {
            assert(s.drop_last()[j] == s[j]);
        }
        lemma_entries_to_map_update(s.drop_last(), i, v);
        assert(t.drop_last() =~= s.drop_last().update(i, (k, v)));
        assert(t.last() == s.last());
        assert(s.last().0 != k);
        assert(entries_to_map(t) =~= entries_to_map(s).insert(k, v));
    }
}

/// An ordered mapping from text keys to text values, used to parameterise a
/// render call.
pub struct RenderContext {
    entries: Vec<(String, String)>,
}

impl RenderContext {
    /// The entries in insertion order.
    pub closed spec fn entries_seq(&self) -> Seq<(Seq<char>, Seq<char>)> {
        self.entries@.map_values(|p: (String, String)| (p.0@, p.1@))
    }

    /// The mapping the context holds.
    pub open spec fn as_map(&self) -> Map<Seq<char>, Seq<char>> {
        entries_to_map(self.entries_seq())
    }

    /// No two entries hold the same key.
    pub closed spec fn wf(&self) -> bool {
        forall|i: int, j: int|
            #![trigger self.entries_seq()[i], self.entries_seq()[j]]
            0 <= i < j < self.entries_seq().len() ==> self.entries_seq()[i].0
                != self.entries_seq()[j].0
    }

    /// A fresh context that holds nothing.
    pub fn new() -> (c: RenderContext)
        ensures
            c.wf(),
            c.entries_seq().len() == 0,
            c.as_map() == no_entries(),
    {
        let c = RenderContext { entries: Vec::new() };
        proof {
            assert(c.entries_seq() =~= Seq::empty());
            assert(c.as_map() =~= no_entries());
        }
        c
    }

    /// Puts the pair into the context: an entry already holding the key
    /// takes the new value in place, and a new key goes to the end.
    pub fn add(&mut self, key: &str, value: &str)
        requires
            old(self).wf(),
        ensures
            final(self).wf(),
            final(self).as_map() == old(self).as_map().insert(key@, value@),
            old(self).as_map().contains_key(key@) ==> final(self).entries_seq().len() == old(
                self,
            ).entries_seq().len(),
            !old(self).as_map().contains_key(key@) ==> final(self).entries_seq() == old(
                self,
            ).entries_seq().push((key@, value@)),
    {
        let ghost s0 = self.entries_seq();
        let mut i: usize = 0;
        while i < self.entries.len()
            invariant
                i <= self.entries.len(),
                self.entries == old(self).entries,
                s0 == self.entries_seq(),
                old(self).wf(),
                forall|j: int| 0 <= j < i ==> (#[trigger] self.entries_seq()[j]).0 != key@,
            decreases self.entries.len() - i,
        {
            if str_eq(self.entries[i].0.as_str(), key) {
                proof {
                    assert(s0[i as int].0 == key@);
                    assert forall|j: int| i < j < s0.len() implies (#[trigger] s0[j]).0
                        != s0[i as int].0 by {
                        if j > i {
                            assert(s0[j].0 != s0[i as int].0);
                        }
                    }
                    lemma_entries_to_map_found(s0, i as int);
                    lemma_entries_to_map_update(s0, i as int, value@);
                }
                let kv = self.entries.remove(i);
                self.entries.insert(i, (kv.0, value.to_owned()));
                proof {
                    assert(self.entries@ =~= old(self).entries@.update(
                        i as int,
                        (kv.0, self.entries@[i as int].1),
                    ));
                    assert(self.entries_seq() =~= s0.update(i as int, (key@, value@)));
                    assert(self.as_map() == old(self).as_map().insert(key@, value@));
                    assert forall|a: int, b: int|
                        #![trigger self.entries_seq()[a], self.entries_seq()[b]]
                        0 <= a < b < self.entries_seq().len() implies self.entries_seq()[a].0
                        != self.entries_seq()[b].0 by {
                        assert(self.entries_seq()[a].0 == s0[a].0);
                        assert(self.entries_seq()[b].0 == s0[b].0);
                    }
                }
                return;
            }
            i += 1;
        }
        proof {
            lemma_entries_to_map_domain(s0, key@);
        }
        self.entries.push((key.to_owned(), value.to_owned()));
        proof {
            assert(self.entries_seq() =~= s0.push((key@, value@)));
            assert(self.entries_seq().drop_last() =~= s0);
            assert(self.as_map() == old(self).as_map().insert(key@, value@));
            assert forall|a: int, b: int|
                #![trigger self.entries_seq()[a], self.entries_seq()[b]]
                0 <= a < b < self.entries_seq().len() implies self.entries_seq()[a].0
                != self.entries_seq()[b].0 by {
                if b < s0.len() {
                    assert(self.entries_seq()[a] == s0[a]);
                    assert(self.entries_seq()[b] == s0[b]);
                } else {
                    assert(self.entries_seq()[a] == s0[a]);
                    assert(s0[a].0 != key@);
                }
            }
        }
    }

    /// The value the context holds for `key`, if it holds one.
    pub fn get(&self, key: &str) -> (r: Option<&String>)
        requires
            self.wf(),
        ensures
            match r {
                Some(v) => self.as_map().contains_key(key@) && v@ == self.as_map()[key@],
                None => !self.as_map().contains_key(key@),
            },
    {
        let mut i: usize = 0;
        while i < self.entries.len()
            invariant
                i <= self.entries.len(),
                self.wf(),
                forall|j: int| 0 <= j < i ==> (#[trigger] self.entries_seq()[j]).0 != key@,
            decreases self.entries.len() - i,
        {
            if str_eq(self.entries[i].0.as_str(), key) {
                proof {
                    let s = self.entries_seq();
                    assert(s[i as int].0 == key@);
                    assert forall|j: int| i < j < s.len() implies (#[trigger] s[j]).0
                        != s[i as int].0 by {
                        assert(s[j].0 != s[i as int].0);
                    }
                    lemma_entries_to_map_found(s, i as int);
                }
                return Some(&self.entries[i].1);
            }
            i += 1;
        }
        proof {
            lemma_entries_to_map_domain(self.entries_seq(), key@);
        }
        None
    }

    /// How many entries the context holds.
    pub fn len(&self) -> (n: usize)
        ensures
            n == self.entries_seq().len(),
    {
        self.entries.len()
    }

    /// The same entries, handed to the templating engine.
    pub(crate) fn to_engine(&self) -> (c: tera::Context)
        ensures
            context_entries(c) == self.as_map(),
    {
        let mut c = engine_context_new();
        proof {
            assert(self.entries_seq().take(0) =~= Seq::empty());
        }
        let mut i: usize = 0;
        while i < self.entries.len()
            invariant
                i <= self.entries.len(),
                context_entries(c) == entries_to_map(self.entries_seq().take(i as int)),
            decreases self.entries.len() - i,
        {
            engine_context_insert(&mut c, self.entries[i].0.as_str(), self.entries[i].1.as_str());
            proof {
                let s = self.entries_seq();
                assert(s.take(i + 1).drop_last() =~= s.take(i as int));
                assert(s.take(i + 1).last() == s[i as int]);
            }
            i += 1;
        }
        proof {
            assert(self.entries_seq().take(self.entries@.len() as int) =~= self.entries_seq());
        }
        c
    }
}

} // verus!
