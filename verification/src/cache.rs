//! A bounded schema cache keyed by graph identifier: explicit
//! invalidation, and oldest-unused eviction when a new key arrives at
//! capacity.  Reads and writes both refresh an entry's recency.

use vstd::prelude::*;
use crate::text::str_eq;

verus! {

/// Pairs of key and value texts, least recently used first.
pub type EntriesV = Seq<(Seq<char>, Seq<char>)>;

/// The value stored under `k`, searching from the least recent end.
pub open spec fn lookup(s: EntriesV, k: Seq<char>) -> Option<Seq<char>>
    decreases s.len(),
{
    if s.len() == 0 {
        Option::None
    } else if s[0].0 == k {
        Option::Some(s[0].1)
    } else {
        lookup(s.drop_first(), k)
    }
}

/// `s` without the first entry whose key is `k`.
pub open spec fn remove_key(s: EntriesV, k: Seq<char>) -> EntriesV
    decreases s.len(),
{
    if s.len() == 0 {
        s
    } else if s[0].0 == k {
        s.drop_first()
    } else {
        seq![s[0]] + remove_key(s.drop_first(), k)
    }
}

/// Every key occurs at most once.
pub open spec fn distinct_keys(s: EntriesV) -> bool {
    forall|i: int, j: int| 0 <= i < j < s.len() ==> (#[trigger] s[i]).0 != (#[trigger] s[j]).0
}

/// No entry carries key `k`.
pub open spec fn absent(s: EntriesV, k: Seq<char>) -> bool {
    forall|i: int| 0 <= i < s.len() ==> (#[trigger] s[i]).0 != k
}

/// A key is absent exactly when lookup fails.
pub proof fn lemma_lookup_absent(s: EntriesV, k: Seq<char>)
    ensures
        absent(s, k) <==> lookup(s, k) is None,
    decreases s.len(),
{
    if s.len() > 0 {
        lemma_lookup_absent(s.drop_first(), k);
        if s[0].0 != k {
            assert(absent(s, k) <==> absent(s.drop_first(), k)) by {
                if absent(s.drop_first(), k) && s[0].0 != k {
                    assert forall|i: int| 0 <= i < s.len() implies (#[trigger] s[i]).0 != k by {
                        if i > 0 {
                            assert(s[i] == s.drop_first()[i - 1]);
                        }
                    }
                }
            }
        }
    }
}

/// Removing a key removes exactly that key's entry: its own lookup
/// becomes `None`, every other key's lookup is unchanged, and the
/// remaining keys stay distinct.
pub proof fn lemma_remove_key(s: EntriesV, k: Seq<char>)
    requires
        distinct_keys(s),
    ensures
        lookup(remove_key(s, k), k) is None,
        forall|k2: Seq<char>| k2 != k ==> #[trigger] lookup(remove_key(s, k), k2) == lookup(s, k2),
        distinct_keys(remove_key(s, k)),
        absent(s, k) ==> remove_key(s, k) == s,
        remove_key(s, k).len() <= s.len(),
        forall|k2: Seq<char>| absent(s, k2) ==> #[trigger] absent(remove_key(s, k), k2),
    decreases s.len(),
{
    if s.len() == 0 {
    } else {
        let rest = s.drop_first();
        assert(distinct_keys(rest)) by {
            assert forall|i: int, j: int| 0 <= i < j < rest.len() implies (#[trigger] rest[i]).0
                != (#[trigger] rest[j]).0 by {
                assert(rest[i] == s[i + 1] && rest[j] == s[j + 1]);
            }
        }
        if s[0].0 == k {
            assert(absent(rest, k)) by {
                assert forall|i: int| 0 <= i < rest.len() implies (#[trigger] rest[i]).0 != k by {
                    assert(rest[i] == s[i + 1]);
                }
            }
            lemma_lookup_absent(rest, k);
            assert forall|k2: Seq<char>| k2 != k implies #[trigger] lookup(remove_key(s, k), k2)
                == lookup(s, k2) by {}
            if absent(s, k) {
                assert(s[0].0 != k);
            }
            assert forall|k2: Seq<char>| absent(s, k2) implies #[trigger] absent(
                remove_key(s, k),
                k2,
            ) by {
                assert forall|i: int| 0 <= i < rest.len() implies (#[trigger] rest[i]).0 != k2 by {
                    assert(rest[i] == s[i + 1]);
                }
            }
        } else {
            lemma_remove_key(rest, k);
            let rr = remove_key(s, k);
            assert(rr == seq![s[0]] + remove_key(rest, k));
            assert(rr[0] == s[0]);
            assert(rr.drop_first() =~= remove_key(rest, k));
            // lookup of k in rr: head key differs, tail lookup is None
            assert(lookup(rr, k) == lookup(remove_key(rest, k), k));
            // other keys
            assert forall|k2: Seq<char>| k2 != k implies #[trigger] lookup(rr, k2) == lookup(
                s,
                k2,
            ) by {
                if rr[0].0 == k2 {
                } else {
                    assert(lookup(rr, k2) == lookup(remove_key(rest, k), k2));
                    assert(lookup(s, k2) == lookup(rest, k2));
                }
            }
            // distinctness: head key is absent from rest, hence from remove_key(rest)
            assert(absent(rest, s[0].0)) by {
                assert forall|i: int| 0 <= i < rest.len() implies (#[trigger] rest[i]).0 != s[0].0
                    by {
                    assert(rest[i] == s[i + 1]);
                }
            }
            assert(absent(remove_key(rest, k), s[0].0));
            assert(distinct_keys(rr)) by {
                assert forall|i: int, j: int| 0 <= i < j < rr.len() implies (#[trigger] rr[i]).0
                    != (#[trigger] rr[j]).0 by {
                    if i == 0 {
                        assert(rr[j] == remove_key(rest, k)[j - 1]);
                    } else {
                        assert(rr[i] == remove_key(rest, k)[i - 1]);
                        assert(rr[j] == remove_key(rest, k)[j - 1]);
                    }
                }
            }
            if absent(s, k) {
                assert(absent(rest, k)) by {
                    assert forall|i: int| 0 <= i < rest.len() implies (#[trigger] rest[i]).0 != k
                        by {
                        assert(rest[i] == s[i + 1]);
                    }
                }
                assert(remove_key(rest, k) == rest);
                assert(rr =~= s);
            }
            assert forall|k2: Seq<char>| absent(s, k2) implies #[trigger] absent(rr, k2) by {
                assert(absent(rest, k2)) by {
                    assert forall|i: int| 0 <= i < rest.len() implies (#[trigger] rest[i]).0 != k2
                        by {
                        assert(rest[i] == s[i + 1]);
                    }
                }
                assert(absent(remove_key(rest, k), k2));
                assert forall|i: int| 0 <= i < rr.len() implies (#[trigger] rr[i]).0 != k2 by {
                    if i > 0 {
                        assert(rr[i] == remove_key(rest, k)[i - 1]);
                    }
                }
            }
        }
    }
}

/// Looking up a freshly appended entry yields its value; other keys
/// are unaffected by the append.
pub proof fn lemma_lookup_push(s: EntriesV, k: Seq<char>, v: Seq<char>)
    requires
        absent(s, k),
    ensures
        lookup(s.push((k, v)), k) == Option::Some(v),
        forall|k2: Seq<char>| k2 != k ==> #[trigger] lookup(s.push((k, v)), k2) == lookup(s, k2),
    decreases s.len(),
{
    if s.len() == 0 {
        assert(s.push((k, v))[0] == (k, v));
        assert(s.push((k, v)).drop_first() =~= s);
    } else {
        let rest = s.drop_first();
        assert(absent(rest, k)) by {
            assert forall|i: int| 0 <= i < rest.len() implies (#[trigger] rest[i]).0 != k by {
                assert(rest[i] == s[i + 1]);
            }
        }
        lemma_lookup_push(rest, k, v);
        assert(s.push((k, v))[0] == s[0]);
        assert(s.push((k, v)).drop_first() =~= rest.push((k, v)));
        assert(s[0].0 != k);
        assert forall|k2: Seq<char>| k2 != k implies #[trigger] lookup(s.push((k, v)), k2)
            == lookup(s, k2) by {
            if s[0].0 == k2 {
            } else {
                assert(lookup(s.push((k, v)), k2) == lookup(rest.push((k, v)), k2));
                assert(lookup(s, k2) == lookup(rest, k2));
            }
        }
    }
}

/// Dropping the least recent entry removes exactly its key.
pub proof fn lemma_lookup_drop_first(s: EntriesV)
    requires
        distinct_keys(s),
        s.len() > 0,
    ensures
        lookup(s.drop_first(), s[0].0) is None,
        forall|k2: Seq<char>| k2 != s[0].0 ==> #[trigger] lookup(s.drop_first(), k2) == lookup(
            s,
            k2,
        ),
        distinct_keys(s.drop_first()),
{
    let rest = s.drop_first();
    assert(absent(rest, s[0].0)) by {
        assert forall|i: int| 0 <= i < rest.len() implies (#[trigger] rest[i]).0 != s[0].0 by {
            assert(rest[i] == s[i + 1]);
        }
    }
    lemma_lookup_absent(rest, s[0].0);
    assert(distinct_keys(rest)) by {
        assert forall|i: int, j: int| 0 <= i < j < rest.len() implies (#[trigger] rest[i]).0
            != (#[trigger] rest[j]).0 by {
            assert(rest[i] == s[i + 1] && rest[j] == s[j + 1]);
        }
    }
}

/// A process-wide store of serialized schemas, bounded in size.
pub struct SchemaCache {
    entries: Vec<(String, String)>,
    capacity: usize,
}

impl SchemaCache {
    /// Image of the entries, least recently used first.
    pub closed spec fn entries_view(&self) -> EntriesV {
        self.entries@.map_values(|p: (String, String)| (p.0@, p.1@))
    }

    /// Well-formedness: a positive bound, respected, with distinct keys.
    pub closed spec fn wf(&self) -> bool {
        &&& self.capacity >= 1
        &&& self.entries@.len() <= self.capacity
        &&& distinct_keys(self.entries_view())
    }

    /// The value cached under a key.
    pub open spec fn spec_get(&self, k: Seq<char>) -> Option<Seq<char>> {
        lookup(self.entries_view(), k)
    }

    /// The bound the cache was made with.
    pub closed spec fn spec_capacity(&self) -> int {
        self.capacity as int
    }

    /// An empty cache holding at most `capacity` entries.
    pub fn new(capacity: usize) -> (r: SchemaCache)
        requires
            capacity >= 1,
        ensures
            r.wf(),
            r.entries_view() == Seq::<(Seq<char>, Seq<char>)>::empty(),
            r.spec_capacity() == capacity,
    {
        let r = SchemaCache { entries: Vec::new(), capacity };
        proof {
            assert(r.entries_view() =~= Seq::<(Seq<char>, Seq<char>)>::empty());
        }
        r
    }

    /// Index of the entry holding `g`, when one does.
    fn find(&self, g: &str) -> (r: Option<usize>)
        ensures
            match r {
                Option::Some(i) => i < self.entries@.len() && self.entries_view()[i as int].0 == g@
                    && (forall|j: int|
                    0 <= j < i ==> (#[trigger] self.entries_view()[j]).0 != g@),
                Option::None => absent(self.entries_view(), g@),
            },
    {
        let n = self.entries.len();
        let mut i: usize = 0;
        while i < n
            invariant
                n == self.entries@.len(),
                i <= n,
                forall|j: int| 0 <= j < i ==> (#[trigger] self.entries_view()[j]).0 != g@,
            decreases n - i,
        {
            if str_eq(self.entries[i].0.as_str(), g) {
                proof {
                    assert(self.entries_view()[i as int].0 == self.entries@[i as int].0@);
                }
                return Option::Some(i);
            }
            proof {
                assert(self.entries_view()[i as int].0 == self.entries@[i as int].0@);
            }
            i = i + 1;
        }
        Option::None
    }

    /// Returns the schema cached under `g`, refreshing its recency;
    /// the cached associations themselves do not change.
    pub fn get(&mut self, g: &str) -> (r: Option<String>)
        requires
            old(self).wf(),
        ensures
            final(self).wf(),
            match r {
                Option::Some(v) => old(self).spec_get(g@) == Option::Some(v@),
                Option::None => old(self).spec_get(g@) is None,
            },
            forall|k: Seq<char>| #[trigger] final(self).spec_get(k) == old(self).spec_get(k),
            final(self).entries_view() == (match old(self).spec_get(g@) {
                Option::Some(v) => remove_key(old(self).entries_view(), g@).push((g@, v)),
                Option::None => old(self).entries_view(),
            }),
    {
        let ghost s0 = self.entries_view();
        proof {
            lemma_lookup_absent(s0, g@);
        }
        match self.find(g) {
            Option::Some(i) => {
                let pair = self.entries.remove(i);
                let value = String::from_str(pair.1.as_str());
                proof {
                    lemma_remove_at_first(s0, g@, i as int);
                    assert(self.entries_view() =~= s0.remove(i as int));
                    assert(lookup(s0, g@) == Option::Some(s0[i as int].1)) by {
                        lemma_lookup_at_first(s0, g@, i as int);
                    }
                    lemma_remove_key(s0, g@);
                }
                self.entries.push(pair);
                proof {
                    assert(self.entries_view() =~= remove_key(s0, g@).push((g@, value@)));
                    lemma_lookup_absent(remove_key(s0, g@), g@);
                    lemma_lookup_push(remove_key(s0, g@), g@, value@);
                    assert forall|k: Seq<char>| #[trigger] lookup(self.entries_view(), k) == lookup(
                        s0,
                        k,
                    ) by {}
                    assert(distinct_keys(self.entries_view())) by {
                        let rr = remove_key(s0, g@);
                        assert forall|a: int, b: int|
                            0 <= a < b < self.entries_view().len() implies (
                        #[trigger] self.entries_view()[a]).0 != (
                        #[trigger] self.entries_view()[b]).0 by {
                            if b < rr.len() {
                                assert(self.entries_view()[a] == rr[a]);
                                assert(self.entries_view()[b] == rr[b]);
                            } else {
                                assert(self.entries_view()[a] == rr[a]);
                                lemma_lookup_absent(rr, g@);
                            }
                        }
                    }
                }
                Option::Some(value)
            },
            Option::None => {
                proof {
                    assert(final(self).entries_view() == s0);
                }
                Option::None
            },
        }
    }

    /// Stores `schema` under `g` as the most recent entry, replacing
    /// any earlier value of `g`.  At capacity a new key evicts the
    /// least recently used entry; `g` itself is never the one evicted.
    pub fn put(&mut self, g: &str, schema: &str)
        requires
            old(self).wf(),
        ensures
            final(self).wf(),
            final(self).spec_capacity() == old(self).spec_capacity(),
            final(self).spec_get(g@) == Option::Some(schema@),
            final(self).entries_view() == (if lookup(old(self).entries_view(), g@) is Some {
                remove_key(old(self).entries_view(), g@).push((g@, schema@))
            } else if old(self).entries_view().len() < old(self).spec_capacity() {
                old(self).entries_view().push((g@, schema@))
            } else {
                old(self).entries_view().drop_first().push((g@, schema@))
            }),
            forall|k: Seq<char>|
                k != g@ && (old(self).entries_view().len() < old(self).spec_capacity() || lookup(
                    old(self).entries_view(),
                    g@,
                ) is Some || old(self).entries_view().len() == 0 || k != old(
                    self,
                ).entries_view()[0].0) ==> #[trigger] final(self).spec_get(k) == old(
                    self,
                ).spec_get(k),
    {
        let ghost s0 = self.entries_view();
        proof {
            lemma_lookup_absent(s0, g@);
        }
        let key = String::from_str(g);
        let value = String::from_str(schema);
        match self.find(g) {
            Option::Some(i) => {
                let _ = self.entries.remove(i);
                proof {
                    lemma_remove_at_first(s0, g@, i as int);
                    assert(self.entries_view() =~= s0.remove(i as int));
                    lemma_remove_key(s0, g@);
                }
                self.entries.push((key, value));
                proof {
                    assert(self.entries_view() =~= remove_key(s0, g@).push((g@, schema@)));
                    lemma_lookup_absent(remove_key(s0, g@), g@);
                    lemma_lookup_push(remove_key(s0, g@), g@, schema@);
                    lemma_push_distinct(remove_key(s0, g@), g@, schema@);
                }
            },
            Option::None => {
                if self.entries.len() >= self.capacity {
                    let _ = self.entries.remove(0);
                    proof {
                        assert(self.entries_view() =~= s0.drop_first());
                        lemma_lookup_drop_first(s0);
                        assert forall|i: int|
                            0 <= i < s0.drop_first().len() implies (
                        #[trigger] s0.drop_first()[i]).0 != g@ by {
                            assert(s0.drop_first()[i] == s0[i + 1]);
                        }
                        lemma_lookup_absent(s0.drop_first(), g@);
                    }
                    self.entries.push((key, value));
                    proof {
                        assert(self.entries_view() =~= s0.drop_first().push((g@, schema@)));
                        lemma_lookup_push(s0.drop_first(), g@, schema@);
                        lemma_push_distinct(s0.drop_first(), g@, schema@);
                    }
                } else {
                    self.entries.push((key, value));
                    proof {
                        assert(self.entries_view() =~= s0.push((g@, schema@)));
                        lemma_lookup_push(s0, g@, schema@);
                        lemma_push_distinct(s0, g@, schema@);
                    }
                }
            },
        }
    }

    /// Deletes the entry of `g`, if one is held; no other entry moves.
    pub fn invalidate(&mut self, g: &str)
        requires
            old(self).wf(),
        ensures
            final(self).wf(),
            final(self).spec_get(g@) is None,
            forall|k: Seq<char>| k != g@ ==> #[trigger] final(self).spec_get(k) == old(
                self,
            ).spec_get(k),
            final(self).entries_view() == remove_key(old(self).entries_view(), g@),
    {
        let ghost s0 = self.entries_view();
        proof {
            lemma_remove_key(s0, g@);
            lemma_lookup_absent(s0, g@);
        }
        match self.find(g) {
            Option::Some(i) => {
                let _ = self.entries.remove(i);
                proof {
                    lemma_remove_at_first(s0, g@, i as int);
                    assert(self.entries_view() =~= s0.remove(i as int));
                }
            },
            Option::None => {
                proof {
                    assert(remove_key(s0, g@) == s0);
                }
            },
        }
    }

    /// Number of entries held.
    pub fn len(&self) -> (r: usize)
        ensures
            r == self.entries_view().len(),
    {
        self.entries.len()
    }
}

/// Appending a fresh key keeps the keys distinct.
proof fn lemma_push_distinct(s: EntriesV, k: Seq<char>, v: Seq<char>)
    requires
        distinct_keys(s),
        absent(s, k),
    ensures
        distinct_keys(s.push((k, v))),
{
    let p = s.push((k, v));
    assert forall|i: int, j: int| 0 <= i < j < p.len() implies (#[trigger] p[i]).0 != (
    #[trigger] p[j]).0 by {
        if j < s.len() {
            assert(p[i] == s[i] && p[j] == s[j]);
        } else {
            assert(p[i] == s[i] && p[j] == (k, v));
        }
    }
}

/// At the first index holding `k`, removing that index is removing
/// the key, and the lookup yields that entry's value.
proof fn lemma_remove_at_first(s: EntriesV, k: Seq<char>, i: int)
    requires
        0 <= i < s.len(),
        s[i].0 == k,
        forall|j: int| 0 <= j < i ==> (#[trigger] s[j]).0 != k,
    ensures
        s.remove(i) == remove_key(s, k),
    decreases i,
{
    if i == 0 {
        assert(s.remove(0) =~= s.drop_first());
    } else {
        let rest = s.drop_first();
        assert(rest[i - 1].0 == k);
        assert(forall|j: int| 0 <= j < i - 1 ==> (#[trigger] rest[j]).0 != k);
        lemma_remove_at_first(rest, k, i - 1);
        assert(s[0].0 != k);
        assert(remove_key(s, k) == seq![s[0]] + remove_key(rest, k));
        assert(s.remove(i) =~= seq![s[0]] + rest.remove(i - 1));
    }
}

/// At the first index holding `k`, the lookup yields that entry.
proof fn lemma_lookup_at_first(s: EntriesV, k: Seq<char>, i: int)
    requires
        0 <= i < s.len(),
        s[i].0 == k,
        forall|j: int| 0 <= j < i ==> (#[trigger] s[j]).0 != k,
    ensures
        lookup(s, k) == Option::Some(s[i].1),
    decreases i,
{
    if i == 0 {
    } else {
        let rest = s.drop_first();
        assert(rest[i - 1].0 == k);
        assert(forall|j: int| 0 <= j < i - 1 ==> (#[trigger] rest[j]).0 != k);
        lemma_lookup_at_first(rest, k, i - 1);
    }
}

/// Clears the cached schema of one graph.
pub fn process_clear_schema_cache(cache: &mut SchemaCache, graph_name: &str)
    requires
        old(cache).wf(),
    ensures
        final(cache).wf(),
        final(cache).spec_get(graph_name@) is None,
        forall|k: Seq<char>| k != graph_name@ ==> #[trigger] final(cache).spec_get(k) == old(
            cache,
        ).spec_get(k),
{
    cache.invalidate(graph_name);
}

/// After `put(g, s)` the cache answers `get(g)` with `s`, and after
/// `invalidate(g)` it answers with nothing — stated over the cache
/// model that the methods' contracts use.
pub proof fn lemma_cache_round_trip(s: EntriesV, g: Seq<char>, v: Seq<char>, cap: int)
    requires
        distinct_keys(s),
        cap >= 1,
    ensures
        lookup(
            (if lookup(s, g) is Some {
                remove_key(s, g).push((g, v))
            } else if s.len() < cap {
                s.push((g, v))
            } else {
                s.drop_first().push((g, v))
            }),
            g,
        ) == Option::Some(v),
        lookup(remove_key(s, g), g) is None,
{
    lemma_remove_key(s, g);
    lemma_lookup_absent(s, g);
    lemma_lookup_absent(remove_key(s, g), g);
    lemma_lookup_push(remove_key(s, g), g, v);
    if lookup(s, g) is None {
        if s.len() < cap {
            lemma_lookup_push(s, g, v);
        } else if s.len() > 0 {
            lemma_lookup_drop_first(s);
            assert forall|i: int| 0 <= i < s.drop_first().len() implies (
            #[trigger] s.drop_first()[i]).0 != g by {
                assert(s.drop_first()[i] == s[i + 1]);
            }
            lemma_lookup_absent(s.drop_first(), g);
            lemma_lookup_push(s.drop_first(), g, v);
        }
    }
}

} // verus!
