//! Attribute maps: string keys to normalized string values, with unique keys
//! and last-write-wins insertion. The abstract view is a `Map` from key
//! characters to value characters.

use vstd::prelude::*;

use crate::strutil::str_eq;

verus! {

/// The map denoted by an association list: later entries win.
pub open spec fn map_of(pairs: Seq<(String, String)>) -> Map<Seq<char>, Seq<char>>
    decreases pairs.len(),
{
    if pairs.len() == 0 {
        Map::empty()
    } else {
        map_of(pairs.drop_last()).insert(pairs.last().0@, pairs.last().1@)
    }
}

/// No two entries share a key.
pub open spec fn unique_keys(pairs: Seq<(String, String)>) -> bool {
    forall|i: int, j: int|
        0 <= i < j < pairs.len() ==> pairs[i].0@ != pairs[j].0@
}

proof fn lemma_map_of_index(pairs: Seq<(String, String)>, i: int)
    requires
        unique_keys(pairs),
        0 <= i < pairs.len(),
    ensures
        map_of(pairs).contains_key(pairs[i].0@),
        map_of(pairs)[pairs[i].0@] == pairs[i].1@,
    decreases pairs.len(),
{
    if i < pairs.len() - 1 {
        lemma_map_of_index(pairs.drop_last(), i);
    }
}

proof fn lemma_map_of_absent(pairs: Seq<(String, String)>, k: Seq<char>)
    requires
        forall|i: int| 0 <= i < pairs.len() ==> pairs[i].0@ != k,
    ensures
        !map_of(pairs).contains_key(k),
    decreases pairs.len(),
{
    if pairs.len() > 0 {
        lemma_map_of_absent(pairs.drop_last(), k);
    }
}

proof fn lemma_map_of_update(pairs: Seq<(String, String)>, i: int, p: (String, String))
    requires
        unique_keys(pairs),
        0 <= i < pairs.len(),
        pairs[i].0@ == p.0@,
    ensures
        map_of(pairs.update(i, p)) == map_of(pairs).insert(p.0@, p.1@),
    decreases pairs.len(),
{
    let upd = pairs.update(i, p);
    if i == pairs.len() - 1 {
        assert(upd.drop_last() =~= pairs.drop_last());
        assert(map_of(upd) =~= map_of(pairs).insert(p.0@, p.1@));
    } else {
        let inner = pairs.drop_last();
        assert(upd.drop_last() =~= inner.update(i, p));
        lemma_map_of_update(inner, i, p);
        assert(pairs.last().0@ != p.0@);
        assert(map_of(upd) =~= map_of(pairs).insert(p.0@, p.1@));
    }
}

/// A mapping from attribute key to normalized attribute value; keys are
/// unique and an insertion with an existing key replaces its value.
#[derive(Debug, Clone)]
pub struct AttrMap {
    pairs: Vec<(String, String)>,
}

impl View for AttrMap {
    type V = Map<Seq<char>, Seq<char>>;

    closed spec fn view(&self) -> Map<Seq<char>, Seq<char>> {
        map_of(self.pairs@)
    }
}

impl AttrMap {
    /// Keys are pairwise distinct.
    pub closed spec fn wf(self) -> bool {
        unique_keys(self.pairs@)
    }

    /// The entries in storage order.
    pub closed spec fn entries_seq(self) -> Seq<(String, String)> {
        self.pairs@
    }

    /// An empty map.
    pub fn new() -> (r: AttrMap)
        ensures
            r.wf(),
            r@ == Map::<Seq<char>, Seq<char>>::empty(),
            r.entries_seq().len() == 0,
    {
        AttrMap { pairs: Vec::new() }
    }

    /// The entries of the map, in storage order.
    pub fn entries<'a>(&'a self) -> (r: &'a Vec<(String, String)>)
        ensures
            r@ == self.entries_seq(),
    {
        &self.pairs
    }

    /// How many entries the map holds.
    pub fn len(&self) -> (r: usize)
        ensures
            r == self.entries_seq().len(),
    {
        self.pairs.len()
    }

    /// Looks a key up.
    pub fn get<'a>(&'a self, key: &str) -> (r: Option<&'a String>)
        requires
            self.wf(),
        ensures
            match r {
                Some(v) => self@.contains_key(key@) && v@ == self@[key@],
                None => !self@.contains_key(key@),
            },
    {
        let n = self.pairs.len();
        let mut i: usize = 0;
        while i < n
            invariant
                i <= n,
                n == self.pairs@.len(),
                self.wf(),
                forall|j: int| 0 <= j < i ==> self.pairs@[j].0@ != key@,
            decreases n - i,
        {
            if str_eq(self.pairs[i].0.as_str(), key) {
                proof {
                    lemma_map_of_index(self.pairs@, i as int);
                }
                return Some(&self.pairs[i].1);
            }
            i += 1;
        }
        proof {
            lemma_map_of_absent(self.pairs@, key@);
        }
        None
    }

    /// Whether a key is present.
    pub fn contains_key(&self, key: &str) -> (r: bool)
        requires
            self.wf(),
        ensures
            r == self@.contains_key(key@),
    {
        self.get(key).is_some()
    }

    /// Inserts a value under a key; an existing entry with that key is
    /// replaced.
    #[verifier::loop_isolation(false)]
    pub fn insert(&mut self, key: String, value: String)
        requires
            old(self).wf(),
        ensures
            final(self).wf(),
            final(self)@ == old(self)@.insert(key@, value@),
    {
        let n = self.pairs.len();
        let mut i: usize = 0;
        while i < n
            invariant
                i <= n,
                self == old(self),
                forall|j: int| 0 <= j < i ==> self.pairs@[j].0@ != key@,
            decreases n - i,
        {
            if str_eq(self.pairs[i].0.as_str(), key.as_str()) {
                proof {
                    lemma_map_of_update(self.pairs@, i as int, (key, value));
                }
                let ghost prev = self.pairs@;
                self.pairs.set(i, (key, value));
                proof {
                    let np = self.pairs@;
                    assert(np == prev.update(i as int, (key, value)));
                    assert forall|a: int, b: int|
                        0 <= a < b < np.len() implies np[a].0@ != np[b].0@ by {
                        assert(prev[a].0@ != prev[b].0@);
                        assert(prev[i as int].0@ == key@);
                    }
                }
                return ;
            }
            i += 1;
        }
        proof {
            lemma_map_of_absent(self.pairs@, key@);
        }
        self.pairs.push((key, value));
        proof {
            assert(self.pairs@.drop_last() =~= old(self).pairs@);
        }
    }

    /// An independent copy with the same entries.
    pub fn duplicate(&self) -> (r: AttrMap)
        ensures
            r.wf() == self.wf(),
            r@ == self@,
            r.entries_seq() =~= self.entries_seq(),
    {
        let n = self.pairs.len();
        let mut out: Vec<(String, String)> = Vec::new();
        let mut i: usize = 0;
        while i < n
            invariant
                i <= n,
                n == self.pairs@.len(),
                out@ =~= self.pairs@.take(i as int),
            decreases n - i,
        {
            let k = self.pairs[i].0.clone();
            let v = self.pairs[i].1.clone();
            out.push((k, v));
            proof {
                assert(out@ =~= self.pairs@.take(i + 1 as int));
            }
            i += 1;
        }
        proof {
            assert(self.pairs@.take(n as int) =~= self.pairs@);
        }
        AttrMap { pairs: out }
    }

    /// The union of `self` and `over`: every key of either is present, and on
    /// a shared key the value of `over` wins.
    pub fn merged_with(&self, over: &AttrMap) -> (r: AttrMap)
        requires
            self.wf(),
            over.wf(),
        ensures
            r.wf(),
            r@ == self@.union_prefer_right(over@),
    {
        let mut out = self.duplicate();
        let n = over.pairs.len();
        let mut i: usize = 0;
        proof {
            assert(out@ =~= self@.union_prefer_right(map_of(over.pairs@.take(0))));
        }
        while i < n
            invariant
                i <= n,
                n == over.pairs@.len(),
                over.wf(),
                out.wf(),
                out@ == self@.union_prefer_right(map_of(over.pairs@.take(i as int))),
            decreases n - i,
        {
            let k = over.pairs[i].0.clone();
            let v = over.pairs[i].1.clone();
            out.insert(k, v);
            proof {
                let cur = over.pairs@.take(i + 1 as int);
                assert(cur.drop_last() =~= over.pairs@.take(i as int));
                assert(cur.last() == over.pairs@[i as int]);
                assert(out@ =~= self@.union_prefer_right(map_of(cur)));
            }
            i += 1;
        }
        proof {
            assert(over.pairs@.take(n as int) =~= over.pairs@);
        }
        out
    }
}

} // verus!
