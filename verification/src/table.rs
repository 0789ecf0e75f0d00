//! A map from texts to values.

use vstd::prelude::*;

use crate::text::same;

verus! {

/// A value that can be copied so that the copy shows the same view.
pub trait Duplicate: View + Sized {
    /// A copy of the value.
    fn duplicate(&self) -> (r: Self)
        ensures
            r@ == self@,
    ;
}

/// Whether no key occurs twice.
pub open spec fn distinct_keys<V>(entries: Seq<(String, V)>) -> bool {
    forall|i: int, j: int|
        0 <= i < j < entries.len() ==> (#[trigger] entries[i]).0@ != (#[trigger] entries[j]).0@
}

/// The map that a list of entries stands for.
pub open spec fn entries_map<V: View>(entries: Seq<(String, V)>) -> Map<Seq<char>, V::V>
    decreases entries.len(),
{
    if entries.len() == 0 {
        Map::empty()
    } else {
        entries_map(entries.drop_last()).insert(entries.last().0@, entries.last().1@)
    }
}

/// The entries of a map for which the predicate holds.
pub open spec fn kept<W>(m: Map<Seq<char>, W>, p: spec_fn(Seq<char>, W) -> bool) -> Map<
    Seq<char>,
    W,
> {
    Map::new(|k: Seq<char>| m.dom().contains(k) && p(k, m[k]), |k: Seq<char>| m[k])
}

/// Whether the list holds the keys of the map, each once.
pub open spec fn lists_keys<W>(list: Seq<Seq<char>>, m: Map<Seq<char>, W>) -> bool {
    &&& forall|i: int, j: int| 0 <= i < j < list.len() ==> list[i] != list[j]
    &&& forall|k: Seq<char>| #[trigger] m.dom().contains(k) <==> list.contains(k)
}

/// One key further along a list, that key has come to those before it.
pub proof fn lemma_next_key(list: Seq<Seq<char>>, i: int)
    requires
        0 <= i < list.len(),
    ensures
        forall|k: Seq<char>| #[trigger]
            list.take(i + 1).contains(k) <==> (list.take(i).contains(k) || k == list[i]),
{
    let past = list.take(i);
    let next = list.take(i + 1);
    assert forall|k: Seq<char>| #[trigger] next.contains(k) <==> (past.contains(k) || k
        == list[i]) by {
        if past.contains(k) {
            let at = choose|at: int| 0 <= at < past.len() && past[at] == k;
            assert(next[at] == k);
        }
        if k == list[i] {
            assert(next[i] == k);
        }
        if next.contains(k) {
            let at = choose|at: int| 0 <= at < next.len() && next[at] == k;
            if at < i {
                assert(past[at] == k);
            }
        }
    }
}

proof fn lemma_entries_map<V: View>(entries: Seq<(String, V)>)
    requires
        distinct_keys(entries),
    ensures
        entries_map(entries).dom().finite(),
        entries_map(entries).dom().len() == entries.len(),
        forall|i: int|
            0 <= i < entries.len() ==> {
                &&& entries_map(entries).dom().contains((#[trigger] entries[i]).0@)
                &&& entries_map(entries)[entries[i].0@] == entries[i].1@
            },
        forall|k: Seq<char>| #[trigger]
            entries_map(entries).dom().contains(k) ==> exists|i: int|
                0 <= i < entries.len() && (#[trigger] entries[i]).0@ == k,
    decreases entries.len(),
{
    if entries.len() > 0 {
        let init = entries.drop_last();
        lemma_entries_map(init);
        assert(!entries_map(init).dom().contains(entries.last().0@)) by {
            if entries_map(init).dom().contains(entries.last().0@) {
                let i = choose|i: int|
                    0 <= i < init.len() && (#[trigger] init[i]).0@ == entries.last().0@;
                assert(entries[i].0@ == entries[entries.len() - 1].0@);
            }
        }
        assert forall|i: int| 0 <= i < entries.len() implies {
            &&& entries_map(entries).dom().contains((#[trigger] entries[i]).0@)
            &&& entries_map(entries)[entries[i].0@] == entries[i].1@
        } by {
            if i < entries.len() - 1 {
                assert(init[i] == entries[i]);
            }
        }
        assert forall|k: Seq<char>| #[trigger]
            entries_map(entries).dom().contains(k) implies exists|i: int|
            0 <= i < entries.len() && (#[trigger] entries[i]).0@ == k by {
            if k == entries.last().0@ {
                assert(entries[entries.len() - 1].0@ == k);
            } else {
                let i = choose|i: int| 0 <= i < init.len() && (#[trigger] init[i]).0@ == k;
                assert(entries[i].0@ == k);
            }
        }
    }
}

proof fn lemma_entries_remove<V: View>(entries: Seq<(String, V)>, at: int)
    requires
        distinct_keys(entries),
        0 <= at < entries.len(),
    ensures
        distinct_keys(entries.remove(at)),
        entries_map(entries.remove(at)) == entries_map(entries).remove(entries[at].0@),
{
    let rest = entries.remove(at);
    assert forall|i: int, j: int| 0 <= i < j < rest.len() implies (#[trigger] rest[i]).0@ != (
    #[trigger] rest[j]).0@ by {
        let a = if i < at { i } else { i + 1 };
        let b = if j < at { j } else { j + 1 };
        assert(rest[i] == entries[a]);
        assert(rest[j] == entries[b]);
    }
    lemma_entries_map(entries);
    lemma_entries_map(rest);
    let m = entries_map(entries);
    let n = entries_map(rest);
    assert forall|k: Seq<char>| n.dom().contains(k) == m.remove(entries[at].0@).dom().contains(
        k,
    ) by {
        if n.dom().contains(k) {
            let i = choose|i: int| 0 <= i < rest.len() && (#[trigger] rest[i]).0@ == k;
            let a = if i < at { i } else { i + 1 };
            assert(rest[i] == entries[a]);
        }
        if m.dom().contains(k) && k != entries[at].0@ {
            let i = choose|i: int| 0 <= i < entries.len() && (#[trigger] entries[i]).0@ == k;
            let b = if i < at { i } else { i - 1 };
            assert(rest[b] == entries[i]);
        }
    }
    assert forall|k: Seq<char>| n.dom().contains(k) implies n[k] == m[k] by {
        let i = choose|i: int| 0 <= i < rest.len() && (#[trigger] rest[i]).0@ == k;
        let a = if i < at { i } else { i + 1 };
        assert(rest[i] == entries[a]);
    }
    assert(n =~= m.remove(entries[at].0@));
}

/// A finite map from texts to values, one value per text.
pub struct Table<V: View> {
    entries: Vec<(String, V)>,
}

impl<V: View> View for Table<V> {
    type V = Map<Seq<char>, V::V>;

    closed spec fn view(&self) -> Map<Seq<char>, V::V> {
        entries_map(self.entries@)
    }
}

impl<V: View> Table<V> {
    #[verifier::type_invariant]
    spec fn inv(self) -> bool {
        distinct_keys(self.entries@)
    }

    /// The keys, each once, in the order in which the table lists them.
    pub closed spec fn key_list(self) -> Seq<Seq<char>> {
        self.entries@.map_values(|e: (String, V)| e.0@)
    }

    /// The empty table.
    pub fn new() -> (r: Self)
        ensures
            r@ == Map::<Seq<char>, V::V>::empty(),
    {
        Table { entries: Vec::new() }
    }

    /// The number of entries.
    pub fn len(&self) -> (r: usize)
        ensures
            self@.dom().finite(),
            r == self@.dom().len(),
            r == self.key_list().len(),
            lists_keys(self.key_list(), self@),
    {
        proof {
            use_type_invariant(self);
            lemma_entries_map(self.entries@);
            let e = self.entries@;
            let list = self.key_list();
            assert forall|i: int, j: int| 0 <= i < j < list.len() implies list[i] != list[j] by {
                assert(e[i].0@ != e[j].0@);
            }
            assert forall|k: Seq<char>| #[trigger] self@.dom().contains(k) <==> list.contains(
                k,
            ) by {
                if self@.dom().contains(k) {
                    let i = choose|i: int| 0 <= i < e.len() && (#[trigger] e[i]).0@ == k;
                    assert(list[i] == k);
                }
                if list.contains(k) {
                    let i = choose|i: int| 0 <= i < list.len() && list[i] == k;
                    assert(e[i].0@ == k);
                }
            }
        }
        self.entries.len()
    }

    /// Where the key stands, or the length of the table.
    fn find(&self, key: &str) -> (r: usize)
        ensures
            r <= self.entries@.len(),
            r < self.entries@.len() ==> self.entries@[r as int].0@ == key@,
            r < self.entries@.len() <==> self@.dom().contains(key@),
    {
        proof {
            use_type_invariant(self);
            lemma_entries_map(self.entries@);
        }
        let mut i: usize = 0;
        while i < self.entries.len()
            invariant
                i <= self.entries@.len(),
                forall|j: int| 0 <= j < i ==> (#[trigger] self.entries@[j]).0@ != key@,
            decreases self.entries@.len() - i,
        {
            if same(self.entries[i].0.as_str(), key) {
                proof {
                    use_type_invariant(self);
                    lemma_entries_map(self.entries@);
                }
                return i;
            }
            i = i + 1;
        }
        i
    }

    /// The value of a key.
    pub fn get(&self, key: &str) -> (r: Option<&V>)
        ensures
            r is Some <==> self@.dom().contains(key@),
            r matches Some(v) ==> v@ == self@[key@],
    {
        proof {
            use_type_invariant(self);
            lemma_entries_map(self.entries@);
        }
        let i: usize = self.find(key);
        if i < self.entries.len() {
            Some(&self.entries[i].1)
        } else {
            None
        }
    }

    /// Whether the key has a value.
    pub fn contains_key(&self, key: &str) -> (r: bool)
        ensures
            r == self@.dom().contains(key@),
    {
        let i: usize = self.find(key);
        i < self.entries.len()
    }

    /// Takes the key out and hands back its value.
    pub fn remove(&mut self, key: &str) -> (r: Option<V>)
        ensures
            final(self)@ == old(self)@.remove(key@),
            r is Some <==> old(self)@.dom().contains(key@),
            r matches Some(v) ==> v@ == old(self)@[key@],
    {
        proof {
            use_type_invariant(&*self);
            lemma_entries_map(self.entries@);
        }
        let i: usize = self.find(key);
        if i < self.entries.len() {
            let mut entries: Vec<(String, V)> = Vec::new();
            std::mem::swap(&mut entries, &mut self.entries);
            proof {
                lemma_entries_remove(entries@, i as int);
            }
            let e: (String, V) = entries.remove(i);
            self.entries = entries;
            Some(e.1)
        } else {
            proof {
                assert(self@.remove(key@) =~= self@);
            }
            None
        }
    }

    /// Gives the key a value, in place of the one it had.
    pub fn insert(&mut self, key: String, value: V)
        ensures
            final(self)@ == old(self)@.insert(key@, value@),
            final(self)@.dom().finite(),
            final(self)@.dom().len() <= usize::MAX,
    {
        let ghost before = self@;
        let _gone: Option<V> = self.remove(key.as_str());
        proof {
            use_type_invariant(&*self);
            lemma_entries_map(self.entries@);
        }
        let ghost k = key@;
        let ghost v = value@;
        let mut entries: Vec<(String, V)> = Vec::new();
        std::mem::swap(&mut entries, &mut self.entries);
        let ghost rest = entries@;
        entries.push((key, value));
        proof {
            assert(entries@.drop_last() =~= rest);
            assert(entries_map(entries@) == entries_map(rest).insert(k, v));
            assert(before.remove(k).insert(k, v) =~= before.insert(k, v));
            assert forall|i: int, j: int| 0 <= i < j < entries@.len() implies (
            #[trigger] entries@[i]).0@ != (#[trigger] entries@[j]).0@ by {
                assert(entries@[i] == rest[i]);
                if j < rest.len() {
                    assert(entries@[j] == rest[j]);
                }
            }
            lemma_entries_map(entries@);
            assert(entries@.len() == entries.len());
        }
        self.entries = entries;
    }

    /// Keeps the entries for which `keep` says so, as `p` describes it.
    pub(crate) fn retain<F: Fn(&String, &V) -> bool>(
        &mut self,
        keep: F,
        Ghost(p): Ghost<spec_fn(Seq<char>, V::V) -> bool>,
    )
        requires
            forall|k: &String, v: &V| #[trigger] call_requires(keep, (k, v)),
            forall|k: &String, v: &V, b: bool| #[trigger]
                call_ensures(keep, (k, v), b) ==> b == p(k@, v@),
        ensures
            final(self)@ == kept(old(self)@, p),
    {
        proof {
            use_type_invariant(&*self);
        }
        let mut entries: Vec<(String, V)> = Vec::new();
        std::mem::swap(&mut entries, &mut self.entries);
        let mut out: Vec<(String, V)> = Vec::new();
        let ghost whole = kept(entries_map(entries@), p);
        proof {
            assert(kept(entries_map(entries@), p).union_prefer_right(entries_map(out@)) =~= whole);
        }
        while entries.len() > 0
            invariant
                distinct_keys(entries@),
                distinct_keys(out@),
                forall|i: int|
                    0 <= i < entries@.len() ==> !entries_map(out@).dom().contains(
                        (#[trigger] entries@[i]).0@,
                    ),
                kept(entries_map(entries@), p).union_prefer_right(entries_map(out@)) == whole,
                forall|k: &String, v: &V| #[trigger] call_requires(keep, (k, v)),
                forall|k: &String, v: &V, b: bool| #[trigger]
                    call_ensures(keep, (k, v), b) ==> b == p(k@, v@),
            decreases entries@.len(),
        {
            let ghost held = entries@;
            let ghost done = out@;
            match entries.pop() {
                Some(e) => {
                    proof {
                        lemma_entries_map(held);
                        lemma_entries_map(held.drop_last());
                        assert(entries@ =~= held.drop_last());
                        assert(held.last() == e);
                        assert forall|i: int| 0 <= i < entries@.len() implies (
                        #[trigger] entries@[i]).0@ != e.0@ by {
                            assert(entries@[i] == held[i]);
                            assert(held[held.len() - 1] == e);
                        }
                        assert(!entries_map(entries@).dom().contains(e.0@)) by {
                            if entries_map(entries@).dom().contains(e.0@) {
                                let i = choose|i: int|
                                    0 <= i < entries@.len() && (#[trigger] entries@[i]).0@ == e.0@;
                            }
                        }
                    }
                    if keep(&e.0, &e.1) {
                        let ghost pair = e;
                        out.push(e);
                        proof {
                            lemma_entries_map(done);
                            assert(out@.drop_last() =~= done);
                            assert(entries_map(out@) == entries_map(done).insert(
                                pair.0@,
                                pair.1@,
                            ));
                            assert forall|i: int, j: int| 0 <= i < j < out@.len() implies (
                            #[trigger] out@[i]).0@ != (#[trigger] out@[j]).0@ by {
                                assert(out@[i] == done[i]);
                                if j < done.len() {
                                    assert(out@[j] == done[j]);
                                } else {
                                    assert(!entries_map(done).dom().contains(
                                        held[held.len() - 1].0@,
                                    ));
                                }
                            }
                            assert forall|i: int|
                                0 <= i < entries@.len() implies !entries_map(
                                out@,
                            ).dom().contains((#[trigger] entries@[i]).0@) by {
                                assert(entries@[i] == held[i]);
                            }
                            assert(!entries_map(done).dom().contains(held[held.len() - 1].0@));
                            assert(kept(entries_map(entries@), p).union_prefer_right(
                                entries_map(out@),
                            ) =~= kept(entries_map(held), p).union_prefer_right(
                                entries_map(done),
                            ));
                        }
                    } else {
                        proof {
                            assert forall|i: int|
                                0 <= i < entries@.len() implies !entries_map(
                                out@,
                            ).dom().contains((#[trigger] entries@[i]).0@) by {
                                assert(entries@[i] == held[i]);
                            }
                            assert(kept(entries_map(entries@), p) =~= kept(entries_map(held), p));
                        }
                    }
                },
                None => {},
            }
        }
        proof {
            assert(kept(entries_map(entries@), p).union_prefer_right(entries_map(out@))
                =~= entries_map(out@));
        }
        self.entries = out;
    }

    /// The key at a place in the list of keys.
    pub fn key_at(&self, i: usize) -> (r: &String)
        requires
            i < self.key_list().len(),
        ensures
            r@ == self.key_list()[i as int],
    {
        &self.entries[i].0
    }

    /// The value at a place in the list of keys.
    pub fn value_at(&self, i: usize) -> (r: &V)
        requires
            i < self.key_list().len(),
        ensures
            self@.dom().contains(self.key_list()[i as int]),
            r@ == self@[self.key_list()[i as int]],
    {
        proof {
            use_type_invariant(self);
            lemma_entries_map(self.entries@);
            assert(self.entries@[i as int].0@ == self.key_list()[i as int]);
        }
        &self.entries[i].1
    }
}

impl<V: Duplicate> Duplicate for Table<V> {
    fn duplicate(&self) -> (r: Self) {
        let mut out: Vec<(String, V)> = Vec::new();
        proof {
            use_type_invariant(self);
        }
        let mut i: usize = 0;
        while i < self.entries.len()
            invariant
                i <= self.entries@.len(),
                distinct_keys(self.entries@),
                out@.len() == i,
                forall|j: int|
                    0 <= j < i ==> (#[trigger] out@[j]).0@ == self.entries@[j].0@,
                entries_map(out@) == entries_map(self.entries@.take(i as int)),
            decreases self.entries@.len() - i,
        {
            let ghost done = out@;
            out.push((self.entries[i].0.clone(), self.entries[i].1.duplicate()));
            proof {
                assert(out@.drop_last() =~= done);
                assert(self.entries@.take(i + 1).drop_last() =~= self.entries@.take(i as int));
            }
            i = i + 1;
        }
        proof {
            assert(self.entries@.take(i as int) =~= self.entries@);
            assert forall|a: int, b: int| 0 <= a < b < out@.len() implies (#[trigger] out@[a]).0@
                != (#[trigger] out@[b]).0@ by {
                assert(self.entries@[a].0@ != self.entries@[b].0@);
            }
        }
        Table { entries: out }
    }
}

} // verus!
