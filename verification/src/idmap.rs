//! A map from identifiers to values that can be walked by position.
use vstd::prelude::*;

verus! {

/// A map keyed by identifier. Every identifier occurs at most once. They are walked in the
/// order in which they were last set.
pub struct IdMap<V> {
    pairs: Vec<(String, V)>,
}

/// A walking order with one identifier left out.
pub open spec fn without(order: Seq<Seq<char>>, id: Seq<char>) -> Seq<Seq<char>> {
    order.filter(|k: Seq<char>| k != id)
}

/// To leave out an identifier that does not occur changes nothing.
pub proof fn lemma_without_absent(order: Seq<Seq<char>>, id: Seq<char>)
    requires
        forall|j: int| 0 <= j < order.len() ==> #[trigger] order[j] != id,
    ensures
        without(order, id) == order,
    decreases order.len(),
{
    reveal(Seq::filter);
    if order.len() > 0 {
        let init = order.drop_last();
        assert forall|j: int| 0 <= j < init.len() implies #[trigger] init[j] != id by {
            assert(init[j] == order[j]);
        }
        lemma_without_absent(init, id);
        assert(order[order.len() - 1] != id);
        assert(init.push(order.last()) =~= order);
    }
}

/// To leave out an identifier that occurs once closes up its place.
proof fn lemma_without_once(order: Seq<Seq<char>>, id: Seq<char>, i: int)
    requires
        0 <= i < order.len(),
        order[i] == id,
        forall|j: int| 0 <= j < order.len() && j != i ==> #[trigger] order[j] != id,
    ensures
        without(order, id) == order.remove(i),
    decreases order.len(),
{
    reveal(Seq::filter);
    let init = order.drop_last();
    if i == order.len() - 1 {
        lemma_without_absent(init, id);
        assert(order.remove(i) =~= init);
    } else {
        assert forall|j: int| 0 <= j < init.len() && j != i implies #[trigger] init[j] != id by {
            assert(init[j] == order[j]);
        }
        lemma_without_once(init, id, i);
        assert(order[order.len() - 1] != id);
        assert(init.remove(i).push(order.last()) =~= order.remove(i));
    }
}

/// The map that a list of pairs stands for.
pub open spec fn pairs_map<V>(pairs: Seq<(String, V)>) -> Map<Seq<char>, V>
    decreases pairs.len(),
{
    if pairs.len() == 0 {
        Map::empty()
    } else {
        pairs_map(pairs.drop_last()).insert(pairs.last().0@, pairs.last().1)
    }
}

/// No identifier occurs twice.
pub open spec fn distinct_ids<V>(pairs: Seq<(String, V)>) -> bool {
    forall|i: int, j: int|
        0 <= i < j < pairs.len() ==> (#[trigger] pairs[i]).0@ != (#[trigger] pairs[j]).0@
}

/// What `pairs_map` holds, by position.
proof fn lemma_pairs_map<V>(pairs: Seq<(String, V)>)
    requires
        distinct_ids(pairs),
    ensures
        forall|i: int|
            0 <= i < pairs.len() ==> pairs_map(pairs).contains_key((#[trigger] pairs[i]).0@)
                && pairs_map(pairs)[pairs[i].0@] == pairs[i].1,
        forall|k: Seq<char>| #[trigger]
            pairs_map(pairs).contains_key(k) ==> exists|i: int|
                0 <= i < pairs.len() && (#[trigger] pairs[i]).0@ == k,
    decreases pairs.len(),
{
    if pairs.len() > 0 {
        let init = pairs.drop_last();
        lemma_pairs_map(init);
        assert forall|i: int| 0 <= i < pairs.len() implies pairs_map(pairs).contains_key(
            (#[trigger] pairs[i]).0@,
        ) && pairs_map(pairs)[pairs[i].0@] == pairs[i].1 by {
            if i < pairs.len() - 1 {
                assert(init[i] == pairs[i]);
                assert(pairs[i].0@ != pairs[pairs.len() - 1].0@);
            }
        }
        assert forall|k: Seq<char>| #[trigger] pairs_map(pairs).contains_key(k) implies exists|i: int|
            0 <= i < pairs.len() && (#[trigger] pairs[i]).0@ == k by {
            if k == pairs.last().0@ {
                assert(pairs[pairs.len() - 1].0@ == k);
            } else {
                assert(pairs_map(init).contains_key(k));
                let i = choose|i: int| 0 <= i < init.len() && (#[trigger] init[i]).0@ == k;
                assert(pairs[i].0@ == k);
            }
        }
    }
}

/// The map has as many identifiers as pairs.
proof fn lemma_pairs_map_len<V>(pairs: Seq<(String, V)>)
    requires
        distinct_ids(pairs),
    ensures
        pairs_map(pairs).dom().finite(),
        pairs_map(pairs).len() == pairs.len(),
    decreases pairs.len(),
{
    if pairs.len() > 0 {
        let init = pairs.drop_last();
        lemma_pairs_map_len(init);
        lemma_pairs_map(init);
        assert(!pairs_map(init).contains_key(pairs.last().0@)) by {
            if pairs_map(init).contains_key(pairs.last().0@) {
                let i = choose|i: int|
                    0 <= i < init.len() && (#[trigger] init[i]).0@ == pairs.last().0@;
                assert(pairs[i].0@ != pairs[pairs.len() - 1].0@);
            }
        }
        assert(pairs_map(pairs).dom() =~= pairs_map(init).dom().insert(pairs.last().0@));
    }
}

impl<V> View for IdMap<V> {
    type V = Map<Seq<char>, V>;

    closed spec fn view(&self) -> Map<Seq<char>, V> {
        pairs_map(self.pairs@)
    }
}

impl<V> IdMap<V> {
    /// The identifiers are distinct.
    pub closed spec fn wf(&self) -> bool {
        distinct_ids(self.pairs@)
    }

    /// The identifiers in walking order.
    pub closed spec fn order(&self) -> Seq<Seq<char>> {
        self.pairs@.map_values(|p: (String, V)| p.0@)
    }

    /// The walking order lists each identifier of the map exactly once.
    pub proof fn lemma_order(&self)
        requires
            self.wf(),
        ensures
            self.order().no_duplicates(),
            self@.dom().finite(),
            self.order().len() == self@.len(),
            forall|i: int|
                0 <= i < self.order().len() ==> self@.contains_key(#[trigger] self.order()[i]),
            forall|k: Seq<char>| #[trigger] self@.contains_key(k) ==> self.order().contains(k),
    {
        lemma_pairs_map(self.pairs@);
        lemma_pairs_map_len(self.pairs@);
        assert forall|k: Seq<char>| #[trigger] self@.contains_key(k) implies self.order().contains(
            k,
        ) by {
            let i = choose|i: int| 0 <= i < self.pairs@.len() && (#[trigger] self.pairs@[i]).0@ == k;
            assert(self.order()[i] == k);
        }
    }

    /// The empty map.
    pub fn new() -> (r: Self)
        ensures
            r.wf(),
            r@ == Map::<Seq<char>, V>::empty(),
            r.order() == Seq::<Seq<char>>::empty(),
    {
        let r = IdMap { pairs: Vec::new() };
        assert(r.order() =~= Seq::<Seq<char>>::empty());
        r
    }

    /// How many identifiers the map holds.
    pub fn len(&self) -> (r: usize)
        requires
            self.wf(),
        ensures
            r == self@.len(),
            r == self.order().len(),
    {
        proof {
            lemma_pairs_map_len(self.pairs@);
        }
        self.pairs.len()
    }

    /// Where the identifier stands.
    fn position(&self, id: &String) -> (r: Option<usize>)
        requires
            self.wf(),
        ensures
            match r {
                Some(i) => i < self.pairs@.len() && self.pairs@[i as int].0@ == id@
                    && self@.contains_key(id@) && self@[id@] == self.pairs@[i as int].1,
                None => !self@.contains_key(id@),
            },
    {
        let mut i: usize = 0;
        while i < self.pairs.len()
            invariant
                self.wf(),
                i <= self.pairs@.len(),
                forall|j: int| 0 <= j < i ==> (#[trigger] self.pairs@[j]).0@ != id@,
            decreases self.pairs@.len() - i,
        {
            if self.pairs[i].0 == *id {
                proof {
                    lemma_pairs_map(self.pairs@);
                }
                return Some(i);
            }
            i = i + 1;
        }
        proof {
            lemma_pairs_map(self.pairs@);
        }
        None
    }

    /// The value of an identifier.
    pub fn get(&self, id: &String) -> (r: Option<&V>)
        requires
            self.wf(),
        ensures
            match r {
                Some(v) => self@.contains_key(id@) && *v == self@[id@],
                None => !self@.contains_key(id@),
            },
    {
        match self.position(id) {
            Some(i) => Some(&self.pairs[i].1),
            None => None,
        }
    }

    /// Whether the map holds the identifier.
    pub fn contains_key(&self, id: &String) -> (r: bool)
        requires
            self.wf(),
        ensures
            r == self@.contains_key(id@),
    {
        self.position(id).is_some()
    }

    /// The identifier and the value at a position of the walking order.
    pub fn pair_at(&self, i: usize) -> (r: (&String, &V))
        requires
            self.wf(),
            i < self.order().len(),
        ensures
            r.0@ == self.order()[i as int],
            self@.contains_key(r.0@),
            *r.1 == self@[r.0@],
    {
        proof {
            lemma_pairs_map(self.pairs@);
        }
        let pair = &self.pairs[i];
        assert(pair == self.pairs@[i as int]);
        (&pair.0, &pair.1)
    }

    /// Takes the identifier out; returns the value that it had.
    pub fn remove(&mut self, id: &String) -> (r: Option<V>)
        requires
            old(self).wf(),
        ensures
            final(self).wf(),
            final(self)@ == old(self)@.remove(id@),
            final(self).order() == without(old(self).order(), id@),
            match r {
                Some(v) => old(self)@.contains_key(id@) && v == old(self)@[id@],
                None => !old(self)@.contains_key(id@),
            },
    {
        let ghost before = self.pairs@;
        let ghost order = self.order();
        match self.position(id) {
            Some(i) => {
                proof {
                    assert forall|j: int| 0 <= j < order.len() && j != i implies #[trigger] order[j]
                        != id@ by {
                        if j < i {
                            assert(before[j].0@ != before[i as int].0@);
                        } else {
                            assert(before[i as int].0@ != before[j].0@);
                        }
                    }
                    lemma_without_once(order, id@, i as int);
                }
                let (_, v) = self.pairs.remove(i);
                proof {
                    let after = self.pairs@;
                    assert(after =~= before.remove(i as int));
                    assert(self.order() =~= order.remove(i as int));
                    assert forall|a: int, b: int| 0 <= a < b < after.len() implies (
                    #[trigger] after[a]).0@ != (#[trigger] after[b]).0@ by {
                        let a0 = if a < i { a } else { a + 1 };
                        let b0 = if b < i { b } else { b + 1 };
                        assert(before[a0].0@ != before[b0].0@);
                    }
                    lemma_pairs_map(before);
                    lemma_pairs_map(after);
                    assert(pairs_map(after) =~= pairs_map(before).remove(id@)) by {
                        assert forall|k: Seq<char>| pairs_map(before).remove(id@).contains_key(
                            k,
                        ) implies pairs_map(after).contains_key(k) && pairs_map(after)[k]
                            == pairs_map(before)[k] by {
                            let j = choose|j: int|
                                0 <= j < before.len() && (#[trigger] before[j]).0@ == k;
                            let j1 = if j < i { j } else { j - 1 };
                            assert(after[j1] == before[j]);
                        }
                        assert forall|k: Seq<char>| pairs_map(after).contains_key(
                            k,
                        ) implies pairs_map(before).remove(id@).contains_key(k) by {
                            let j = choose|j: int|
                                0 <= j < after.len() && (#[trigger] after[j]).0@ == k;
                            let j0 = if j < i { j } else { j + 1 };
                            assert(before[j0].0@ == k);
                            if j0 < i {
                                assert(before[j0].0@ != before[i as int].0@);
                            } else {
                                assert(before[i as int].0@ != before[j0].0@);
                            }
                        }
                    }
                }
                Some(v)
            },
            None => {
                proof {
                    assert(self@ =~= self@.remove(id@));
                    lemma_pairs_map(before);
                    assert forall|j: int| 0 <= j < order.len() implies #[trigger] order[j] != id@ by {
                        assert(self@.contains_key(before[j].0@));
                    }
                    lemma_without_absent(order, id@);
                }
                None
            },
        }
    }

    /// Sets the value of an identifier, which is walked last from then on.
    pub fn insert(&mut self, id: String, value: V)
        requires
            old(self).wf(),
        ensures
            final(self).wf(),
            final(self)@ == old(self)@.insert(id@, value),
            final(self).order() == without(old(self).order(), id@).push(id@),
    {
        let ghost start = self@;
        let ghost order = self.order();
        let _ = self.remove(&id);
        proof {
            lemma_pairs_map(self.pairs@);
        }
        let ghost before = self.pairs@;
        self.pairs.push((id, value));
        proof {
            let after = self.pairs@;
            assert(after.drop_last() =~= before);
            assert(after.last() == (id, value));
            assert forall|a: int, b: int| 0 <= a < b < after.len() implies (#[trigger] after[a]).0@
                != (#[trigger] after[b]).0@ by {
                if b == after.len() - 1 {
                    assert(before[a] == after[a]);
                    assert(pairs_map(before).contains_key(before[a].0@));
                } else {
                    assert(before[a].0@ != before[b].0@);
                }
            }
            assert(start.remove(id@).insert(id@, value) =~= start.insert(id@, value));
            assert(self.order() =~= without(order, id@).push(id@));
        }
    }
}

/// A value that was set is found under exactly its identifier; under every other identifier
/// the map holds what it held before. `call_ensures(f, args, r)` is a call of `f` on `args`
/// that returned `r`.
pub proof fn law_set_value_is_found<V>(
    m: &mut IdMap<V>,
    id: String,
    value: V,
    asked: &String,
    before: Option<&V>,
    after: Option<&V>,
)
    requires
        call_ensures(IdMap::<V>::insert, (m, id, value), ()),
        call_ensures(IdMap::<V>::get, (&*old(m), asked), before),
        call_ensures(IdMap::<V>::get, (&*final(m), asked), after),
    ensures
        asked@ == id@ ==> after is Some && *after->0 == value,
        asked@ != id@ ==> after is Some == before is Some,
        asked@ != id@ && before is Some ==> *after->0 == *before->0,
{
}

/// An identifier that was taken out is found no more, and its value was handed back; under
/// every other identifier the map holds what it held before.
pub proof fn law_removed_identifier_is_not_found<V>(
    m: &mut IdMap<V>,
    id: &String,
    taken: Option<V>,
    asked: &String,
    before: Option<&V>,
    after: Option<&V>,
)
    requires
        call_ensures(IdMap::<V>::remove, (m, id), taken),
        call_ensures(IdMap::<V>::get, (&*old(m), asked), before),
        call_ensures(IdMap::<V>::get, (&*final(m), asked), after),
    ensures
        asked@ == id@ ==> after is None && taken is Some == before is Some,
        asked@ == id@ && before is Some ==> taken->0 == *before->0,
        asked@ != id@ ==> after is Some == before is Some,
        asked@ != id@ && before is Some ==> *after->0 == *before->0,
{
}

/// A new map holds nothing, and a map holds an identifier exactly where it has a value.
pub proof fn law_map_holds_what_was_set<V>(
    fresh: IdMap<V>,
    m: &IdMap<V>,
    asked: &String,
    none: Option<&V>,
    held: bool,
    value: Option<&V>,
)
    requires
        call_ensures(IdMap::<V>::new, (), fresh),
        call_ensures(IdMap::<V>::get, (&fresh, asked), none),
        call_ensures(IdMap::<V>::contains_key, (m, asked), held),
        call_ensures(IdMap::<V>::get, (m, asked), value),
    ensures
        none is None,
        held <==> value is Some,
{
}

} // verus!
