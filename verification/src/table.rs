//! A table from names to values in which each name occurs once: the plugin's
//! string-keyed maps and sets.

use vstd::prelude::*;

verus! {

/// The map a list of `(name, value)` pairs builds when they are inserted one
/// after another, a later pair replacing an earlier one of the same name (as
/// `HashMap::from_iter` does).
pub open spec fn pairs_map<V>(pairs: Seq<(String, V)>) -> Map<Seq<char>, V>
    decreases pairs.len(),
{
    if pairs.len() == 0 {
        Map::empty()
    } else {
        pairs_map(pairs.drop_last()).insert(pairs.last().0@, pairs.last().1)
    }
}

/// No name occurs twice among `pairs`.
pub open spec fn distinct_names<V>(pairs: Seq<(String, V)>) -> bool {
    forall|i: int, j: int|
        0 <= i < pairs.len() && 0 <= j < pairs.len() && i != j ==> (#[trigger] pairs[i]).0@
            != (#[trigger] pairs[j]).0@
}

/// A name is in the map exactly when some pair carries it, and then the map
/// holds the value of the last such pair.
pub proof fn lemma_pairs_map<V>(pairs: Seq<(String, V)>, k: Seq<char>)
    ensures
        pairs_map(pairs).contains_key(k) <==> exists|i: int| 0 <= i < pairs.len() && (#[trigger] pairs[i]).0@ == k,
        pairs_map(pairs).contains_key(k) ==> exists|i: int|
            0 <= i < pairs.len() && (#[trigger] pairs[i]).0@ == k && pairs_map(pairs)[k] == pairs[i].1
                && forall|j: int| i < j < pairs.len() ==> (#[trigger] pairs[j]).0@ != k,
    decreases pairs.len(),
{
    if pairs.len() > 0 {
        let init = pairs.drop_last();
        lemma_pairs_map(init, k);
        let n = pairs.len() - 1;
        if pairs[n].0@ == k {
            assert(pairs[n].0@ == k);
        } else {
            if exists|i: int| 0 <= i < init.len() && (#[trigger] init[i]).0@ == k {
                let i = choose|i: int| 0 <= i < init.len() && (#[trigger] init[i]).0@ == k;
                assert(pairs[i] == init[i]);
            }
            if exists|i: int| 0 <= i < pairs.len() && (#[trigger] pairs[i]).0@ == k {
                let i = choose|i: int| 0 <= i < pairs.len() && (#[trigger] pairs[i]).0@ == k;
                assert(init[i] == pairs[i]);
            }
            if pairs_map(pairs).contains_key(k) {
                let i = choose|i: int|
                    0 <= i < init.len() && (#[trigger] init[i]).0@ == k && pairs_map(init)[k] == init[i].1
                        && forall|j: int| i < j < init.len() ==> (#[trigger] init[j]).0@ != k;
                assert(pairs[i] == init[i]);
                assert forall|j: int| i < j < pairs.len() implies (#[trigger] pairs[j]).0@ != k by {
                    if j < n {
                        assert(pairs[j] == init[j]);
                    }
                }
            }
        }
    }
}

/// With distinct names, the map holds for each pair's name that pair's value.
pub proof fn lemma_distinct_pairs_map<V>(pairs: Seq<(String, V)>, i: int)
    requires
        distinct_names(pairs),
        0 <= i < pairs.len(),
    ensures
        pairs_map(pairs).contains_key(pairs[i].0@),
        pairs_map(pairs)[pairs[i].0@] == pairs[i].1,
{
    lemma_pairs_map(pairs, pairs[i].0@);
    let j = choose|j: int|
        0 <= j < pairs.len() && (#[trigger] pairs[j]).0@ == pairs[i].0@ && pairs_map(pairs)[pairs[i].0@]
            == pairs[j].1 && forall|l: int| j < l < pairs.len() ==> (#[trigger] pairs[l]).0@ != pairs[i].0@;
    assert(j == i);
}

/// The value for `model` in a per-model table: the model's own entry, else
/// the entry named `default`, else none.
pub open spec fn model_or_default<V>(m: Map<Seq<char>, V>, model: Seq<char>) -> Option<V> {
    if m.contains_key(model) {
        Some(m[model])
    } else if m.contains_key("default"@) {
        Some(m["default"@])
    } else {
        None
    }
}

/// A table from names to values, each name at most once, kept in the order
/// in which names first arrived.
pub struct NameTable<V> {
    entries: Vec<(String, V)>,
}

impl<V> NameTable<V> {
    /// The names and values the table holds.
    pub closed spec fn view(&self) -> Map<Seq<char>, V> {
        pairs_map(self.entries@)
    }

    /// The table's internal invariant: no name occurs twice.
    pub closed spec fn wf(&self) -> bool {
        distinct_names(self.entries@)
    }

    /// The entries in the order in which their names first arrived.
    pub closed spec fn entry_seq(&self) -> Seq<(String, V)> {
        self.entries@
    }

    /// The entries describe the table: distinct names, and the map they build
    /// is the table.
    pub proof fn lemma_entries(&self)
        requires
            self.wf(),
        ensures
            distinct_names(self.entry_seq()),
            pairs_map(self.entry_seq()) == self.view(),
    {
    }

    /// An empty table.
    pub fn new() -> (t: Self)
        ensures
            t.wf(),
            t.view() == Map::<Seq<char>, V>::empty(),
    {
        NameTable { entries: Vec::new() }
    }

    /// The number of names in the table.
    pub fn len(&self) -> (n: usize)
        requires
            self.wf(),
        ensures
            n == self.view().len(),
    {
        proof {
            self.lemma_len();
        }
        self.entries.len()
    }

    proof fn lemma_len(&self)
        requires
            self.wf(),
        ensures
            self.view().len() == self.entries@.len(),
            self.view().dom().finite(),
    {
        lemma_distinct_len(self.entries@);
    }

    /// The index of the entry named `name`, if any.
    fn position(&self, name: &str) -> (r: Option<usize>)
        requires
            self.wf(),
        ensures
            match r {
                Some(i) => i < self.entries@.len() && self.entries@[i as int].0@ == name@,
                None => forall|i: int| 0 <= i < self.entries@.len() ==> (#[trigger] self.entries@[i]).0@ != name@,
            },
    {
        let mut i: usize = 0;
        while i < self.entries.len()
            invariant
                i <= self.entries@.len(),
                forall|j: int| 0 <= j < i ==> (#[trigger] self.entries@[j]).0@ != name@,
            decreases self.entries.len() - i,
        {
            if crate::text::same_text(self.entries[i].0.as_str(), name) {
                return Some(i);
            }
            i += 1;
        }
        None
    }

    /// The value stored under `name`.
    pub fn get(&self, name: &str) -> (r: Option<&V>)
        requires
            self.wf(),
        ensures
            match r {
                Some(v) => self.view().contains_key(name@) && self.view()[name@] == *v,
                None => !self.view().contains_key(name@),
            },
    {
        proof {
            lemma_pairs_map(self.entries@, name@);
        }
        match self.position(name) {
            Some(i) => {
                proof {
                    lemma_distinct_pairs_map(self.entries@, i as int);
                }
                Some(&self.entries[i].1)
            },
            None => None,
        }
    }

    /// Whether `name` is in the table.
    pub fn contains(&self, name: &str) -> (r: bool)
        requires
            self.wf(),
        ensures
            r == self.view().contains_key(name@),
    {
        self.get(name).is_some()
    }

    /// Stores `value` under `name`, replacing what was stored there.
    pub fn insert(&mut self, name: String, value: V)
        requires
            old(self).wf(),
        ensures
            final(self).wf(),
            final(self).view() == old(self).view().insert(name@, value),
    {
        let ghost k = name@;
        let ghost before = self.entries@;
        proof {
            lemma_pairs_map(before, k);
        }
        match self.position(name.as_str()) {
            Some(i) => {
                self.entries.set(i, (name, value));
                proof {
                    let after = self.entries@;
                    assert(distinct_names(after)) by {
                        assert forall|a: int, b: int|
                            0 <= a < after.len() && 0 <= b < after.len() && a != b
                            implies (#[trigger] after[a]).0@ != (#[trigger] after[b]).0@ by {
                            assert(before[a].0@ == after[a].0@);
                            assert(before[b].0@ == after[b].0@);
                        }
                    }
                    assert forall|q: Seq<char>| #![auto]
                        pairs_map(after).contains_key(q) == pairs_map(before).insert(k, value).contains_key(q) by {
                        lemma_pairs_map(after, q);
                        lemma_pairs_map(before, q);
                        if exists|j: int| 0 <= j < before.len() && (#[trigger] before[j]).0@ == q {
                            let j = choose|j: int| 0 <= j < before.len() && (#[trigger] before[j]).0@ == q;
                            assert(after[j].0@ == q);
                        }
                        if exists|j: int| 0 <= j < after.len() && (#[trigger] after[j]).0@ == q {
                            let j = choose|j: int| 0 <= j < after.len() && (#[trigger] after[j]).0@ == q;
                            assert(before[j].0@ == q);
                        }
                    }
                    assert forall|q: Seq<char>| #[trigger] pairs_map(after).contains_key(q) implies
                        pairs_map(after)[q] == pairs_map(before).insert(k, value)[q] by {
                        lemma_pairs_map(after, q);
                        let j = choose|j: int| 0 <= j < after.len() && (#[trigger] after[j]).0@ == q;
                        lemma_distinct_pairs_map(after, j);
                        if j != i {
                            lemma_distinct_pairs_map(before, j);
                            assert(before[j] == after[j]);
                        }
                    }
                    assert(pairs_map(after) =~= pairs_map(before).insert(k, value));
                }
            },
            None => {
                self.entries.push((name, value));
                proof {
                    let after = self.entries@;
                    assert(after.drop_last() =~= before);
                    assert(distinct_names(after)) by {
                        assert forall|a: int, b: int|
                            0 <= a < after.len() && 0 <= b < after.len() && a != b
                            implies (#[trigger] after[a]).0@ != (#[trigger] after[b]).0@ by {
                            if a < before.len() {
                                assert(after[a] == before[a]);
                            }
                            if b < before.len() {
                                assert(after[b] == before[b]);
                            }
                        }
                    }
                }
            },
        }
    }

    /// Gives up the entries, each name once, in the order in which names
    /// first arrived.
    pub fn into_entries(self) -> (r: Vec<(String, V)>)
        ensures
            r@ == self.entry_seq(),
    {
        self.entries
    }

    /// The entries, each name once, in the order in which names first arrived.
    pub fn entries(&self) -> (r: &Vec<(String, V)>)
        ensures
            r@ == self.entry_seq(),
    {
        &self.entries
    }
}

impl<V: Copy> NameTable<V> {
    /// The value for `model`, falling back to the entry named `default`.
    pub fn lookup_model(&self, model: &str) -> (r: Option<V>)
        requires
            self.wf(),
        ensures
            r == model_or_default(self.view(), model@),
    {
        match self.get(model) {
            Some(v) => Some(*v),
            None => match self.get("default") {
                Some(v) => Some(*v),
                None => None,
            },
        }
    }
}

/// Distinct names give a map with one key per pair.
proof fn lemma_distinct_len<V>(pairs: Seq<(String, V)>)
    requires
        distinct_names(pairs),
    ensures
        pairs_map(pairs).len() == pairs.len(),
        pairs_map(pairs).dom().finite(),
    decreases pairs.len(),
{
    if pairs.len() > 0 {
        let init = pairs.drop_last();
        assert(distinct_names(init)) by {
            assert forall|a: int, b: int|
                0 <= a < init.len() && 0 <= b < init.len() && a != b
                implies (#[trigger] init[a]).0@ != (#[trigger] init[b]).0@ by {
                assert(init[a] == pairs[a]);
                assert(init[b] == pairs[b]);
            }
        }
        lemma_distinct_len(init);
        lemma_pairs_map(init, pairs.last().0@);
        if pairs_map(init).contains_key(pairs.last().0@) {
            let i = choose|i: int| 0 <= i < init.len() && (#[trigger] init[i]).0@ == pairs.last().0@;
            assert(pairs[i] == init[i]);
        }
    }
}

} // verus!
