//! The maps that the lookup reads: the fixed tables of built-in operators and
//! the registry of operators added at run time.

use vstd::prelude::*;

use crate::op::operators::CommonOperator;

verus! {

/// The value under the first entry whose key is `key`, if any.
pub open spec fn first_match<T>(entries: Seq<(&'static str, T)>, key: Seq<char>) -> Option<T>
    decreases entries.len(),
{
    if entries.len() == 0 {
        None
    } else if entries[0].0@ == key {
        Some(entries[0].1)
    } else {
        first_match(entries.drop_first(), key)
    }
}

/// The first entry filed under a key is what a lookup of that key finds:
/// where entry `i` has the key and no earlier entry has it, the lookup gives
/// entry `i`'s value.
pub proof fn lemma_first_match_finds<T>(entries: Seq<(&'static str, T)>, i: int)
    requires
        0 <= i < entries.len(),
        forall|j: int| 0 <= j < i ==> entries[j].0@ != entries[i].0@,
    ensures
        first_match(entries, entries[i].0@) == Some(entries[i].1),
    decreases i,
{
    if i > 0 {
        let rest = entries.drop_first();
        assert forall|j: int| 0 <= j < i - 1 implies #[trigger] rest[j].0@ != rest[i - 1].0@ by {
            assert(rest[j] == entries[j + 1]);
        }
        assert(entries[0].0@ != entries[i].0@);
        lemma_first_match_finds(rest, i - 1);
    }
}

/// A lookup finds something only under a key that some entry has, and then
/// the value of such an entry; a key that no entry has finds nothing.
pub proof fn lemma_first_match_sound<T>(entries: Seq<(&'static str, T)>, key: Seq<char>)
    ensures
        (forall|j: int| 0 <= j < entries.len() ==> entries[j].0@ != key) ==> first_match(
            entries,
            key,
        ) is None,
        first_match(entries, key) matches Some(v) ==> exists|j: int|
            0 <= j < entries.len() && entries[j].0@ == key && entries[j].1 == v,
    decreases entries.len(),
{
    if entries.len() > 0 && entries[0].0@ != key {
        let rest = entries.drop_first();
        lemma_first_match_sound(rest, key);
        if let Some(v) = first_match(rest, key) {
            let j = choose|j: int| 0 <= j < rest.len() && rest[j].0@ == key && rest[j].1 == v;
            assert(entries[j + 1] == rest[j]);
        }
        if forall|j: int| 0 <= j < entries.len() ==> entries[j].0@ != key {
            assert forall|j: int| 0 <= j < rest.len() implies rest[j].0@ != key by {
                assert(rest[j] == entries[j + 1]);
            }
        }
    }
}

/// A fixed table of operators, by symbol. It is written once, in the
/// order of its entries, and only read afterwards.
pub struct OperatorMap<T> {
    pub entries: Vec<(&'static str, T)>,
}

impl<T> OperatorMap<T> {
    /// The operator under `key`, if the table holds one.
    pub open spec fn spec_get(&self, key: Seq<char>) -> Option<T> {
        first_match(self.entries@, key)
    }

    /// A table with the given entries.
    pub fn from_entries(entries: Vec<(&'static str, T)>) -> (m: Self)
        ensures
            m.entries@ == entries@,
    {
        OperatorMap { entries }
    }

    /// The operator that the table holds under `key`, if any.
    pub fn get(&self, key: &str) -> (found: Option<&T>)
        ensures
            match found {
                Some(op) => self.spec_get(key@) == Some(*op),
                None => self.spec_get(key@) is None,
            },
    {
        let wanted = key.to_owned();
        let n = self.entries.len();
        let mut i: usize = 0;
        assert(self.entries@.skip(0) =~= self.entries@);
        while i < n
            invariant
                n == self.entries.len(),
                i <= n,
                wanted@ == key@,
                first_match(self.entries@, key@) == first_match(self.entries@.skip(i as int), key@),
            decreases n - i,
        {
            let ghost rest = self.entries@.skip(i as int);
            assert(rest.drop_first() =~= self.entries@.skip(i + 1));
            let candidate = self.entries[i].0.to_owned();
            if candidate == wanted {
                return Some(&self.entries[i].1);
            }
            i = i + 1;
        }
        None
    }

    /// The number of entries of the table.
    pub fn len(&self) -> (n: usize)
        ensures
            n == self.entries@.len(),
    {
        self.entries.len()
    }
}

impl<T: CommonOperator> OperatorMap<T> {
    /// Whether each operator of the table is filed under its own symbol.
    pub open spec fn files_by_symbol(&self) -> bool {
        forall|i: int|
            0 <= i < self.entries@.len() ==> #[trigger] self.entries@[i].0@
                == self.entries@[i].1.symbol_view()
    }

    /// In a table that files each operator under its symbol, the operator
    /// found under a key has that key as its symbol.
    pub proof fn lemma_found_symbol(&self, key: Seq<char>)
        requires
            self.files_by_symbol(),
        ensures
            self.spec_get(key) matches Some(op) ==> op.symbol_view() == key,
    {
        lemma_first_match_symbol(self.entries@, key);
    }
}

proof fn lemma_first_match_symbol<T: CommonOperator>(entries: Seq<(&'static str, T)>, key: Seq<char>)
    requires
        forall|i: int| 0 <= i < entries.len() ==> #[trigger] entries[i].0@ == entries[i].1.symbol_view(),
    ensures
        first_match(entries, key) matches Some(op) ==> op.symbol_view() == key,
    decreases entries.len(),
{
    if entries.len() > 0 && entries[0].0@ != key {
        let rest = entries.drop_first();
        assert forall|i: int| 0 <= i < rest.len() implies #[trigger] rest[i].0@
            == rest[i].1.symbol_view() by {
            assert(rest[i] == entries[i + 1]);
        }
        lemma_first_match_symbol(rest, key);
    }
}

/// Operators registered at run time, by name. Each name occurs once; adding
/// under a name already present replaces the operator under it.
pub struct DynamicOperatorMap<D> {
    entries: Vec<(String, D)>,
}

impl<D> DynamicOperatorMap<D> {
    #[verifier::type_invariant]
    spec fn names_distinct(self) -> bool {
        forall|i: int, j: int|
            0 <= i < j < self.entries.len() ==> self.entries[i].0@ != self.entries[j].0@
    }

    spec fn holds_name(entries: Seq<(String, D)>, key: Seq<char>) -> bool {
        exists|i: int| 0 <= i < entries.len() && entries[i].0@ == key
    }

    spec fn map_of(entries: Seq<(String, D)>) -> Map<Seq<char>, D> {
        Map::new(
            |k: Seq<char>| Self::holds_name(entries, k),
            |k: Seq<char>| entries[choose|i: int| 0 <= i < entries.len() && entries[i].0@ == k].1,
        )
    }

    proof fn lemma_map_at(entries: Seq<(String, D)>, i: int)
        requires
            forall|a: int, b: int| 0 <= a < b < entries.len() ==> entries[a].0@ != entries[b].0@,
            0 <= i < entries.len(),
        ensures
            Self::map_of(entries).contains_key(entries[i].0@),
            Self::map_of(entries)[entries[i].0@] == entries[i].1,
    {
        let k = entries[i].0@;
        assert(Self::holds_name(entries, k));
        let c = choose|c: int| 0 <= c < entries.len() && entries[c].0@ == k;
        assert(c == i) by {
            if c < i {
                assert(entries[c].0@ != entries[i].0@);
            } else if c > i {
                assert(entries[i].0@ != entries[c].0@);
            }
        }
    }

    /// An empty registry.
    pub fn new() -> (m: Self)
        ensures
            m@ == Map::<Seq<char>, D>::empty(),
    {
        let m = DynamicOperatorMap { entries: Vec::new() };
        assert(m@ =~= Map::<Seq<char>, D>::empty());
        m
    }

    /// Removes every registered operator.
    pub fn clear(&mut self)
        ensures
            final(self)@ == Map::<Seq<char>, D>::empty(),
    {
        self.entries = Vec::new();
        assert(self@ =~= Map::<Seq<char>, D>::empty());
    }

    /// The operator registered under `key`, if any.
    pub fn get(&self, key: &str) -> (found: Option<&D>)
        ensures
            match found {
                Some(op) => self@.contains_key(key@) && *op == self@[key@],
                None => !self@.contains_key(key@),
            },
    {
        proof {
            use_type_invariant(self);
        }
        let wanted = key.to_owned();
        let n = self.entries.len();
        let mut i: usize = 0;
        while i < n
            invariant
                n == self.entries.len(),
                i <= n,
                wanted@ == key@,
                forall|j: int| 0 <= j < i ==> self.entries[j].0@ != key@,
            decreases n - i,
        {
            if self.entries[i].0 == wanted {
                proof {
                    use_type_invariant(self);
                    Self::lemma_map_at(self.entries@, i as int);
                }
                return Some(&self.entries[i].1);
            }
            i = i + 1;
        }
        None
    }

    /// Registers `value` under `key`, and hands back the operator that was
    /// registered under it before, if any.
    pub fn insert(&mut self, key: String, value: D) -> (previous: Option<D>)
        ensures
            final(self)@ == old(self)@.insert(key@, value),
            previous == (if old(self)@.contains_key(key@) {
                Some(old(self)@[key@])
            } else {
                None
            }),
    {
        proof {
            use_type_invariant(&*self);
        }
        let ghost before = self.entries@;
        assert(old(self)@ == Self::map_of(before));
        let mut entries: Vec<(String, D)> = Vec::new();
        std::mem::swap(&mut entries, &mut self.entries);
        assert(entries@ == before);
        let n = entries.len();
        let mut i: usize = 0;
        while i < n
            invariant
                n == entries.len(),
                entries@ == before,
                old(self)@ == Self::map_of(before),
                i <= n,
                forall|j: int| 0 <= j < i ==> entries[j].0@ != key@,
                forall|a: int, b: int| 0 <= a < b < before.len() ==> before[a].0@ != before[b].0@,
            decreases n - i,
        {
            if entries[i].0 == key {
                let ghost k = key@;
                proof {
                    Self::lemma_map_at(before, i as int);
                }
                let mut slot = (key, value);
                std::mem::swap(&mut entries[i], &mut slot);
                assert(entries@ == before.update(i as int, (entries[i as int].0, value)));
                assert forall|a: int, b: int|
                    0 <= a < b < entries.len() implies entries[a].0@ != entries[b].0@ by {
                    assert(before[a].0@ != before[b].0@);
                }
                assert(Self::map_of(entries@) =~= Self::map_of(before).insert(k, value)) by {
                    assert forall|q: Seq<char>| #[trigger]
                        Self::map_of(before).insert(k, value).contains_key(q) implies Self::map_of(
                        entries@,
                    ).contains_key(q) && Self::map_of(entries@)[q] == Self::map_of(before).insert(
                        k,
                        value,
                    )[q] by {
                        if q == k {
                            Self::lemma_map_at(entries@, i as int);
                        } else {
                            let c = choose|c: int| 0 <= c < before.len() && before[c].0@ == q;
                            Self::lemma_map_at(before, c);
                            Self::lemma_map_at(entries@, c);
                        }
                    }
                    assert forall|q: Seq<char>| #[trigger]
                        Self::map_of(entries@).contains_key(q) implies Self::map_of(
                        before,
                    ).insert(k, value).contains_key(q) by {
                        let c = choose|c: int| 0 <= c < entries.len() && entries[c].0@ == q;
                        if c != i {
                            assert(Self::holds_name(before, q));
                        }
                    }
                }
                self.entries = entries;
                return Some(slot.1);
            }
            i = i + 1;
        }
        let ghost k = key@;
        assert(!Self::holds_name(before, k));
        entries.push((key, value));
        assert forall|a: int, b: int| 0 <= a < b < entries.len() implies entries[a].0@
            != entries[b].0@ by {
            if b < n {
                assert(before[a].0@ != before[b].0@);
            }
        }
        assert(Self::map_of(entries@) =~= Self::map_of(before).insert(k, value)) by {
            assert forall|q: Seq<char>| #[trigger]
                Self::map_of(before).insert(k, value).contains_key(q) implies Self::map_of(
                entries@,
            ).contains_key(q) && Self::map_of(entries@)[q] == Self::map_of(before).insert(
                k,
                value,
            )[q] by {
                if q == k {
                    Self::lemma_map_at(entries@, n as int);
                } else {
                    let c = choose|c: int| 0 <= c < before.len() && before[c].0@ == q;
                    Self::lemma_map_at(before, c);
                    Self::lemma_map_at(entries@, c);
                }
            }
            assert forall|q: Seq<char>| #[trigger]
                Self::map_of(entries@).contains_key(q) implies Self::map_of(before).insert(
                k,
                value,
            ).contains_key(q) by {
                let c = choose|c: int| 0 <= c < entries.len() && entries[c].0@ == q;
                if c != n {
                    assert(Self::holds_name(before, q));
                }
            }
        }
        self.entries = entries;
        None
    }
}

impl<D: CommonOperator> DynamicOperatorMap<D> {
    /// Whether each registered operator is registered under its own symbol.
    pub open spec fn files_by_symbol(&self) -> bool {
        forall|k: Seq<char>| #[trigger] self@.contains_key(k) ==> self@[k].symbol_view() == k
    }
}

/// Registering an operator under a name makes a later lookup of that name
/// find it, and leaves what every other name finds as it was.
pub proof fn lemma_registered_operator_is_found<D>(
    before: DynamicOperatorMap<D>,
    after: DynamicOperatorMap<D>,
    name: Seq<char>,
    op: D,
    other: Seq<char>,
)
    requires
        after@ == before@.insert(name, op),
        other != name,
    ensures
        after@.contains_key(name),
        after@[name] == op,
        after@.contains_key(other) == before@.contains_key(other),
        before@.contains_key(other) ==> after@[other] == before@[other],
{
}

impl<D> View for DynamicOperatorMap<D> {
    type V = Map<Seq<char>, D>;

    closed spec fn view(&self) -> Map<Seq<char>, D> {
        Self::map_of(self.entries@)
    }
}

} // verus!
