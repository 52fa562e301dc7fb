//! The server's registries: control sessions by client id, tunnels by public URL.
use vstd::prelude::*;
use crate::text::str_equal;
use super::tunnel::Tunnel;

verus! {

/// Values filed under string ids; an id holds at most one value.
pub struct Registry<V> {
    entries: Vec<(String, V)>,
}

/// No id occurs twice among the entries.
pub open spec fn unique_ids<V>(entries: Seq<(String, V)>) -> bool {
    forall|i: int, j: int| 0 <= i < entries.len() && 0 <= j < entries.len() && i != j
        ==> #[trigger] entries[i].0@ != #[trigger] entries[j].0@
}

/// The position at which `id` is filed, if any.
pub open spec fn has_id<V>(entries: Seq<(String, V)>, id: Seq<char>) -> bool {
    exists|i: int| 0 <= i < entries.len() && #[trigger] entries[i].0@ == id
}

/// The map from ids to values that the entries make.
pub open spec fn entries_map<V>(entries: Seq<(String, V)>) -> Map<Seq<char>, V> {
    Map::new(
        |id: Seq<char>| has_id(entries, id),
        |id: Seq<char>| entries[choose|i: int| 0 <= i < entries.len() && #[trigger] entries[i].0@ == id].1,
    )
}

impl<V> View for Registry<V> {
    type V = Map<Seq<char>, V>;

    closed spec fn view(&self) -> Map<Seq<char>, V> {
        entries_map(self.entries@)
    }
}

/// `n` zero characters.
pub open spec fn zeros(n: nat) -> Seq<char> {
    Seq::new(n, |i: int| '0')
}

/// The length of the longest id among the entries.
pub open spec fn longest_id<V>(entries: Seq<(String, V)>) -> nat
    decreases entries.len(),
{
    if entries.len() == 0 {
        0
    } else {
        let rest = longest_id(entries.drop_last());
        let last = entries.last().0@.len();
        if last > rest { last } else { rest }
    }
}

proof fn lemma_longest_id<V>(entries: Seq<(String, V)>, i: int)
    requires
        0 <= i < entries.len(),
    ensures
        entries[i].0@.len() <= longest_id(entries),
    decreases entries.len(),
{
    if i < entries.len() - 1 {
        lemma_longest_id(entries.drop_last(), i);
    }
}

/// With unique ids, the entry at position `i` is what its id maps to.
proof fn lemma_entry_in_map<V>(entries: Seq<(String, V)>, i: int)
    requires
        unique_ids(entries),
        0 <= i < entries.len(),
    ensures
        entries_map(entries).contains_key(entries[i].0@),
        entries_map(entries)[entries[i].0@] == entries[i].1,
{
    let id = entries[i].0@;
    assert(has_id(entries, id));
    let j = choose|j: int| 0 <= j < entries.len() && #[trigger] entries[j].0@ == id;
    if j != i {
        assert(entries[i].0@ != entries[j].0@);
    }
}

impl<V> Registry<V> {
    #[verifier::type_invariant]
    spec fn unique(self) -> bool {
        unique_ids(self.entries@)
    }

    /// An empty registry.
    pub fn new() -> (r: Registry<V>)
        ensures
            r@ == Map::<Seq<char>, V>::empty(),
    {
        let r = Registry { entries: Vec::new() };
        assert(r@ =~= Map::<Seq<char>, V>::empty());
        r
    }

    /// The number of ids in the registry.
    pub fn len(&self) -> (r: usize)
        ensures
            r == self@.len(),
    {
        proof {
            use_type_invariant(self);
            self.lemma_len();
        }
        self.entries.len()
    }

    proof fn lemma_len(&self)
        requires
            unique_ids(self.entries@),
        ensures
            self@.dom().finite(),
            self@.len() == self.entries@.len(),
        decreases self.entries@.len(),
    {
        let e = self.entries@;
        let keys = e.map_values(|p: (String, V)| p.0@);
        assert(self@.dom() =~= keys.to_set()) by {
            assert forall|id: Seq<char>| self@.dom().contains(id) implies keys.to_set().contains(id) by {
                let i = choose|i: int| 0 <= i < e.len() && #[trigger] e[i].0@ == id;
                assert(keys[i] == id);
            }
            assert forall|id: Seq<char>| keys.to_set().contains(id) implies self@.dom().contains(id) by {
                let i = choose|i: int| 0 <= i < keys.len() && keys[i] == id;
                assert(e[i].0@ == id);
            }
        }
        assert(keys.no_duplicates()) by {
            assert forall|i: int, j: int| 0 <= i < keys.len() && 0 <= j < keys.len() && i != j implies keys[i] != keys[j] by {
                assert(e[i].0@ != e[j].0@);
            }
        }
        keys.unique_seq_to_set();
    }

    /// The position of the entry filed under `id`, if any.
    fn position(&self, id: &str) -> (r: Option<usize>)
        ensures
            match r {
                Some(i) => i < self.entries@.len() && self.entries@[i as int].0@ == id@,
                None => !has_id(self.entries@, id@),
            },
    {
        let mut i: usize = 0;
        while i < self.entries.len()
            invariant
                i <= self.entries@.len(),
                forall|j: int| 0 <= j < i ==> #[trigger] self.entries@[j].0@ != id@,
            decreases self.entries@.len() - i,
        {
            if str_equal(self.entries[i].0.as_str(), id) {
                return Some(i);
            }
            i = i + 1;
        }
        None
    }

    /// Whether a value is filed under `id`.
    pub fn contains(&self, id: &str) -> (r: bool)
        ensures
            r == self@.contains_key(id@),
    {
        self.position(id).is_some()
    }

    /// The value filed under `id`, if any.
    pub fn get(&self, id: &str) -> (r: Option<&V>)
        ensures
            match r {
                Some(v) => self@.contains_key(id@) && self@[id@] == *v,
                None => !self@.contains_key(id@),
            },
    {
        proof { use_type_invariant(self); }
        match self.position(id) {
            Some(i) => {
                proof { lemma_entry_in_map(self.entries@, i as int); }
                Some(&self.entries[i].1)
            },
            None => None,
        }
    }

    /// Files `value` under `id`, and gives back the value that was filed there before, if any.
    pub fn insert(&mut self, id: String, value: V) -> (r: Option<V>)
        ensures
            final(self)@ == old(self)@.insert(id@, value),
            match r {
                Some(v) => old(self)@.contains_key(id@) && old(self)@[id@] == v,
                None => !old(self)@.contains_key(id@),
            },
    {
        proof { use_type_invariant(&*self); }
        let ghost old_entries = self.entries@;
        let ghost key = id@;
        let pos = self.position(id.as_str());
        let mut entries: Vec<(String, V)> = Vec::new();
        std::mem::swap(&mut entries, &mut self.entries);
        match pos {
            Some(i) => {
                let (_, previous) = entries.remove(i);
                entries.insert(i, (id, value));
                proof {
                    let e = entries@;
                    assert(e =~= old_entries.update(i as int, e[i as int]));
                    assert(unique_ids(e)) by {
                        assert forall|a: int, b: int| 0 <= a < e.len() && 0 <= b < e.len() && a != b
                            implies #[trigger] e[a].0@ != #[trigger] e[b].0@ by {
                            if a != i && b != i {
                                assert(old_entries[a].0@ != old_entries[b].0@);
                            } else if a == i {
                                assert(old_entries[i as int].0@ != old_entries[b].0@);
                            } else {
                                assert(old_entries[a].0@ != old_entries[i as int].0@);
                            }
                        }
                    }
                    lemma_entry_in_map(old_entries, i as int);
                    assert(entries_map(e) =~= entries_map(old_entries).insert(key, value)) by {
                        assert forall|k: Seq<char>| #[trigger] entries_map(e).contains_key(k)
                            == entries_map(old_entries).insert(key, value).contains_key(k) by {
                            if has_id(e, k) {
                                let a = choose|a: int| 0 <= a < e.len() && #[trigger] e[a].0@ == k;
                                if a != i {
                                    assert(old_entries[a].0@ == k);
                                }
                            }
                            if has_id(old_entries, k) {
                                let a = choose|a: int| 0 <= a < old_entries.len() && #[trigger] old_entries[a].0@ == k;
                                if a != i {
                                    assert(e[a].0@ == k);
                                } else {
                                    assert(e[i as int].0@ == k);
                                }
                            }
                        }
                        assert forall|k: Seq<char>| #[trigger] entries_map(e).contains_key(k)
                            implies entries_map(e)[k] == entries_map(old_entries).insert(key, value)[k] by {
                            let a = choose|a: int| 0 <= a < e.len() && #[trigger] e[a].0@ == k;
                            lemma_entry_in_map(e, a);
                            if a != i {
                                assert(old_entries[a].0@ == k);
                                lemma_entry_in_map(old_entries, a);
                            }
                        }
                    }
                }
                self.entries = entries;
                Some(previous)
            },
            None => {
                entries.push((id, value));
                proof {
                    let e = entries@;
                    let n = old_entries.len() as int;
                    assert(unique_ids(e)) by {
                        assert forall|a: int, b: int| 0 <= a < e.len() && 0 <= b < e.len() && a != b
                            implies #[trigger] e[a].0@ != #[trigger] e[b].0@ by {
                            if a != n && b != n {
                                assert(old_entries[a].0@ != old_entries[b].0@);
                            } else if a == n {
                                assert(old_entries[b].0@ != key);
                            } else {
                                assert(old_entries[a].0@ != key);
                            }
                        }
                    }
                    assert(entries_map(e) =~= entries_map(old_entries).insert(key, value)) by {
                        assert forall|k: Seq<char>| #[trigger] entries_map(e).contains_key(k)
                            == entries_map(old_entries).insert(key, value).contains_key(k) by {
                            if has_id(e, k) {
                                let a = choose|a: int| 0 <= a < e.len() && #[trigger] e[a].0@ == k;
                                if a != n {
                                    assert(old_entries[a].0@ == k);
                                }
                            }
                            if has_id(old_entries, k) {
                                let a = choose|a: int| 0 <= a < old_entries.len() && #[trigger] old_entries[a].0@ == k;
                                assert(e[a].0@ == k);
                            }
                            if k == key {
                                assert(e[n].0@ == k);
                            }
                        }
                        assert forall|k: Seq<char>| #[trigger] entries_map(e).contains_key(k)
                            implies entries_map(e)[k] == entries_map(old_entries).insert(key, value)[k] by {
                            let a = choose|a: int| 0 <= a < e.len() && #[trigger] e[a].0@ == k;
                            lemma_entry_in_map(e, a);
                            if a != n {
                                assert(old_entries[a].0@ == k);
                                lemma_entry_in_map(old_entries, a);
                            }
                        }
                    }
                }
                self.entries = entries;
                None
            },
        }
    }

    /// The first id, among `base` followed by zero, one, two... `0` characters, under which
    /// nothing is filed.
    pub fn fresh_id(&self, base: &str) -> (r: String)
        ensures
            !self@.contains_key(r@),
            exists|k: nat| r@ == base@ + zeros(k)
                && forall|j: nat| j < k ==> #[trigger] self@.contains_key(base@ + zeros(j)),
    {
        let ghost bound = longest_id(self.entries@);
        let mut id = base.to_owned();
        let ghost mut k: nat = 0;
        assert(id@ =~= base@ + zeros(0));
        while self.contains(id.as_str())
            invariant
                bound == longest_id(self.entries@),
                id@ == base@ + zeros(k),
                forall|j: nat| j < k ==> #[trigger] self@.contains_key(base@ + zeros(j)),
            decreases bound + 1 - id@.len(),
        {
            proof {
                let i = choose|i: int| 0 <= i < self.entries@.len() && #[trigger] self.entries@[i].0@ == id@;
                lemma_longest_id(self.entries@, i);
            }
            let ghost before = id@;
            id.append("0");
            proof {
                reveal_strlit("0");
                assert(id@ =~= base@ + zeros(k + 1));
                assert forall|j: nat| j < k + 1 implies #[trigger] self@.contains_key(base@ + zeros(j)) by {
                    if j == k {
                        assert(base@ + zeros(j) == before);
                    }
                }
                k = k + 1;
            }
        }
        id
    }

    /// The entries, each id once.
    pub fn entries(&self) -> (r: &Vec<(String, V)>)
        ensures
            r@.len() == self@.len(),
            forall|i: int| 0 <= i < r@.len() ==> self@.contains_key(#[trigger] r@[i].0@) && self@[r@[i].0@] == r@[i].1,
    {
        proof {
            use_type_invariant(self);
            self.lemma_len();
            assert forall|i: int| 0 <= i < self.entries@.len() implies self@.contains_key(#[trigger] self.entries@[i].0@) && self@[self.entries@[i].0@] == self.entries@[i].1 by {
                lemma_entry_in_map(self.entries@, i);
            }
        }
        &self.entries
    }
}

/// The control session filed under `id`. The id must be filed.
pub fn get_control_cache<'a, C>(controls: &'a Registry<C>, id: &str) -> (r: Option<&'a C>)
    requires
        controls@.contains_key(id@),
    ensures
        r matches Some(c) && *c == controls@[id@],
{
    controls.get(id)
}

/// Files a control session under `id`, giving back the session filed there before, if any.
pub fn add_control_cache<C>(controls: &mut Registry<C>, id: String, ctrl: C) -> (r: Option<C>)
    ensures
        final(controls)@ == old(controls)@.insert(id@, ctrl),
        match r {
            Some(c) => old(controls)@.contains_key(id@) && old(controls)@[id@] == c,
            None => !old(controls)@.contains_key(id@),
        },
{
    controls.insert(id, ctrl)
}

/// The tunnel filed under the URL `id`, if any.
pub fn get_tunnel_cache<'a, C>(tunnels: &'a Registry<Tunnel<C>>, id: &str) -> (r: Option<&'a Tunnel<C>>)
    ensures
        match r {
            Some(t) => tunnels@.contains_key(id@) && tunnels@[id@] == *t,
            None => !tunnels@.contains_key(id@),
        },
{
    tunnels.get(id)
}

/// Files a tunnel under the URL `id`, giving back the tunnel filed there before, if any.
pub fn add_tunnel_cache<C>(tunnels: &mut Registry<Tunnel<C>>, id: String, t: Tunnel<C>) -> (r: Option<Tunnel<C>>)
    ensures
        final(tunnels)@ == old(tunnels)@.insert(id@, t),
        match r {
            Some(p) => old(tunnels)@.contains_key(id@) && old(tunnels)@[id@] == p,
            None => !old(tunnels)@.contains_key(id@),
        },
{
    tunnels.insert(id, t)
}

/// A value read back under an id is the last one filed under it; filing under one id leaves
/// every other id as it was.
pub proof fn lemma_read_after_write<V>(before: Map<Seq<char>, V>, id: Seq<char>, value: V, other: Seq<char>)
    requires
        other != id,
    ensures
        before.insert(id, value).contains_key(id),
        before.insert(id, value)[id] == value,
        before.insert(id, value).contains_key(other) == before.contains_key(other),
        before.contains_key(other) ==> before.insert(id, value)[other] == before[other],
{
}

} // verus!
