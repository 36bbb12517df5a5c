//! Component-specific CSS variable overrides.
//!
//! A [`ComponentToken`] maps arbitrary keys to string values; a
//! [`ComponentTokenMap`] maps component names to their [`ComponentToken`].
//! Both are association lists that keep insertion order, so that CSS
//! generation over them is deterministic, and both merge by key with local
//! entries taking precedence over same-keyed parent entries.

use vstd::prelude::*;

verus! {

/// Index of the first entry of `s` with key `key`, looking from position
/// `i` on; `-1` if there is none.
pub open spec fn key_index_from<V>(s: Seq<(Seq<char>, V)>, key: Seq<char>, i: int) -> int
    decreases s.len() - i,
{
    if i < 0 || i >= s.len() {
        -1
    } else if s[i].0 == key {
        i
    } else {
        key_index_from(s, key, i + 1)
    }
}

/// Index of the first entry of `s` with key `key`; `-1` if there is none.
pub open spec fn key_index<V>(s: Seq<(Seq<char>, V)>, key: Seq<char>) -> int {
    key_index_from(s, key, 0)
}

/// The value stored under `key`, if any.
pub open spec fn entry_value<V>(s: Seq<(Seq<char>, V)>, key: Seq<char>) -> Option<V> {
    if key_index(s, key) == -1 {
        None
    } else {
        Some(s[key_index(s, key)].1)
    }
}

/// The entries after storing `value` under `key`: the first entry with
/// that key is replaced, or a new entry is appended.
pub open spec fn insert_entry<V>(s: Seq<(Seq<char>, V)>, key: Seq<char>, value: V) -> Seq<
    (Seq<char>, V),
> {
    if key_index(s, key) == -1 {
        s.push((key, value))
    } else {
        s.update(key_index(s, key), (key, value))
    }
}

/// The parent entries, each with its value replaced by the local value
/// under the same key if the local entries have one.
pub open spec fn replaced_entries<V>(
    parent: Seq<(Seq<char>, V)>,
    local: Seq<(Seq<char>, V)>,
) -> Seq<(Seq<char>, V)>
    decreases parent.len(),
{
    if parent.len() == 0 {
        Seq::empty()
    } else {
        replaced_entries(parent.drop_last(), local).push(
            match entry_value(local, parent.last().0) {
                Some(v) => (parent.last().0, v),
                None => parent.last(),
            },
        )
    }
}

/// The local entries whose keys do not occur among the parent entries, in
/// their own order.
pub open spec fn fresh_entries<V>(parent: Seq<(Seq<char>, V)>, local: Seq<(Seq<char>, V)>) -> Seq<
    (Seq<char>, V),
>
    decreases local.len(),
{
    if local.len() == 0 {
        Seq::empty()
    } else {
        let rest = fresh_entries(parent, local.drop_last());
        if entry_value(parent, local.last().0) is None {
            rest.push(local.last())
        } else {
            rest
        }
    }
}

/// Key-wise merge of two entry lists: every parent entry keeps its place,
/// with its value replaced by the local value under the same key if there
/// is one, and local entries with new keys follow in their own order.
pub open spec fn merge_entries<V>(parent: Seq<(Seq<char>, V)>, local: Seq<(Seq<char>, V)>) -> Seq<
    (Seq<char>, V),
> {
    replaced_entries(parent, local) + fresh_entries(parent, local)
}

proof fn lemma_replaced_entries_empty_local<V>(parent: Seq<(Seq<char>, V)>)
    ensures
        replaced_entries(parent, Seq::<(Seq<char>, V)>::empty()) == parent,
    decreases parent.len(),
{
    if parent.len() == 0 {
        assert(replaced_entries(parent, Seq::<(Seq<char>, V)>::empty()) =~= parent);
    } else {
        lemma_replaced_entries_empty_local(parent.drop_last());
        assert(replaced_entries(parent, Seq::<(Seq<char>, V)>::empty()) =~= parent);
    }
}

/// Law: merging an empty local entry list returns the parent entries
/// unchanged.
pub proof fn lemma_merge_entries_empty<V>(parent: Seq<(Seq<char>, V)>)
    ensures
        merge_entries(parent, Seq::<(Seq<char>, V)>::empty()) == parent,
{
    lemma_replaced_entries_empty_local(parent);
    assert(merge_entries(parent, Seq::<(Seq<char>, V)>::empty()) =~= parent);
}

proof fn lemma_fresh_entries_empty_parent<V>(local: Seq<(Seq<char>, V)>)
    ensures
        fresh_entries(Seq::<(Seq<char>, V)>::empty(), local) == local,
    decreases local.len(),
{
    if local.len() == 0 {
        assert(fresh_entries(Seq::<(Seq<char>, V)>::empty(), local) =~= local);
    } else {
        lemma_fresh_entries_empty_parent(local.drop_last());
        assert(fresh_entries(Seq::<(Seq<char>, V)>::empty(), local) =~= local);
    }
}

/// Law: merging into an empty parent entry list returns the local entries
/// unchanged.
pub proof fn lemma_merge_entries_empty_parent<V>(local: Seq<(Seq<char>, V)>)
    ensures
        merge_entries(Seq::<(Seq<char>, V)>::empty(), local) == local,
{
    lemma_fresh_entries_empty_parent(local);
    assert(merge_entries(Seq::<(Seq<char>, V)>::empty(), local) =~= local);
}

/// Component token: a mapping from arbitrary keys to CSS variable values,
/// in insertion order.
#[derive(Debug, PartialEq)]
pub struct ComponentToken {
    /// The key/value entries, in insertion order.
    pub token: Vec<(String, String)>,
}

impl View for ComponentToken {
    type V = Seq<(Seq<char>, Seq<char>)>;

    open spec fn view(&self) -> Seq<(Seq<char>, Seq<char>)> {
        Seq::new(self.token@.len(), |i: int| (self.token@[i].0@, self.token@[i].1@))
    }
}

impl Clone for ComponentToken {
    /// Clones the entries, keeping their order and contents.
    fn clone(&self) -> (r: Self)
        ensures
            r@ == self@,
    {
        let mut token: Vec<(String, String)> = Vec::new();
        let mut i: usize = 0;
        while i < self.token.len()
            invariant
                i <= self.token.len(),
                token@.len() == i as int,
                forall|k: int|
                    0 <= k < i as int ==> (#[trigger] token@[k]).0@ == self.token@[k].0@
                        && token@[k].1@ == self.token@[k].1@,
            decreases self.token.len() - i,
        {
            token.push((self.token[i].0.clone(), self.token[i].1.clone()));
            i += 1;
        }
        let r = ComponentToken { token };
        assert(r@ =~~= self@);
        r
    }
}

impl Default for ComponentToken {
    /// An empty component token.
    fn default() -> (r: Self)
        ensures
            r@ == Seq::<(Seq<char>, Seq<char>)>::empty(),
    {
        let r = ComponentToken { token: Vec::new() };
        assert(r@ =~~= Seq::<(Seq<char>, Seq<char>)>::empty());
        r
    }
}

impl ComponentToken {
    /// An empty component token.
    pub fn new() -> (r: Self)
        ensures
            r@ == Seq::<(Seq<char>, Seq<char>)>::empty(),
    {
        let r = ComponentToken { token: Vec::new() };
        assert(r@ =~~= Seq::<(Seq<char>, Seq<char>)>::empty());
        r
    }

    /// Number of entries.
    pub fn len(&self) -> (r: usize)
        ensures
            r == self@.len(),
    {
        self.token.len()
    }

    /// Position of the first entry with the given key.
    fn find_key(&self, key: &String) -> (r: Option<usize>)
        ensures
            match r {
                Some(j) => key_index(self@, key@) == j && j < self@.len(),
                None => key_index(self@, key@) == -1,
            },
    {
        let mut i: usize = 0;
        while i < self.token.len()
            invariant
                i <= self.token.len(),
                key_index(self@, key@) == key_index_from(self@, key@, i as int),
            decreases self.token.len() - i,
        {
            if self.token[i].0 == *key {
                return Some(i);
            }
            i += 1;
        }
        None
    }

    /// The value stored under the given key, if any.
    pub fn get(&self, key: &String) -> (r: Option<&String>)
        ensures
            match r {
                Some(v) => entry_value(self@, key@) == Some(v@),
                None => entry_value(self@, key@) is None,
            },
    {
        match self.find_key(key) {
            Some(j) => Some(&self.token[j].1),
            None => None,
        }
    }

    /// Store `value` under `key`, replacing the value of an existing entry
    /// with that key or appending a new entry.
    pub fn insert(&mut self, key: String, value: String)
        ensures
            final(self)@ == insert_entry(old(self)@, key@, value@),
    {
        let r = self.find_key(&key);
        match r {
            Some(j) => {
                self.token.set(j, (key, value));
                assert(self@ =~~= insert_entry(old(self)@, key@, value@));
            },
            None => {
                self.token.push((key, value));
                assert(self@ =~~= insert_entry(old(self)@, key@, value@));
            },
        }
    }

    /// Key-wise merge: local entries replace same-keyed parent entries,
    /// all other parent entries are retained, and local entries with new
    /// keys are appended.
    pub fn merged(parent: &Self, local: &Self) -> (r: Self)
        ensures
            r@ == merge_entries(parent@, local@),
    {
        let mut out = ComponentToken::new();
        let mut i: usize = 0;
        while i < parent.token.len()
            invariant
                i <= parent.token.len(),
                out@ == replaced_entries(parent@.take(i as int), local@),
            decreases parent.token.len() - i,
        {
            assert(parent@.take(i as int + 1).drop_last() =~~= parent@.take(i as int));
            assert(parent@.take(i as int + 1).last() == parent@[i as int]);
            match local.get(&parent.token[i].0) {
                Some(v) => {
                    out.token.push((parent.token[i].0.clone(), v.clone()));
                },
                None => {
                    out.token.push((parent.token[i].0.clone(), parent.token[i].1.clone()));
                },
            }
            assert(out@ =~~= replaced_entries(parent@.take(i as int + 1), local@));
            i += 1;
        }
        assert(parent@.take(parent.token.len() as int) =~~= parent@);
        let ghost first_part = out@;
        let mut j: usize = 0;
        while j < local.token.len()
            invariant
                j <= local.token.len(),
                out@ == first_part + fresh_entries(parent@, local@.take(j as int)),
                first_part == replaced_entries(parent@, local@),
            decreases local.token.len() - j,
        {
            assert(local@.take(j as int + 1).drop_last() =~~= local@.take(j as int));
            assert(local@.take(j as int + 1).last() == local@[j as int]);
            assert(local@[j as int] == (local.token@[j as int].0@, local.token@[j as int].1@));
            let ghost prev = out@;
            match parent.get(&local.token[j].0) {
                Some(_) => {
                    assert(fresh_entries(parent@, local@.take(j as int + 1)) == fresh_entries(
                        parent@,
                        local@.take(j as int),
                    ));
                },
                None => {
                    assert(fresh_entries(parent@, local@.take(j as int + 1)) == fresh_entries(
                        parent@,
                        local@.take(j as int),
                    ).push(local@[j as int]));
                    out.token.push((local.token[j].0.clone(), local.token[j].1.clone()));
                    assert(out@ =~~= prev.push(local@[j as int]));
                    assert(first_part + fresh_entries(parent@, local@.take(j as int + 1)) =~~= prev.push(
                        local@[j as int],
                    ));
                },
            }
            assert(out@ =~~= first_part + fresh_entries(parent@, local@.take(j as int + 1)));
            j += 1;
        }
        assert(local@.take(local.token.len() as int) =~~= local@);
        out
    }
}

/// Mapping from component names to their [`ComponentToken`], in insertion
/// order.
#[derive(Debug, PartialEq)]
pub struct ComponentTokenMap {
    /// The name/token entries, in insertion order.
    pub components: Vec<(String, ComponentToken)>,
}

impl View for ComponentTokenMap {
    type V = Seq<(Seq<char>, Seq<(Seq<char>, Seq<char>)>)>;

    open spec fn view(&self) -> Seq<(Seq<char>, Seq<(Seq<char>, Seq<char>)>)> {
        Seq::new(self.components@.len(), |i: int| (self.components@[i].0@, self.components@[i].1@))
    }
}

impl Clone for ComponentTokenMap {
    /// Clones the entries, keeping their order and contents.
    fn clone(&self) -> (r: Self)
        ensures
            r@ == self@,
    {
        let mut components: Vec<(String, ComponentToken)> = Vec::new();
        let mut i: usize = 0;
        while i < self.components.len()
            invariant
                i <= self.components.len(),
                components@.len() == i as int,
                forall|k: int|
                    0 <= k < i as int ==> (#[trigger] components@[k]).0@
                        == self.components@[k].0@ && components@[k].1@ == self.components@[k].1@,
            decreases self.components.len() - i,
        {
            components.push((self.components[i].0.clone(), self.components[i].1.clone()));
            i += 1;
        }
        let r = ComponentTokenMap { components };
        assert(r@ =~~= self@);
        r
    }
}

impl Default for ComponentTokenMap {
    /// An empty component token mapping.
    fn default() -> (r: Self)
        ensures
            r@ == Seq::<(Seq<char>, Seq<(Seq<char>, Seq<char>)>)>::empty(),
    {
        let r = ComponentTokenMap { components: Vec::new() };
        assert(r@ =~~= Seq::<(Seq<char>, Seq<(Seq<char>, Seq<char>)>)>::empty());
        r
    }
}

impl ComponentTokenMap {
    /// An empty component token mapping.
    pub fn new() -> (r: Self)
        ensures
            r@ == Seq::<(Seq<char>, Seq<(Seq<char>, Seq<char>)>)>::empty(),
    {
        let r = ComponentTokenMap { components: Vec::new() };
        assert(r@ =~~= Seq::<(Seq<char>, Seq<(Seq<char>, Seq<char>)>)>::empty());
        r
    }

    /// Number of entries.
    pub fn len(&self) -> (r: usize)
        ensures
            r == self@.len(),
    {
        self.components.len()
    }

    /// Position of the first entry with the given component name.
    fn find_key(&self, name: &String) -> (r: Option<usize>)
        ensures
            match r {
                Some(j) => key_index(self@, name@) == j && j < self@.len(),
                None => key_index(self@, name@) == -1,
            },
    {
        let mut i: usize = 0;
        while i < self.components.len()
            invariant
                i <= self.components.len(),
                key_index(self@, name@) == key_index_from(self@, name@, i as int),
            decreases self.components.len() - i,
        {
            if self.components[i].0 == *name {
                return Some(i);
            }
            i += 1;
        }
        None
    }

    /// The component token stored under the given name, if any.
    pub fn get(&self, name: &String) -> (r: Option<&ComponentToken>)
        ensures
            match r {
                Some(v) => entry_value(self@, name@) == Some(v@),
                None => entry_value(self@, name@) is None,
            },
    {
        match self.find_key(name) {
            Some(j) => Some(&self.components[j].1),
            None => None,
        }
    }

    /// Store `value` under `name`, replacing the token of an existing
    /// entry with that name or appending a new entry.
    pub fn insert(&mut self, name: String, value: ComponentToken)
        ensures
            final(self)@ == insert_entry(old(self)@, name@, value@),
    {
        let r = self.find_key(&name);
        match r {
            Some(j) => {
                self.components.set(j, (name, value));
                assert(self@ =~~= insert_entry(old(self)@, name@, value@));
            },
            None => {
                self.components.push((name, value));
                assert(self@ =~~= insert_entry(old(self)@, name@, value@));
            },
        }
    }

    /// Key-wise merge: local entries replace same-named parent entries
    /// wholesale, all other parent entries are retained, and local entries
    /// with new names are appended.
    pub fn merged(parent: &Self, local: &Self) -> (r: Self)
        ensures
            r@ == merge_entries(parent@, local@),
    {
        let mut out = ComponentTokenMap::new();
        let mut i: usize = 0;
        while i < parent.components.len()
            invariant
                i <= parent.components.len(),
                out@ == replaced_entries(parent@.take(i as int), local@),
            decreases parent.components.len() - i,
        {
            assert(parent@.take(i as int + 1).drop_last() =~~= parent@.take(i as int));
            assert(parent@.take(i as int + 1).last() == parent@[i as int]);
            match local.get(&parent.components[i].0) {
                Some(v) => {
                    out.components.push((parent.components[i].0.clone(), v.clone()));
                },
                None => {
                    out.components.push(
                        (parent.components[i].0.clone(), parent.components[i].1.clone()),
                    );
                },
            }
            assert(out@ =~~= replaced_entries(parent@.take(i as int + 1), local@));
            i += 1;
        }
        assert(parent@.take(parent.components.len() as int) =~~= parent@);
        let ghost first_part = out@;
        let mut j: usize = 0;
        while j < local.components.len()
            invariant
                j <= local.components.len(),
                out@ == first_part + fresh_entries(parent@, local@.take(j as int)),
                first_part == replaced_entries(parent@, local@),
            decreases local.components.len() - j,
        {
            assert(local@.take(j as int + 1).drop_last() =~~= local@.take(j as int));
            assert(local@.take(j as int + 1).last() == local@[j as int]);
            assert(local@[j as int] == (
                local.components@[j as int].0@,
                local.components@[j as int].1@,
            ));
            let ghost prev = out@;
            match parent.get(&local.components[j].0) {
                Some(_) => {
                    assert(fresh_entries(parent@, local@.take(j as int + 1)) == fresh_entries(
                        parent@,
                        local@.take(j as int),
                    ));
                },
                None => {
                    assert(fresh_entries(parent@, local@.take(j as int + 1)) == fresh_entries(
                        parent@,
                        local@.take(j as int),
                    ).push(local@[j as int]));
                    out.components.push(
                        (local.components[j].0.clone(), local.components[j].1.clone()),
                    );
                    assert(out@ =~~= prev.push(local@[j as int]));
                    assert(first_part + fresh_entries(parent@, local@.take(j as int + 1))
                        =~~= prev.push(local@[j as int]));
                },
            }
            assert(out@ =~~= first_part + fresh_entries(parent@, local@.take(j as int + 1)));
            j += 1;
        }
        assert(local@.take(local.components.len() as int) =~~= local@);
        out
    }
}

} // verus!
