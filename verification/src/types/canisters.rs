use vstd::prelude::*;
use crate::text::{str_eq, texts};
use crate::types::dfx_cfg::{CanisterView, RustCanisterCfg};

verus! {

/// The names of a list of named canisters, in order.
pub open spec fn names_of(entries: Seq<(String, RustCanisterCfg)>) -> Seq<Seq<char>> {
    Seq::new(entries.len(), |i: int| entries[i].0@)
}

/// The map that a list of named canisters stands for, where no name occurs
/// twice.
pub open spec fn map_of(entries: Seq<(String, RustCanisterCfg)>) -> Map<Seq<char>, CanisterView> {
    Map::new(
        |name: Seq<char>| names_of(entries).contains(name),
        |name: Seq<char>| entries[names_of(entries).index_of(name)].1@,
    )
}

/// Each entry of a list without repeated names is what the map holds under
/// the entry's name.
proof fn lemma_map_of_entry(entries: Seq<(String, RustCanisterCfg)>, i: int)
    requires
        names_of(entries).no_duplicates(),
        0 <= i < entries.len(),
    ensures
        map_of(entries).contains_key(entries[i].0@),
        map_of(entries)[entries[i].0@] == entries[i].1@,
{
    let names = names_of(entries);
    assert(names[i] == entries[i].0@);
    let j = names.index_of(entries[i].0@);
    assert(names[j] == names[i]);
}

/// A name that no entry carries is no key of the map.
proof fn lemma_map_of_absent(entries: Seq<(String, RustCanisterCfg)>, name: Seq<char>)
    requires
        forall|i: int| 0 <= i < entries.len() ==> entries[i].0@ != name,
    ensures
        !map_of(entries).contains_key(name),
{
    let names = names_of(entries);
    if names.contains(name) {
        let j = names.index_of(name);
        assert(entries[j].0@ == name);
    }
}

/// Adding an entry under a new name adds that key to the map.
proof fn lemma_map_of_push(
    entries: Seq<(String, RustCanisterCfg)>,
    entry: (String, RustCanisterCfg),
)
    requires
        names_of(entries).no_duplicates(),
        !names_of(entries).contains(entry.0@),
    ensures
        names_of(entries.push(entry)).no_duplicates(),
        map_of(entries.push(entry)) == map_of(entries).insert(entry.0@, entry.1@),
{
    let after = entries.push(entry);
    let names = names_of(entries);
    let names_after = names_of(after);
    assert forall|i: int, j: int|
        0 <= i < names_after.len() && 0 <= j < names_after.len() && i != j implies names_after[i]
        != names_after[j] by {
        if i < names.len() {
            assert(names[i] == names_after[i]);
        }
        if j < names.len() {
            assert(names[j] == names_after[j]);
        }
    }
    let expected = map_of(entries).insert(entry.0@, entry.1@);
    assert forall|name: Seq<char>| map_of(after).contains_key(name) <==> expected.contains_key(
        name,
    ) by {
        if names.contains(name) {
            let j = names.index_of(name);
            assert(names_after[j] == name);
        }
        if names_after.contains(name) && name != entry.0@ {
            let j = names_after.index_of(name);
            assert(names[j] == name);
        }
        assert(names_after[entries.len() as int] == entry.0@);
    }
    assert forall|name: Seq<char>| map_of(after).contains_key(name) implies map_of(after)[name]
        == expected[name] by {
        let j = names_after.index_of(name);
        lemma_map_of_entry(after, j);
        if j < entries.len() {
            lemma_map_of_entry(entries, j);
        }
    }
}

/// Putting another canister under the name of entry `i` puts it under that
/// key of the map.
proof fn lemma_map_of_update(
    entries: Seq<(String, RustCanisterCfg)>,
    i: int,
    entry: (String, RustCanisterCfg),
)
    requires
        names_of(entries).no_duplicates(),
        0 <= i < entries.len(),
        entry.0@ == entries[i].0@,
    ensures
        names_of(entries.update(i, entry)).no_duplicates(),
        map_of(entries.update(i, entry)) == map_of(entries).insert(entry.0@, entry.1@),
{
    let after = entries.update(i, entry);
    let names = names_of(entries);
    assert(names_of(after) =~= names);
    let expected = map_of(entries).insert(entry.0@, entry.1@);
    assert(names[i] == entry.0@);
    assert forall|name: Seq<char>| map_of(after).contains_key(name) implies map_of(after)[name]
        == expected[name] by {
        let j = names.index_of(name);
        lemma_map_of_entry(after, j);
        lemma_map_of_entry(entries, j);
    }
}

/// Taking entry `i` out takes its name out of the map.
proof fn lemma_map_of_remove(entries: Seq<(String, RustCanisterCfg)>, i: int)
    requires
        names_of(entries).no_duplicates(),
        0 <= i < entries.len(),
    ensures
        names_of(entries.remove(i)).no_duplicates(),
        map_of(entries.remove(i)) == map_of(entries).remove(entries[i].0@),
{
    let after = entries.remove(i);
    let names = names_of(entries);
    let names_after = names_of(after);
    assert forall|a: int, b: int|
        0 <= a < names_after.len() && 0 <= b < names_after.len() && a != b implies names_after[a]
        != names_after[b] by {
        let a0 = if a < i { a } else { a + 1 };
        let b0 = if b < i { b } else { b + 1 };
        assert(names_after[a] == names[a0]);
        assert(names_after[b] == names[b0]);
    }
    let expected = map_of(entries).remove(entries[i].0@);
    assert(names[i] == entries[i].0@);
    assert forall|name: Seq<char>| map_of(after).contains_key(name) <==> expected.contains_key(
        name,
    ) by {
        if names_after.contains(name) {
            let a = names_after.index_of(name);
            let a0 = if a < i { a } else { a + 1 };
            assert(names[a0] == name);
        }
        if names.contains(name) && name != entries[i].0@ {
            let j = names.index_of(name);
            let a = if j < i { j } else { j - 1 };
            assert(names_after[a] == name);
        }
    }
    assert forall|name: Seq<char>| map_of(after).contains_key(name) implies map_of(after)[name]
        == expected[name] by {
        let a = names_after.index_of(name);
        let a0 = if a < i { a } else { a + 1 };
        lemma_map_of_entry(after, a);
        assert(names[a0] == name);
        lemma_map_of_entry(entries, a0);
    }
}

/// A list without repeated names stands for a map with as many keys as it has
/// entries.
proof fn lemma_map_of_len(entries: Seq<(String, RustCanisterCfg)>)
    requires
        names_of(entries).no_duplicates(),
    ensures
        map_of(entries).dom().finite(),
        map_of(entries).dom().len() == entries.len(),
{
    let names = names_of(entries);
    names.unique_seq_to_set();
    vstd::seq_lib::seq_to_set_is_finite(names);
}

/// The names that a selection asks for, in order; `None` where nothing is
/// selected.
pub open spec fn selection(names: Option<Vec<String>>) -> Option<Seq<Seq<char>>> {
    match names {
        Some(list) => Some(texts(list@)),
        None => None,
    }
}

/// The names that a selection asks for, as a set.
pub open spec fn requested(names: Seq<Seq<char>>) -> Set<Seq<char>> {
    Set::new(|name: Seq<char>| names.contains(name))
}

/// What a selection leaves of a registry: all of it where nothing is
/// selected, else the canisters whose names are asked for.
pub open spec fn filtered(
    registry: Map<Seq<char>, CanisterView>,
    names: Option<Seq<Seq<char>>>,
) -> Map<Seq<char>, CanisterView> {
    match names {
        None => registry,
        Some(list) => registry.restrict(requested(list)),
    }
}

/// The names of a selection that the registry does not know, each as often
/// and in the order in which it is asked for.
pub open spec fn unknown_names(
    registry: Map<Seq<char>, CanisterView>,
    names: Option<Seq<Seq<char>>>,
) -> Seq<Seq<char>> {
    match names {
        None => Seq::empty(),
        Some(list) => list.filter(|name: Seq<char>| !registry.contains_key(name)),
    }
}

/// The canisters that the tool handles, by name. It stands for a map; the
/// canisters are kept in the order in which their names first came in.
#[derive(Debug)]
pub struct Canisters {
    entries: Vec<(String, RustCanisterCfg)>,
}

impl View for Canisters {
    type V = Map<Seq<char>, CanisterView>;

    closed spec fn view(&self) -> Map<Seq<char>, CanisterView> {
        map_of(self.entries@)
    }
}

impl Canisters {
    #[verifier::type_invariant]
    spec fn names_are_distinct(&self) -> bool {
        names_of(self.entries@).no_duplicates()
    }

    /// The registry without any canister.
    pub fn new() -> (r: Self)
        ensures
            r@ == Map::<Seq<char>, CanisterView>::empty(),
    {
        let r = Canisters { entries: Vec::new() };
        r
    }

    /// Where the entry named `name` stands.
    fn position(&self, name: &str) -> (r: Option<usize>)
        ensures
            match r {
                Some(i) => i < self.entries@.len() && self.entries@[i as int].0@ == name@,
                None => forall|i: int| 0 <= i < self.entries@.len() ==> self.entries@[i].0@ != name@,
            },
    {
        let mut i: usize = 0;
        while i < self.entries.len()
            invariant
                i <= self.entries.len(),
                forall|k: int| 0 <= k < i ==> self.entries@[k].0@ != name@,
            decreases self.entries.len() - i,
        {
            if str_eq(self.entries[i].0.as_str(), name) {
                return Some(i);
            }
            i += 1;
        }
        None
    }

    /// The canisters with their names, in the order in which the names first
    /// came in. No name occurs twice.
    pub fn entries(&self) -> (r: &Vec<(String, RustCanisterCfg)>)
        ensures
            names_of(r@).no_duplicates(),
            map_of(r@) == self@,
            r@.len() == self@.len(),
    {
        proof {
            use_type_invariant(self);
            lemma_map_of_len(self.entries@);
        }
        &self.entries
    }

    /// How many canisters there are.
    pub fn len(&self) -> (r: usize)
        ensures
            self@.dom().finite(),
            r == self@.len(),
    {
        proof {
            use_type_invariant(self);
            lemma_map_of_len(self.entries@);
        }
        self.entries.len()
    }

    /// Whether there is no canister.
    pub fn is_empty(&self) -> (r: bool)
        ensures
            r == self@.is_empty(),
    {
        proof {
            use_type_invariant(self);
            lemma_map_of_len(self.entries@);
            if self.entries@.len() > 0 {
                lemma_map_of_entry(self.entries@, 0);
            }
        }
        self.entries.len() == 0
    }

    /// Whether a canister is registered under `name`.
    pub fn contains_key(&self, name: &str) -> (r: bool)
        ensures
            r == self@.contains_key(name@),
    {
        proof {
            use_type_invariant(self);
        }
        match self.position(name) {
            Some(i) => {
                proof {
                    lemma_map_of_entry(self.entries@, i as int);
                }
                true
            },
            None => {
                proof {
                    lemma_map_of_absent(self.entries@, name@);
                }
                false
            },
        }
    }

    /// The canister registered under `name`.
    pub fn get(&self, name: &str) -> (r: Option<&RustCanisterCfg>)
        ensures
            match r {
                Some(canister) => self@.contains_key(name@) && self@[name@] == canister@,
                None => !self@.contains_key(name@),
            },
    {
        proof {
            use_type_invariant(self);
        }
        match self.position(name) {
            Some(i) => {
                proof {
                    lemma_map_of_entry(self.entries@, i as int);
                }
                Some(&self.entries[i].1)
            },
            None => {
                proof {
                    lemma_map_of_absent(self.entries@, name@);
                }
                None
            },
        }
    }

    /// Registers `canister` under `name`, in place of the one that was there.
    pub fn insert(&mut self, name: String, canister: RustCanisterCfg)
        ensures
            final(self)@ == old(self)@.insert(name@, canister@),
    {
        proof {
            use_type_invariant(&*self);
        }
        let found = self.position(name.as_str());
        let mut entries: Vec<(String, RustCanisterCfg)> = Vec::new();
        std::mem::swap(&mut self.entries, &mut entries);
        match found {
            Some(i) => {
                proof {
                    lemma_map_of_update(entries@, i as int, (name, canister));
                }
                entries.set(i, (name, canister));
            },
            None => {
                proof {
                    lemma_map_of_absent(entries@, name@);
                    lemma_map_of_push(entries@, (name, canister));
                }
                entries.push((name, canister));
            },
        }
        std::mem::swap(&mut self.entries, &mut entries);
    }

    /// Takes out the canister registered under `name`, if there is one.
    pub fn remove(&mut self, name: &str)
        ensures
            final(self)@ == old(self)@.remove(name@),
    {
        proof {
            use_type_invariant(&*self);
        }
        match self.position(name) {
            Some(i) => {
                let mut entries: Vec<(String, RustCanisterCfg)> = Vec::new();
                std::mem::swap(&mut self.entries, &mut entries);
                proof {
                    lemma_map_of_remove(entries@, i as int);
                }
                entries.remove(i);
                std::mem::swap(&mut self.entries, &mut entries);
            },
            None => {
                proof {
                    lemma_map_of_absent(self.entries@, name@);
                }
            },
        }
    }

    /// Narrows the registry to a selection. With no selection every canister
    /// stays. With one, the canisters stay that it names; a name that the
    /// registry does not know selects nothing. The registry itself is left as
    /// it is.
    pub fn filter(&self, names: &Option<Vec<String>>) -> (r: Self)
        ensures
            r@ == filtered(self@, selection(*names)),
    {
        match names {
            None => self.clone(),
            Some(list) => {
                let mut result = Canisters::new();
                let ghost wanted = texts(list@);
                let mut i: usize = 0;
                while i < list.len()
                    invariant
                        i <= list.len(),
                        wanted == texts(list@),
                        result@ == self@.restrict(requested(wanted.take(i as int))),
                    decreases list.len() - i,
                {
                    let name = &list[i];
                    if let Some(canister) = self.get(name.as_str()) {
                        result.insert(name.clone(), canister.clone());
                    }
                    proof {
                        let seen = wanted.take(i as int);
                        let next = wanted.take(i + 1);
                        assert(next =~= seen.push(name@));
                        assert forall|n: Seq<char>| requested(next).contains(n) <==> (requested(
                            seen,
                        ).contains(n) || n == name@) by {
                            if seen.contains(n) {
                                let k = seen.index_of(n);
                                assert(next[k] == n);
                            }
                            if next.contains(n) && n != name@ {
                                let k = next.index_of(n);
                                assert(seen[k] == n);
                            }
                            assert(next[i as int] == name@);
                        }
                    }
                    i += 1;
                }
                assert(wanted.take(list.len() as int) =~= wanted);
                result
            },
        }
    }

    /// The names of a selection that the registry does not know: those for
    /// which a caller has a warning to give. They come as often and in the
    /// order in which the selection asks for them.
    pub fn not_found(&self, names: &Option<Vec<String>>) -> (r: Vec<String>)
        ensures
            texts(r@) == unknown_names(self@, selection(*names)),
    {
        let mut unknown: Vec<String> = Vec::new();
        if let Some(list) = names {
            let ghost wanted = texts(list@);
            let ghost registry = self@;
            let mut i: usize = 0;
            assert(texts(unknown@) =~= unknown_names(registry, Some(wanted.take(0)))) by {
                reveal(Seq::filter);
            }
            while i < list.len()
                invariant
                    i <= list.len(),
                    wanted == texts(list@),
                    registry == self@,
                    texts(unknown@) == unknown_names(registry, Some(wanted.take(i as int))),
                decreases list.len() - i,
            {
                let name = &list[i];
                if !self.contains_key(name.as_str()) {
                    unknown.push(name.clone());
                }
                proof {
                    let next = wanted.take(i + 1);
                    assert(next.drop_last() =~= wanted.take(i as int));
                    assert(next.last() == name@);
                    reveal(Seq::filter);
                }
                i += 1;
            }
            assert(wanted.take(list.len() as int) =~= wanted);
        }
        unknown
    }
}

impl Clone for Canisters {
    fn clone(&self) -> (r: Self)
        ensures
            r@ == self@,
    {
        proof {
            use_type_invariant(self);
        }
        let mut entries: Vec<(String, RustCanisterCfg)> = Vec::new();
        let mut i: usize = 0;
        while i < self.entries.len()
            invariant
                i <= self.entries.len(),
                entries@.len() == i,
                forall|k: int|
                    0 <= k < i ==> entries@[k].0@ == self.entries@[k].0@ && entries@[k].1@
                        == self.entries@[k].1@,
            decreases self.entries.len() - i,
        {
            entries.push((self.entries[i].0.clone(), self.entries[i].1.clone()));
            i += 1;
        }
        proof {
            assert(names_of(entries@) =~= names_of(self.entries@));
            assert forall|name: Seq<char>| map_of(entries@).contains_key(name) implies map_of(
                entries@,
            )[name] == map_of(self.entries@)[name] by {
                let j = names_of(entries@).index_of(name);
                lemma_map_of_entry(entries@, j);
                lemma_map_of_entry(self.entries@, j);
            }
        }
        Canisters { entries }
    }
}

impl Default for Canisters {
    fn default() -> (r: Self)
        ensures
            r@ == Map::<Seq<char>, CanisterView>::empty(),
    {
        Canisters::new()
    }
}

/// Without a selection the registry stays as it is.
pub proof fn lemma_no_selection_keeps_all(registry: Map<Seq<char>, CanisterView>)
    ensures
        filtered(registry, None) == registry,
{
}

/// A selection leaves exactly the canisters that it names and the registry
/// knows, each as the registry holds it.
pub proof fn lemma_selection_is_exact(
    registry: Map<Seq<char>, CanisterView>,
    list: Seq<Seq<char>>,
    name: Seq<char>,
)
    ensures
        filtered(registry, Some(list)).contains_key(name) <==> (list.contains(name)
            && registry.contains_key(name)),
        filtered(registry, Some(list)).contains_key(name) ==> filtered(registry, Some(list))[name]
            == registry[name],
{
}

/// A selected name is either kept by the selection or told as unknown, never
/// both: it is told as unknown where the registry does not know it, and what
/// is told as unknown is a selected name.
pub proof fn lemma_unknown_names_are_the_rest(
    registry: Map<Seq<char>, CanisterView>,
    list: Seq<Seq<char>>,
    name: Seq<char>,
)
    ensures
        unknown_names(registry, Some(list)).contains(name) <==> (list.contains(name)
            && !registry.contains_key(name)),
        list.contains(name) ==> (unknown_names(registry, Some(list)).contains(name)
            <==> !filtered(registry, Some(list)).contains_key(name)),
{
    let unknown = |n: Seq<char>| !registry.contains_key(n);
    if list.filter(unknown).contains(name) {
        list.lemma_filter_contains_rev(unknown, name);
    }
    if list.contains(name) && !registry.contains_key(name) {
        list.lemma_filter_contains(unknown, list.index_of(name));
    }
}

} // verus!
