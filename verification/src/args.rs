//! The named arguments of a message: values under names, each name once.

use crate::text::same_text;
use crate::value::{FluentValue, ValueView};
use vstd::prelude::*;

verus! {

/// The mapping that a sequence of named values builds up, entry by entry.
pub open spec fn map_of(pairs: Seq<(Seq<char>, ValueView)>) -> Map<Seq<char>, ValueView>
    decreases pairs.len(),
{
    if pairs.len() == 0 {
        Map::empty()
    } else {
        map_of(pairs.drop_last()).insert(pairs.last().0, pairs.last().1)
    }
}

/// No two entries have one name.
pub open spec fn distinct_names(pairs: Seq<(Seq<char>, ValueView)>) -> bool {
    forall|i: int, j: int| 0 <= i < j < pairs.len() ==> pairs[i].0 != pairs[j].0
}

/// The names of a mapping are the names of the entries that built it.
pub proof fn lemma_map_of_names(pairs: Seq<(Seq<char>, ValueView)>, name: Seq<char>)
    ensures
        map_of(pairs).contains_key(name) <==> exists|i: int|
            0 <= i < pairs.len() && pairs[i].0 == name,
    decreases pairs.len(),
{
    if pairs.len() > 0 {
        let shorter = pairs.drop_last();
        lemma_map_of_names(shorter, name);
        if map_of(pairs).contains_key(name) {
            if pairs.last().0 == name {
                assert(pairs[pairs.len() - 1].0 == name);
            } else {
                let i = choose|i: int| 0 <= i < shorter.len() && shorter[i].0 == name;
                assert(pairs[i].0 == name);
            }
        }
        if exists|i: int| 0 <= i < pairs.len() && pairs[i].0 == name {
            let i = choose|i: int| 0 <= i < pairs.len() && pairs[i].0 == name;
            if i < shorter.len() {
                assert(shorter[i].0 == name);
            }
        }
    }
}

/// Under distinct names, each entry is what the mapping holds under its
/// name.
pub proof fn lemma_map_of_entry(pairs: Seq<(Seq<char>, ValueView)>, at: int)
    requires
        distinct_names(pairs),
        0 <= at < pairs.len(),
    ensures
        map_of(pairs).contains_key(pairs[at].0),
        map_of(pairs)[pairs[at].0] == pairs[at].1,
    decreases pairs.len(),
{
    let shorter = pairs.drop_last();
    if at < pairs.len() - 1 {
        assert(distinct_names(shorter)) by {
            assert forall|i: int, j: int| 0 <= i < j < shorter.len() implies shorter[i].0
                != shorter[j].0 by {
                assert(pairs[i].0 != pairs[j].0);
            }
        }
        lemma_map_of_entry(shorter, at);
        assert(pairs[at].0 != pairs[pairs.len() - 1].0);
    }
}

/// Replacing the value of an entry replaces what the mapping holds under
/// its name.
pub proof fn lemma_map_of_update(pairs: Seq<(Seq<char>, ValueView)>, at: int, value: ValueView)
    requires
        distinct_names(pairs),
        0 <= at < pairs.len(),
    ensures
        map_of(pairs.update(at, (pairs[at].0, value))) == map_of(pairs).insert(pairs[at].0, value),
    decreases pairs.len(),
{
    let name = pairs[at].0;
    let changed = pairs.update(at, (name, value));
    let shorter = pairs.drop_last();
    if at == pairs.len() - 1 {
        assert(changed.drop_last() =~= shorter);
        assert(map_of(changed) =~= map_of(pairs).insert(name, value));
    } else {
        assert(distinct_names(shorter)) by {
            assert forall|i: int, j: int| 0 <= i < j < shorter.len() implies shorter[i].0
                != shorter[j].0 by {
                assert(pairs[i].0 != pairs[j].0);
            }
        }
        lemma_map_of_update(shorter, at, value);
        assert(changed.drop_last() =~= shorter.update(at, (name, value)));
        assert(pairs[at].0 != pairs[pairs.len() - 1].0);
        assert(map_of(changed) =~= map_of(pairs).insert(name, value));
    }
}

/// The entries of a list of named values as mathematical values.
pub open spec fn pairs_of(entries: Seq<(String, FluentValue)>) -> Seq<(Seq<char>, ValueView)> {
    Seq::new(entries.len(), |i: int| (entries[i].0@, entries[i].1@))
}

/// The named arguments that a caller supplies with a message.
#[derive(Debug)]
pub struct FluentArgs {
    entries: Vec<(String, FluentValue)>,
}

impl View for FluentArgs {
    type V = Map<Seq<char>, ValueView>;

    closed spec fn view(&self) -> Map<Seq<char>, ValueView> {
        map_of(self.pairs())
    }
}

impl FluentArgs {
    /// The entries in the order in which they are kept.
    pub closed spec fn pairs(&self) -> Seq<(Seq<char>, ValueView)> {
        pairs_of(self.entries@)
    }

    #[verifier::type_invariant]
    closed spec fn well_formed(&self) -> bool {
        distinct_names(self.pairs())
    }

    pub fn new() -> (args: Self)
        ensures
            args@ == Map::<Seq<char>, ValueView>::empty(),
            args.pairs().len() == 0,
    {
        let entries: Vec<(String, FluentValue)> = Vec::new();
        assert(pairs_of(entries@).len() == 0);
        FluentArgs { entries }
    }

    /// The number of entries. No two of them have one name, and together
    /// they build the mapping.
    pub fn len(&self) -> (count: usize)
        ensures
            count == self.pairs().len(),
            distinct_names(self.pairs()),
            self@ == map_of(self.pairs()),
    {
        proof {
            use_type_invariant(self);
        }
        self.entries.len()
    }

    /// The name of the entry at `index`.
    pub fn name_at(&self, index: usize) -> (name: &str)
        requires
            index < self.pairs().len(),
        ensures
            name@ == self.pairs()[index as int].0,
    {
        self.entries[index].0.as_str()
    }

    /// The value of the entry at `index`.
    pub fn value_at(&self, index: usize) -> (value: &FluentValue)
        requires
            index < self.pairs().len(),
        ensures
            value@ == self.pairs()[index as int].1,
    {
        &self.entries[index].1
    }

    /// The place of the entry named `name`, if there is one.
    fn position(&self, name: &str) -> (place: Option<usize>)
        ensures
            match place {
                Some(at) => at < self.pairs().len() && self.pairs()[at as int].0 == name@,
                None => !self@.contains_key(name@),
            },
    {
        let mut at: usize = 0;
        while at < self.entries.len()
            invariant
                at <= self.entries.len(),
                forall|j: int| 0 <= j < at ==> self.pairs()[j].0 != name@,
            decreases self.entries.len() - at,
        {
            if same_text(self.entries[at].0.as_str(), name) {
                return Some(at);
            }
            at = at + 1;
        }
        proof {
            lemma_map_of_names(self.pairs(), name@);
        }
        None
    }

    /// The value under `name`, if there is one.
    pub fn get(&self, name: &str) -> (value: Option<&FluentValue>)
        ensures
            match value {
                Some(found) => self@.contains_key(name@) && self@[name@] == found@,
                None => !self@.contains_key(name@),
            },
    {
        match self.position(name) {
            Some(at) => {
                proof {
                    use_type_invariant(self);
                    lemma_map_of_entry(self.pairs(), at as int);
                }
                Some(&self.entries[at].1)
            },
            None => None,
        }
    }

    /// Puts `value` under `name`, in place of what was there.
    pub fn set(&mut self, name: &str, value: FluentValue)
        ensures
            final(self)@ == old(self)@.insert(name@, value@),
    {
        proof {
            use_type_invariant(&*self);
        }
        let ghost before = self.pairs();
        let place = self.position(name);
        let mut taken = FluentArgs::new();
        core::mem::swap(self, &mut taken);
        let mut entries = taken.entries;
        match place {
            Some(at) => {
                proof {
                    lemma_map_of_update(before, at as int, value@);
                }
                entries.set(at, (String::from_str(name), value));
            },
            None => {
                proof {
                    lemma_map_of_names(before, name@);
                }
                entries.push((String::from_str(name), value));
            },
        }
        proof {
            let after = pairs_of(entries@);
            match place {
                Some(at) => {
                    assert(after =~= before.update(at as int, (name@, value@)));
                    assert forall|i: int, j: int| 0 <= i < j < after.len() implies after[i].0
                        != after[j].0 by {
                        assert(before[i].0 != before[j].0);
                    }
                },
                None => {
                    assert(after.drop_last() =~= before);
                    assert forall|i: int, j: int| 0 <= i < j < after.len() implies after[i].0
                        != after[j].0 by {
                        if j < before.len() {
                            assert(before[i].0 != before[j].0);
                        } else {
                            assert(before[i].0 != name@);
                        }
                    }
                },
            }
        }
        *self = FluentArgs { entries };
    }
}

} // verus!
