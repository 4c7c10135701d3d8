//! The environment: the single flat mapping from variable name to value
//! that one program run mutates. A value is an ordered sequence of
//! integers: length one encodes a scalar, anything longer a vector (or
//! the one row a matrix declaration allocates).

use vstd::prelude::*;
use vstd::map::*;

use crate::token::Token;

verus! {

/// One binding: a name and the integer sequence bound to it.
#[derive(Debug, PartialEq)]
pub struct Binding {
    pub name: String,
    pub value: Vec<i128>,
}

/// The mapping a list of bindings denotes; a later binding for the same
/// name would win, though a well-formed environment never holds two.
pub open spec fn env_map(entries: Seq<Binding>) -> Map<Seq<char>, Seq<i128>>
    decreases entries.len(),
{
    if entries.len() == 0 {
        Map::empty()
    } else {
        env_map(entries.drop_last()).insert(entries.last().name@, entries.last().value@)
    }
}

/// No two bindings share a name.
pub open spec fn distinct_names(entries: Seq<Binding>) -> bool {
    forall|i: int, j: int|
        0 <= i < j < entries.len() ==> (#[trigger] entries[i].name@) != (#[trigger] entries[j].name@)
}

/// A binding present in a well-formed list is what the denoted map holds
/// for its name.
proof fn lemma_env_map_found(entries: Seq<Binding>, i: int)
    requires
        distinct_names(entries),
        0 <= i < entries.len(),
    ensures
        env_map(entries).contains_key(entries[i].name@),
        env_map(entries)[entries[i].name@] == entries[i].value@,
    decreases entries.len(),
{
    if i < entries.len() - 1 {
        assert(distinct_names(entries.drop_last())) by {
            assert(forall|p: int, q: int|
                0 <= p < q < entries.len() - 1 ==> (#[trigger] entries.drop_last()[p].name@)
                    != (#[trigger] entries.drop_last()[q].name@)) by {
                assert(forall|p: int| 0 <= p < entries.len() - 1 ==> entries.drop_last()[p] == entries[p]);
            }
        }
        lemma_env_map_found(entries.drop_last(), i);
        assert(entries.drop_last()[i] == entries[i]);
        assert(entries[i].name@ != entries.last().name@);
    }
}

/// A name no binding carries is absent from the denoted map.
proof fn lemma_env_map_absent(entries: Seq<Binding>, k: Seq<char>)
    requires
        forall|i: int| 0 <= i < entries.len() ==> (#[trigger] entries[i].name@) != k,
    ensures
        !env_map(entries).contains_key(k),
    decreases entries.len(),
{
    if entries.len() > 0 {
        assert(forall|i: int|
            0 <= i < entries.len() - 1 ==> (#[trigger] entries.drop_last()[i].name@) != k) by {
            assert(forall|i: int| 0 <= i < entries.len() - 1 ==> entries.drop_last()[i] == entries[i]);
        }
        lemma_env_map_absent(entries.drop_last(), k);
    }
}

/// Replacing the binding at `i` by one for the same name denotes an
/// insert over the old map.
proof fn lemma_env_map_update(entries: Seq<Binding>, i: int, b: Binding)
    requires
        distinct_names(entries),
        0 <= i < entries.len(),
        b.name@ == entries[i].name@,
    ensures
        env_map(entries.update(i, b)) =~= env_map(entries).insert(b.name@, b.value@),
        distinct_names(entries.update(i, b)),
    decreases entries.len(),
{
    let updated = entries.update(i, b);
    assert(distinct_names(updated)) by {
        assert(forall|p: int|
            0 <= p < entries.len() ==> (#[trigger] updated[p].name@) == entries[p].name@);
    }
    if i == entries.len() - 1 {
        assert(updated.drop_last() =~= entries.drop_last());
        assert(updated.last() == b);
    } else {
        assert(updated.drop_last() =~= entries.drop_last().update(i, b));
        assert(distinct_names(entries.drop_last())) by {
            assert(forall|p: int| 0 <= p < entries.len() - 1 ==> entries.drop_last()[p] == entries[p]);
        }
        assert(entries.drop_last()[i] == entries[i]);
        lemma_env_map_update(entries.drop_last(), i, b);
        assert(updated.last() == entries.last());
        assert(b.name@ != entries.last().name@);
    }
}

/// The flat name-to-value store of one program run. Names enter it only
/// through [`Environment::define`]; [`Environment::assign`] silently does
/// nothing for a name that was never defined.
pub struct Environment {
    values: Vec<Binding>,
}

impl View for Environment {
    type V = Map<Seq<char>, Seq<i128>>;

    closed spec fn view(&self) -> Map<Seq<char>, Seq<i128>> {
        env_map(self.values@)
    }
}

impl Environment {
    /// The environment's invariant: no name is bound twice.
    pub closed spec fn wf(self) -> bool {
        distinct_names(self.values@)
    }

    /// An empty environment.
    pub fn new() -> (env: Environment)
        ensures
            env.wf(),
            env@ == Map::<Seq<char>, Seq<i128>>::empty(),
    {
        Environment { values: Vec::new() }
    }

    /// The index of the binding for `name`, if one exists.
    fn find(&self, name: &str) -> (r: Option<usize>)
        requires
            self.wf(),
        ensures
            match r {
                Some(i) => i < self.values@.len() && self.values@[i as int].name@ == name@,
                None => !self@.contains_key(name@),
            },
    {
        let n = self.values.len();
        let mut i: usize = 0;
        while i < n
            invariant
                self.wf(),
                0 <= i <= n,
                n == self.values@.len(),
                forall|j: int| 0 <= j < i ==> (#[trigger] self.values@[j].name@) != name@,
            decreases n - i,
        {
            if crate::token::str_eq(self.values[i].name.as_str(), name) {
                return Some(i);
            }
            i = i + 1;
        }
        proof {
            lemma_env_map_absent(self.values@, name@);
        }
        None
    }

    /// Binds `name` to `value`, creating the binding or replacing the one
    /// that exists: afterwards the environment maps `name` to `value` and
    /// everything else as before.
    pub fn define(&mut self, name: String, value: Vec<i128>)
        requires
            old(self).wf(),
        ensures
            final(self).wf(),
            final(self)@ == old(self)@.insert(name@, value@),
    {
        match self.find(name.as_str()) {
            Some(i) => {
                let ghost entries = self.values@;
                let b = Binding { name, value };
                proof {
                    lemma_env_map_update(entries, i as int, b);
                }
                self.values[i] = b;
            },
            None => {
                let ghost entries = self.values@;
                let b = Binding { name, value };
                self.values.push(b);
                proof {
                    assert(self.values@.drop_last() =~= entries);
                    assert(distinct_names(self.values@)) by {
                        assert(forall|p: int|
                            0 <= p < entries.len() ==> #[trigger] self.values@[p] == entries[p]);
                        assert(forall|p: int| 0 <= p < entries.len()
                            ==> (#[trigger] self.values@[p].name@) != b.name@) by {
                            if exists|p: int|
                                0 <= p < entries.len() && (#[trigger] self.values@[p].name@)
                                    == b.name@ {
                                let p = choose|p: int|
                                    0 <= p < entries.len() && (#[trigger] self.values@[p].name@)
                                        == b.name@;
                                lemma_env_map_found(entries, p);
                            }
                        }
                    }
                }
            },
        }
    }

    /// Rebinds `name` to `values` if a `Definition` has introduced it, and
    /// silently does nothing otherwise.
    pub fn assign(&mut self, name: Token, values: Vec<i128>)
        requires
            old(self).wf(),
        ensures
            final(self).wf(),
            final(self)@ == if old(self)@.contains_key(name@.val) {
                old(self)@.insert(name@.val, values@)
            } else {
                old(self)@
            },
    {
        match self.find(name.val.as_str()) {
            Some(i) => {
                let ghost entries = self.values@;
                let b = Binding { name: name.val, value: values };
                proof {
                    lemma_env_map_found(entries, i as int);
                    lemma_env_map_update(entries, i as int, b);
                }
                self.values[i] = b;
            },
            None => {},
        }
    }

    /// Looks `name` up: the bound value, or `None` for a name never
    /// defined.
    pub fn get(&mut self, name: Token) -> (r: Option<&Vec<i128>>)
        requires
            old(self).wf(),
        ensures
            *final(self) == *old(self),
            match r {
                Some(v) => old(self)@.contains_key(name@.val) && v@ == old(self)@[name@.val],
                None => !old(self)@.contains_key(name@.val),
            },
    {
        match self.find(name.val.as_str()) {
            Some(i) => {
                proof {
                    lemma_env_map_found(self.values@, i as int);
                }
                Some(&self.values[i].value)
            },
            None => None,
        }
    }
}

} // verus!
