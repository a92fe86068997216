//! The evaluation environment: a flat table from identifiers to domain
//! values, created fresh for each evaluation pass. Defining a name that
//! already exists silently overwrites it; every other form only reads.

use vstd::prelude::*;
use crate::types::{InnerType, InnerTypeV};

verus! {

broadcast use vstd::std_specs::vec::group_vec_axioms, vstd::seq::group_seq_axioms;

/// The map written by a sequence of bindings, later entries overriding
/// earlier ones.
pub open spec fn env_map(s: Seq<(String, InnerType)>) -> Map<Seq<char>, InnerTypeV>
    decreases s.len(),
{
    if s.len() == 0 {
        Map::empty()
    } else {
        env_map(s.drop_last()).insert(s.last().0@, s.last().1.view())
    }
}

/// If no entry from `i` on carries `name`, the bindings up to `i` decide
/// `name` alone.
proof fn lemma_env_map_skip(s: Seq<(String, InnerType)>, name: Seq<char>, i: int)
    requires
        0 <= i <= s.len(),
        forall|t: int| i <= t < s.len() ==> #[trigger] s[t].0@ != name,
    ensures
        env_map(s).contains_key(name) == env_map(s.subrange(0, i)).contains_key(name),
        env_map(s).contains_key(name) ==> env_map(s)[name] == env_map(s.subrange(0, i))[name],
    decreases s.len() - i,
{
    if i < s.len() {
        let s2 = s.subrange(0, s.len() - 1);
        assert(s2 == s.drop_last());
        lemma_env_map_skip(s2, name, i);
        assert(s2.subrange(0, i) =~= s.subrange(0, i));
    } else {
        assert(s.subrange(0, i) =~= s);
    }
}

/// A nonempty table whose last entry carries `name` maps `name` to that
/// entry's value.
proof fn lemma_env_map_last(s: Seq<(String, InnerType)>, name: Seq<char>)
    requires
        s.len() > 0,
        s.last().0@ == name,
    ensures
        env_map(s).contains_key(name),
        env_map(s)[name] == s.last().1.view(),
{
}

/// A name-to-value binding table.
pub struct Environment {
    entries: Vec<(String, InnerType)>,
}

impl Environment {
    /// The table as a map from names to (the views of) their values.
    pub closed spec fn view(self) -> Map<Seq<char>, InnerTypeV> {
        env_map(self.entries@)
    }

    /// An empty table.
    pub fn new() -> (r: Environment)
        ensures
            r.view() == Map::<Seq<char>, InnerTypeV>::empty(),
    {
        Environment { entries: Vec::new() }
    }

    /// Binds `name` to `value`, overwriting any earlier binding.
    pub fn define(&mut self, name: String, value: InnerType)
        ensures
            final(self).view() == old(self).view().insert(name@, value.view()),
    {
        let ghost old_entries = self.entries@;
        let ghost name_v = name@;
        let ghost value_v = value.view();
        self.entries.push((name, value));
        proof {
            assert(self.entries@.drop_last() =~= old_entries);
            assert(self.entries@.last().0@ == name_v);
            assert(self.entries@.last().1.view() == value_v);
        }
    }

    /// Looks the most recent binding of `name` up, or reports that none
    /// exists.
    pub fn lookup(&self, name: &String) -> (r: Option<InnerType>)
        ensures
            match r {
                Some(v) => self.view().contains_key(name@) && v.view() == self.view()[name@],
                None => !self.view().contains_key(name@),
            },
    {
        let mut i = self.entries.len();
        while i > 0
            invariant
                i <= self.entries@.len(),
                forall|t: int| i <= t < self.entries@.len() ==> #[trigger] self.entries@[t].0@
                    != name@,
            decreases i,
        {
            i = i - 1;
            let entry = &self.entries[i];
            if entry.0 == *name {
                proof {
                    let prefix = self.entries@.subrange(0, i + 1);
                    lemma_env_map_skip(self.entries@, name@, i + 1);
                    lemma_env_map_last(prefix, name@);
                }
                return Some(entry.1.clone());
            }
        }
        proof {
            lemma_env_map_skip(self.entries@, name@, 0);
            assert(self.entries@.subrange(0, 0) =~= Seq::<(String, InnerType)>::empty());
        }
        None
    }
}

} // verus!
