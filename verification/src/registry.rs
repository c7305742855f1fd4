//! The process-wide datatable registry: a scope key to registered table
//! directory, populated once at boot and read-only afterwards, so lookups
//! need no locking.

use vstd::prelude::*;

verus! {

/// First value registered under `key`, if any.
pub open spec fn spec_registry_lookup<T>(entries: Seq<(String, T)>, key: Seq<char>) -> Option<T>
    decreases entries.len(),
{
    if entries.len() == 0 {
        None
    } else if entries[0].0@ == key {
        Some(entries[0].1)
    } else {
        spec_registry_lookup(entries.drop_first(), key)
    }
}

/// A directory from scope keys to registered tables.
///
/// Registration happens during startup; afterwards the registry is shared
/// read-only, so concurrent lookups are plain reads.
#[derive(Debug)]
pub struct DataTableRegistry<T> {
    entries: Vec<(String, T)>,
}

impl<T> View for DataTableRegistry<T> {
    type V = Seq<(String, T)>;

    closed spec fn view(&self) -> Seq<(String, T)> {
        self.entries@
    }
}

impl<T> DataTableRegistry<T> {
    /// Scope keys are unique.
    pub open spec fn wf(self) -> bool {
        forall|i: int, j: int| 0 <= i < j < self@.len() ==> self@[i].0@ != self@[j].0@
    }

    /// An empty registry.
    pub fn new() -> (r: DataTableRegistry<T>)
        ensures
            r@ =~= Seq::<(String, T)>::empty(),
            r.wf(),
    {
        DataTableRegistry { entries: Vec::new() }
    }

    /// Number of registered tables.
    pub fn len(&self) -> (r: usize)
        ensures
            r == self@.len(),
    {
        self.entries.len()
    }

    /// Registers `value` under a fresh scope key. Keys are unique by
    /// construction: registering the same key twice is a boot-time bug and
    /// excluded by precondition.
    pub fn register_as(&mut self, key: &str, value: T)
        requires
            old(self).wf(),
            spec_registry_lookup(old(self)@, key@) is None,
        ensures
            final(self).wf(),
            final(self)@.len() == old(self)@.len() + 1,
            final(self)@.last().0@ == key@,
            final(self)@.last().1 == value,
            final(self)@.drop_last() == old(self)@,
    {
        proof {
            lemma_registry_none_means_absent(self.entries@, key@);
        }
        self.entries.push((String::from_str(key), value));
        proof {
            assert(final(self)@.drop_last() =~= old(self)@);
        }
    }

    /// The table registered under `key`, if any.
    pub fn lookup(&self, key: &str) -> (r: Option<&T>)
        ensures
            match r {
                Some(v) => spec_registry_lookup(self@, key@) == Some(*v),
                None => spec_registry_lookup(self@, key@) is None,
            },
    {
        let n = self.entries.len();
        proof {
            assert(self.entries@.subrange(0, n as int) =~= self.entries@);
        }
        let mut i: usize = 0;
        while i < n
            invariant
                0 <= i <= n,
                n == self.entries@.len(),
                spec_registry_lookup(self.entries@, key@) == spec_registry_lookup(
                    self.entries@.subrange(i as int, n as int),
                    key@,
                ),
            decreases n - i,
        {
            proof {
                let cur = self.entries@.subrange(i as int, n as int);
                assert(cur.drop_first() =~= self.entries@.subrange(i as int + 1, n as int));
                assert(cur[0] == self.entries@[i as int]);
            }
            if crate::text::str_eq(self.entries[i].0.as_str(), key) {
                return Some(&self.entries[i].1);
            }
            i = i + 1;
        }
        proof {
            assert(self.entries@.subrange(n as int, n as int) =~= Seq::<(String, T)>::empty());
        }
        None
    }
}

/// A key that lookup does not find is held by no entry.
proof fn lemma_registry_none_means_absent<T>(entries: Seq<(String, T)>, key: Seq<char>)
    requires
        spec_registry_lookup(entries, key) is None,
    ensures
        forall|i: int| 0 <= i < entries.len() ==> entries[i].0@ != key,
    decreases entries.len(),
{
    if entries.len() > 0 {
        lemma_registry_none_means_absent(entries.drop_first(), key);
        assert forall|i: int| 0 <= i < entries.len() implies entries[i].0@ != key by {
            if i > 0 {
                assert(entries.drop_first()[i - 1] == entries[i]);
            }
        }
    }
}

} // verus!
