//! A store of records that holds at most one record under each key.
//!
//! It stands in for storage that is addressed by key and refuses to create a
//! record where one exists: the votes of a voter on a proposal, the grant of
//! a beneficiary.

use vstd::prelude::*;

verus! {

/// A record that is stored under a key.
pub trait Keyed: Sized {
    /// What tells one record from another.
    type Key;

    /// The key of the record.
    spec fn key(&self) -> Self::Key;

    /// The key of the record.
    fn to_key(&self) -> (key: Self::Key)
        ensures
            key == self.key(),
    ;

    /// Whether the record is stored under `key`.
    fn has_key(&self, key: &Self::Key) -> (yes: bool)
        ensures
            yes == (self.key() == *key),
    ;
}

/// Whether `records` holds a record under `key`.
pub open spec fn holds<R: Keyed>(records: Seq<R>, key: R::Key) -> bool {
    exists|i: int| 0 <= i < records.len() && (#[trigger] records[i]).key() == key
}

/// No two of `records` have the same key.
pub open spec fn keys_distinct<R: Keyed>(records: Seq<R>) -> bool {
    forall|i: int, j: int|
        0 <= i < j < records.len() ==> (#[trigger] records[i]).key() != (#[trigger] records[j]).key()
}

/// A record whose key is not held yet can be added, and its key is held from
/// then on.
pub proof fn lemma_new_key_fits<R: Keyed>(records: Seq<R>, record: R)
    requires
        keys_distinct(records),
        !holds(records, record.key()),
    ensures
        keys_distinct(records.push(record)),
        holds(records.push(record), record.key()),
{
    let after = records.push(record);
    assert forall|i: int, j: int| 0 <= i < j < after.len() implies (#[trigger] after[i]).key() != (
    #[trigger] after[j]).key() by {
        if j == after.len() - 1 {
            assert(after[i] == records[i]);
        }
    }
    assert(after[records.len() as int] == record);
}

/// The records created so far, at most one under each key, in the order in
/// which they came.
pub struct Registry<R: Keyed> {
    records: Vec<R>,
}

impl<R: Keyed> View for Registry<R> {
    type V = Seq<R>;

    closed spec fn view(&self) -> Seq<R> {
        self.records@
    }
}

impl<R: Keyed> Registry<R> {
    /// Holds of every registry.
    #[verifier::type_invariant]
    pub open spec fn well_formed(self) -> bool {
        keys_distinct(self@)
    }

    /// A registry without records.
    pub fn new() -> (registry: Self)
        ensures
            registry@ == Seq::<R>::empty(),
    {
        Registry { records: Vec::new() }
    }

    /// The number of records held.
    pub fn len(&self) -> (n: usize)
        ensures
            n == self@.len(),
    {
        self.records.len()
    }

    /// The records held, in the order in which they came.
    pub fn records(&self) -> (records: &Vec<R>)
        ensures
            records@ == self@,
            keys_distinct(self@),
    {
        proof {
            use_type_invariant(self);
        }
        &self.records
    }

    /// Whether a record is held under `key`.
    pub fn contains(&self, key: &R::Key) -> (found: bool)
        ensures
            found == holds(self@, *key),
    {
        let n = self.records.len();
        let mut i: usize = 0;
        while i < n
            invariant
                i <= n,
                n == self.records@.len(),
                forall|k: int| 0 <= k < i ==> (#[trigger] self.records@[k]).key() != *key,
            decreases n - i,
        {
            if self.records[i].has_key(key) {
                return true;
            }
            i += 1;
        }
        false
    }

    /// Stores `record` if none is held under its key yet, and says whether
    /// it did. A record that is refused changes nothing.
    pub fn create(&mut self, record: R) -> (created: bool)
        ensures
            created == !holds(old(self)@, record.key()),
            created ==> final(self)@ == old(self)@.push(record),
            !created ==> final(self)@ == old(self)@,
            keys_distinct(final(self)@),
    {
        proof {
            use_type_invariant(&*self);
        }
        let key = record.to_key();
        if self.contains(&key) {
            false
        } else {
            self.insert(record);
            true
        }
    }

    /// Adds a record whose key is not held yet.
    pub(crate) fn insert(&mut self, record: R)
        requires
            !holds(old(self)@, record.key()),
        ensures
            final(self)@ == old(self)@.push(record),
            keys_distinct(final(self)@),
    {
        proof {
            use_type_invariant(&*self);
            lemma_new_key_fits(self.records@, record);
        }
        // The records are taken out and put back, so that the registry is at
        // no time without its invariant.
        let mut records: Vec<R> = Vec::new();
        core::mem::swap(&mut self.records, &mut records);
        records.push(record);
        self.records = records;
    }
}

} // verus!
