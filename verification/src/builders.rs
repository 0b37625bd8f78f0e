//! The builders of a set of factors while an instance is being prepared,
//! and the context through which a factor reaches the builders of others.
use vstd::prelude::*;
use crate::error::{BuilderUnavailable, FactorError};
use crate::lookup::{first_index, is_first_index, lemma_first_index_is_first, lemma_first_index_unique};

verus! {

/// The factor identities of the entries of a builder table, in order.
pub open spec fn entry_ids<B>(entries: Seq<(u64, Option<B>)>) -> Seq<u64> {
    entries.map_values(|e: (u64, Option<B>)| e.0)
}

/// What looking `id` up in a builder table finds: `None` when no entry has
/// that identity, else the builder slot of the first entry that has it.
pub open spec fn slot_of<B>(entries: Seq<(u64, Option<B>)>, id: u64) -> Option<Option<B>> {
    match first_index(entry_ids(entries), id) {
        Some(i) => Some(entries[i].1),
        None => None,
    }
}

/// The table of a fresh preparation: one empty slot per factor.
pub open spec fn empty_entries<B>(ids: Seq<u64>) -> Seq<(u64, Option<B>)> {
    ids.map_values(|id: u64| (id, None::<B>))
}

/// The table after the builders of the first `prepared.len()` factors were
/// prepared, in order, starting from a fresh table for `ids`.
pub open spec fn entries_after<B>(ids: Seq<u64>, prepared: Seq<B>) -> Seq<(u64, Option<B>)>
    decreases prepared.len(),
{
    if prepared.len() == 0 {
        empty_entries(ids)
    } else {
        let i = prepared.len() - 1;
        let before = entries_after(ids, prepared.drop_last());
        if i < before.len() {
            before.update(i, (before[i].0, Some(prepared.last())))
        } else {
            before
        }
    }
}

/// The table after preparing the builders `prepared` of the first factors
/// keeps the identities `ids`, holds those builders in the first slots and
/// has every later slot empty.
pub proof fn lemma_entries_after<B>(ids: Seq<u64>, prepared: Seq<B>)
    requires
        prepared.len() <= ids.len(),
    ensures
        entries_after(ids, prepared).len() == ids.len(),
        entry_ids(entries_after(ids, prepared)) == ids,
        forall|j: int|
            0 <= j < prepared.len() ==> #[trigger] entries_after(ids, prepared)[j].1 == Some(prepared[j]),
        forall|j: int|
            prepared.len() <= j < ids.len() ==> #[trigger] entries_after(ids, prepared)[j].1 is None,
    decreases prepared.len(),
{
    if prepared.len() == 0 {
        assert(entry_ids(empty_entries::<B>(ids)) =~= ids);
    } else {
        let rest = prepared.drop_last();
        lemma_entries_after(ids, rest);
        let before = entries_after(ids, rest);
        let after = entries_after(ids, prepared);
        assert(entry_ids(after) =~= ids);
        assert forall|j: int| 0 <= j < prepared.len() implies #[trigger] after[j].1 == Some(prepared[j]) by {
            if j < rest.len() {
                assert(after[j] == before[j]);
            }
        }
        assert forall|j: int| prepared.len() <= j < ids.len() implies #[trigger] after[j].1 is None by {
            assert(after[j] == before[j]);
        }
    }
}

/// While a set is being prepared, the context handed to a factor reaches
/// exactly the builders of the factors declared before it: after the
/// builders `prepared` of the first factors were prepared, in order, looking
/// up a factor type finds its builder when the first factor of that type is
/// among them, finds that factor's builder not yet prepared when it comes
/// later, and finds no factor when the set has none of that type.
pub proof fn prepare_sees_earlier_builders<B>(ids: Seq<u64>, prepared: Seq<B>, id: u64)
    requires
        prepared.len() <= ids.len(),
    ensures
        first_index(ids, id) is None ==> slot_of(entries_after(ids, prepared), id) is None,
        first_index(ids, id) matches Some(j) ==> (j < prepared.len() ==> slot_of(
            entries_after(ids, prepared),
            id,
        ) == Some(Some(prepared[j]))),
        first_index(ids, id) matches Some(j) ==> (j >= prepared.len() ==> slot_of(
            entries_after(ids, prepared),
            id,
        ) == Some(None::<B>)),
{
    lemma_entries_after(ids, prepared);
    lemma_first_index_is_first(ids, id);
}

/// What is written through the builder that a lookup hands out is what
/// the next lookup of the same factor type finds, and the lookups of other
/// factor types find what they found before.
pub proof fn builder_write_is_seen<B>(entries: Seq<(u64, Option<B>)>, id: u64, written: B, other: u64)
    requires
        slot_of(entries, id) matches Some(Some(_)),
    ensures
        slot_of(
            entries.update(first_index(entry_ids(entries), id)->0, (id, Some(written))),
            id,
        ) == Some(Some(written)),
        other != id ==> slot_of(
            entries.update(first_index(entry_ids(entries), id)->0, (id, Some(written))),
            other,
        ) == slot_of(entries, other),
{
    let ids = entry_ids(entries);
    lemma_first_index_is_first(ids, id);
    let i = first_index(ids, id)->0;
    let updated = entries.update(i, (id, Some(written)));
    assert(entry_ids(updated) =~= ids);
    lemma_first_index_is_first(ids, other);
    if other != id && ids.contains(other) {
        let k = first_index(ids, other)->0;
        assert(k != i);
    }
}

/// Exactly the first `k` slots of `entries` hold a prepared builder.
pub open spec fn prepared_prefix<B>(entries: Seq<(u64, Option<B>)>, k: int) -> bool {
    &&& 0 <= k <= entries.len()
    &&& forall|j: int| 0 <= j < entries.len() ==> ((#[trigger] entries[j]).1 is Some <==> j < k)
}

/// A table of the factors `ids` in which exactly the first `k` builders are
/// prepared is the table that preparing those builders, in order, makes.
pub proof fn prepared_prefix_is_entries_after<B>(entries: Seq<(u64, Option<B>)>, ids: Seq<u64>, k: int)
    requires
        entry_ids(entries) == ids,
        prepared_prefix(entries, k),
    ensures
        entries == entries_after(ids, Seq::new(k as nat, |j: int| entries[j].1->0)),
{
    let prepared = Seq::new(k as nat, |j: int| entries[j].1->0);
    lemma_entries_after(ids, prepared);
    let after = entries_after(ids, prepared);
    assert(entries.len() == ids.len());
    assert forall|j: int| 0 <= j < entries.len() implies entries[j] == after[j] by {
        assert(entry_ids(entries)[j] == entries[j].0);
        assert(entry_ids(after)[j] == after[j].0);
        if j < k {
            assert(after[j].1 == Some(prepared[j]));
        } else {
            assert(after[j].1 is None);
        }
    }
    assert(entries =~= after);
}

/// `after` keeps the factors of `before`, in order, and which of them have a
/// prepared builder: only builders themselves may differ.
pub open spec fn same_shape<B>(before: Seq<(u64, Option<B>)>, after: Seq<(u64, Option<B>)>) -> bool {
    &&& after.len() == before.len()
    &&& forall|j: int|
        0 <= j < before.len() ==> (#[trigger] after[j]).0 == before[j].0 && (after[j].1 is Some
            <==> before[j].1 is Some)
}

/// One optional builder per factor of a set, each under the identity of its
/// factor's type, in the order in which the factors are declared.
pub struct InstanceBuilders<B> {
    entries: Vec<(u64, Option<B>)>,
}

impl<B> View for InstanceBuilders<B> {
    type V = Seq<(u64, Option<B>)>;

    closed spec fn view(&self) -> Seq<(u64, Option<B>)> {
        self.entries@
    }
}

impl<B> InstanceBuilders<B> {
    /// A table with an empty slot for each identity of `ids`.
    pub fn new(ids: &Vec<u64>) -> (r: Self)
        ensures
            r@ == empty_entries::<B>(ids@),
    {
        let n = ids.len();
        let mut entries: Vec<(u64, Option<B>)> = Vec::new();
        while entries.len() < n
            invariant
                n == ids@.len(),
                entries@.len() <= n,
                entries@ =~= empty_entries::<B>(ids@.take(entries@.len() as int)),
            decreases n - entries@.len(),
        {
            let k = entries.len();
            entries.push((ids[k], None));
            assert(ids@.take(k + 1) =~= ids@.take(k as int).push(ids@[k as int]));
        }
        assert(ids@.take(n as int) =~= ids@);
        InstanceBuilders { entries }
    }

    /// The number of factors in the table.
    pub fn len(&self) -> (n: usize)
        ensures
            n == self@.len(),
    {
        self.entries.len()
    }

    /// The position of the first factor whose identity is `id`.
    fn position(&self, id: u64) -> (r: Option<usize>)
        ensures
            match r {
                Some(i) => first_index(entry_ids(self@), id) == Some(i as int)
                    && i < self@.len() && self@[i as int].0 == id,
                None => first_index(entry_ids(self@), id) is None,
            },
    {
        let n = self.entries.len();
        let mut i: usize = 0;
        let ghost ids = entry_ids(self@);
        while i < n
            invariant
                n == self@.len(),
                ids == entry_ids(self@),
                i <= n,
                forall|j: int| 0 <= j < i ==> ids[j] != id,
            decreases n - i,
        {
            if self.entries[i].0 == id {
                proof {
                    assert(is_first_index(ids, id, i as int));
                    let k = choose|k: int| is_first_index(ids, id, k);
                    lemma_first_index_unique(ids, id, i as int, k);
                }
                return Some(i);
            }
            i = i + 1;
        }
        proof {
            if ids.contains(id) {
                let k = choose|k: int| 0 <= k < ids.len() && ids[k] == id;
                assert(ids[k] != id);
            }
        }
        None
    }

    /// The builder slot of the first factor whose identity is `id`:
    /// `None` when there is none, `Some(None)` when its builder is not
    /// prepared yet, else a mutable reference to its builder.
    pub fn builder_mut(&mut self, id: u64) -> (r: Option<Option<&mut B>>)
        ensures
            match slot_of(old(self)@, id) {
                None => r is None && final(self)@ == old(self)@,
                Some(None) => r matches Some(None) && final(self)@ == old(self)@,
                Some(Some(b)) => r matches Some(Some(m)) && *m == b && (
                    final(self)@ == old(self)@.update(
                        first_index(entry_ids(old(self)@), id)->0,
                        (id, Some(*final(m))),
                    )),
            },
    {
        match self.position(id) {
            None => None,
            Some(i) => {
                let entry = &mut self.entries[i];
                match &mut entry.1 {
                    None => Some(None),
                    Some(b) => Some(Some(b)),
                }
            },
        }
    }

    /// Stores `builder` in the slot of the factor at `index`; a table with
    /// no such position is left as it is.
    pub fn install(&mut self, index: usize, builder: B)
        ensures
            index < old(self)@.len() ==> final(self)@ == old(self)@.update(
                index as int,
                (old(self)@[index as int].0, Some(builder)),
            ),
            index >= old(self)@.len() ==> final(self)@ == old(self)@,
    {
        if index < self.entries.len() {
            let id = self.entries[index].0;
            self.entries.set(index, (id, Some(builder)));
        }
    }

    /// Takes the builder out of the slot of the factor at `index`, leaving
    /// the slot empty.
    pub fn take(&mut self, index: usize) -> (r: Option<B>)
        ensures
            index < old(self)@.len() ==> r == old(self)@[index as int].1 && final(self)@
                == old(self)@.update(index as int, (old(self)@[index as int].0, None)),
            index >= old(self)@.len() ==> r is None && final(self)@ == old(self)@,
    {
        if index < self.entries.len() {
            let entry = &mut self.entries[index];
            entry.1.take()
        } else {
            None
        }
    }
}

/// What a factor's preparation gets: access to the builders of the factors
/// of the set that are prepared before it.
pub struct PrepareContext<'a, B> {
    builders: &'a mut InstanceBuilders<B>,
}

/// The error for a builder of `factor_type` that is unavailable for `reason`.
pub open spec fn is_unavailable_error(e: FactorError, factor_type: Seq<char>, reason: BuilderUnavailable) -> bool {
    e matches FactorError::BuilderUnavailable { factor_type: t, reason: r } && t@ == factor_type && r == reason
}

impl<'a, B> PrepareContext<'a, B> {
    /// The builder table this context gives access to.
    pub closed spec fn entries(&self) -> Seq<(u64, Option<B>)> {
        self.builders@
    }

    /// The borrow of the lender's builder table that this context holds.
    pub closed spec fn borrowed(&self) -> &'a mut InstanceBuilders<B> {
        self.builders
    }

    /// A context that borrows `builders`: it sees that table, and the lender
    /// gets back the table as the context leaves it.
    pub fn new(builders: &'a mut InstanceBuilders<B>) -> (r: Self)
        ensures
            r.entries() == old(builders)@,
            final(r.borrowed())@ == final(builders)@,
    {
        PrepareContext { builders }
    }

    /// Ends this context, handing the lender's table back as it is now.
    pub fn finish(self)
        ensures
            final(self.borrowed())@ == self.entries(),
    {
        let PrepareContext { builders } = self;
    }

    /// The builder of the first factor whose identity is `id`; `factor_type`
    /// names that type in the error when there is no such factor or its
    /// builder is not prepared yet.
    pub fn builder_mut(&mut self, id: u64, factor_type: &str) -> (r: Result<&mut B, FactorError>)
        ensures
            final(final(self).borrowed())@ == final(old(self).borrowed())@,
            match slot_of(old(self).entries(), id) {
                None => r matches Err(e) && is_unavailable_error(
                    e,
                    factor_type@,
                    BuilderUnavailable::NoSuchFactor,
                ) && final(self).entries() == old(self).entries(),
                Some(None) => r matches Err(e) && is_unavailable_error(
                    e,
                    factor_type@,
                    BuilderUnavailable::NotYetPrepared,
                ) && final(self).entries() == old(self).entries(),
                Some(Some(b)) => r matches Ok(m) && *m == b && (final(self).entries()
                    == old(self).entries().update(
                    first_index(entry_ids(old(self).entries()), id)->0,
                    (id, Some(*final(m))),
                )),
            },
    {
        let reason = match self.builders.builder_mut(id) {
            Some(Some(builder)) => return Ok(builder),
            Some(None) => BuilderUnavailable::NotYetPrepared,
            None => BuilderUnavailable::NoSuchFactor,
        };
        Err(FactorError::builder_unavailable(factor_type, reason))
    }
}

} // verus!
