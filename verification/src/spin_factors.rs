//! A set of factors, each under the identity of its factor type.
use vstd::prelude::*;
use crate::builders::{empty_entries, entry_ids, prepared_prefix, same_shape, InstanceBuilders, PrepareContext};
use crate::error::FactorError;
use crate::lookup::{first_index, first_position, first_positions2};
use crate::{Factor, InstanceBuilder};

verus! {

/// A factor of a set, with the identity and the name of its factor type.
pub struct FactorEntry<F> {
    /// The identity of the factor's type.
    pub id: u64,
    /// The name of the factor's type.
    pub factor_type: String,
    /// The factor.
    pub factor: F,
}

/// The factor identities of a set's entries, in declaration order.
pub open spec fn factor_ids<F>(entries: Seq<FactorEntry<F>>) -> Seq<u64> {
    entries.map_values(|e: FactorEntry<F>| e.id)
}

/// A set of factors in declaration order.
pub struct SpinFactors<F> {
    entries: Vec<FactorEntry<F>>,
}

impl<F> View for SpinFactors<F> {
    type V = Seq<FactorEntry<F>>;

    closed spec fn view(&self) -> Seq<FactorEntry<F>> {
        self.entries@
    }
}

impl<F> SpinFactors<F> {
    /// The set of the given factors, in the given order.
    pub fn new(entries: Vec<FactorEntry<F>>) -> (r: Self)
        ensures
            r@ == entries@,
    {
        SpinFactors { entries }
    }

    /// The number of factors of the set.
    pub fn len(&self) -> (n: usize)
        ensures
            n == self@.len(),
    {
        self.entries.len()
    }

    /// The identities of the factors, in declaration order.
    pub fn ids(&self) -> (ids: Vec<u64>)
        ensures
            ids@ == factor_ids(self@),
    {
        let n = self.entries.len();
        let mut ids: Vec<u64> = Vec::new();
        while ids.len() < n
            invariant
                n == self@.len(),
                ids@.len() <= n,
                forall|j: int| 0 <= j < ids@.len() ==> ids@[j] == self@[j].id,
            decreases n - ids@.len(),
        {
            let k = ids.len();
            ids.push(self.entries[k].id);
        }
        assert(ids@ =~= factor_ids(self@));
        ids
    }

    /// The position of the instance data of the first factor whose type has
    /// identity `id`, if the set has such a factor.
    pub fn data_getter(&self, id: u64) -> (r: Option<usize>)
        ensures
            match r {
                Some(i) => first_index(factor_ids(self@), id) == Some(i as int),
                None => first_index(factor_ids(self@), id) is None,
            },
    {
        let ids = self.ids();
        first_position(&ids, id)
    }

    /// The positions of the instance data of the factors whose types have
    /// identities `first` and `second`, if the set has both and they are two
    /// different factors (so that both can be borrowed at once).
    pub fn data_getter2(&self, first: u64, second: u64) -> (r: Option<(usize, usize)>)
        ensures
            match (first_index(factor_ids(self@), first), first_index(factor_ids(self@), second)) {
                (Some(i), Some(j)) => if i != j {
                    r == Some((i as usize, j as usize))
                } else {
                    r is None
                },
                _ => r is None,
            },
    {
        let ids = self.ids();
        first_positions2(&ids, first, second)
    }
}

impl<F: Factor> SpinFactors<F> {
    /// A fresh builder table for this set: one empty slot per factor.
    pub fn instance_builders(&self) -> (r: InstanceBuilders<F::InstanceBuilder>)
        ensures
            r@ == crate::builders::empty_entries::<F::InstanceBuilder>(factor_ids(self@)),
    {
        let ids = self.ids();
        InstanceBuilders::new(&ids)
    }

    /// Makes the instance state of every factor of the set: prepares the
    /// builder of each factor in declaration order, each with a context over
    /// the table that the preparations before it left, then builds, in
    /// declaration order, the builder that each factor's slot holds once all
    /// are prepared. The first failing step ends the whole with its error;
    /// the library adds no error of its own.
    pub fn build_data(&self) -> (r: Result<Vec<F::InstanceData>, FactorError>)
        ensures
            match r {
                Ok(data) => {
                    &&& data@.len() == self@.len()
                    &&& exists|tables: Seq<Seq<(u64, Option<F::InstanceBuilder>)>>, prepared: Seq<F::InstanceBuilder>|
                        #![trigger preparation_run(self@, tables, prepared, self@.len() as int)]
                        preparation_run(self@, tables, prepared, self@.len() as int) && forall|i: int|
                            0 <= i < self@.len() ==> builds_to::<F>(
                                tables[self@.len() as int][i].1->0,
                                Ok(#[trigger] data@[i]),
                            )
                },
                Err(e) => {
                    ||| exists|tables: Seq<Seq<(u64, Option<F::InstanceBuilder>)>>, prepared: Seq<F::InstanceBuilder>, k: int|
                        #![trigger preparation_run(self@, tables, prepared, k)]
                        0 <= k < self@.len() && preparation_run(self@, tables, prepared, k)
                            && handed_to_prepare(self@[k].factor, tables[k], Err(e))
                    ||| exists|tables: Seq<Seq<(u64, Option<F::InstanceBuilder>)>>, prepared: Seq<F::InstanceBuilder>, k: int|
                        #![trigger preparation_run(self@, tables, prepared, self@.len() as int), tables[self@.len() as int][k]]
                        0 <= k < self@.len() && preparation_run(self@, tables, prepared, self@.len() as int)
                            && (forall|j: int|
                            0 <= j < k ==> build_succeeds::<F>(#[trigger] tables[self@.len() as int][j].1->0))
                            && builds_to::<F>(tables[self@.len() as int][k].1->0, Err(e))
                },
            },
            self@.len() == 0 ==> (r matches Ok(data) && data@.len() == 0),
    {
        let n = self.entries.len();
        let ghost ids = factor_ids(self@);
        let mut builders = self.instance_builders();
        let ghost mut tables: Seq<Seq<(u64, Option<F::InstanceBuilder>)>> = seq![builders@];
        let ghost mut prepared: Seq<F::InstanceBuilder> = seq![];
        proof {
            assert(entry_ids(builders@) =~= ids);
        }
        let mut i: usize = 0;
        while i < n
            invariant
                n == self@.len(),
                ids == factor_ids(self@),
                i <= n,
                builders@.len() == n,
                entry_ids(builders@) == ids,
                prepared_prefix(builders@, i as int),
                preparation_run(self@, tables, prepared, i as int),
                builders@ == tables[i as int],
            decreases n - i,
        {
            let ghost before = builders@;
            let ctx = PrepareContext::new(&mut builders);
            let ghost c = ctx;
            let res = prepare_one(&self.entries[i].factor, ctx);
            let ghost returned = builders@;
            proof {
                assert(same_shape(before, returned));
                assert(entry_ids(returned) =~= ids);
            }
            let builder = match res {
                Ok(b) => b,
                Err(e) => {
                    assert(handed_to_prepare(self@[i as int].factor, tables[i as int], Err(e)));
                    assert(preparation_run(self@, tables, prepared, i as int));
                    return Err(e);
                },
            };
            let ghost gb = builder;
            assert(handed_to_prepare(self@[i as int].factor, before, Ok(gb)));
            builders.install(i, builder);
            proof {
                assert(entry_ids(builders@) =~= ids);
                assert(prepare_step(self@[i as int].factor, before, builders@, gb, i as int));
                let old_tables = tables;
                let old_prepared = prepared;
                tables = tables.push(builders@);
                prepared = prepared.push(gb);
                assert forall|j: int| 0 <= j < i + 1 implies prepare_step(
                    self@[j].factor,
                    tables[j],
                    tables[j + 1],
                    #[trigger] prepared[j],
                    j,
                ) by {
                    if j < i {
                        assert(prepare_step(
                            self@[j].factor,
                            old_tables[j],
                            old_tables[j + 1],
                            old_prepared[j],
                            j,
                        ));
                    }
                }
            }
            i = i + 1;
        }
        let ghost final_table = builders@;
        let mut data: Vec<F::InstanceData> = Vec::new();
        let mut k: usize = 0;
        while k < n
            invariant
                n == self@.len(),
                k <= n,
                preparation_run(self@, tables, prepared, n as int),
                final_table == tables[n as int],
                final_table.len() == n,
                prepared_prefix(final_table, n as int),
                builders@.len() == n,
                forall|j: int| k <= j < n ==> (#[trigger] builders@[j]) == final_table[j],
                data@.len() == k,
                forall|j: int| 0 <= j < k ==> builds_to::<F>(final_table[j].1->0, Ok(#[trigger] data@[j])),
            decreases n - k,
        {
            assert(final_table[k as int].1 is Some);
            let builder = builders.take(k).unwrap();
            let ghost gb = builder;
            let res = builder.build();
            match res {
                Ok(d) => {
                    assert(builds_to::<F>(final_table[k as int].1->0, Ok(d)));
                    data.push(d);
                },
                Err(e) => {
                    assert(builds_to::<F>(final_table[k as int].1->0, Err(e)));
                    assert forall|j: int| 0 <= j < k implies build_succeeds::<F>(#[trigger] tables[n as int][j].1->0) by {
                        assert(builds_to::<F>(final_table[j].1->0, Ok(data@[j])));
                    }
                    assert(preparation_run(self@, tables, prepared, n as int));
                    return Err(e);
                },
            }
            k = k + 1;
        }
        assert(preparation_run(self@, tables, prepared, n as int));
        Ok(data)
    }
}

/// Prepares the builder of `factor` with `ctx`, as the set's preparation
/// does for each of its factors.
pub fn prepare_one<F: Factor>(factor: &F, ctx: PrepareContext<'_, F::InstanceBuilder>) -> (r: Result<
    F::InstanceBuilder,
    FactorError,
>)
    ensures
        same_shape(ctx.entries(), final(ctx.borrowed())@),
{
    F::InstanceBuilder::prepare(factor, ctx)
}

/// Preparing `factor` can end with `outcome` when it is handed a context
/// over the builder table `table`.
pub open spec fn handed_to_prepare<F: Factor>(
    factor: F,
    table: Seq<(u64, Option<F::InstanceBuilder>)>,
    outcome: Result<F::InstanceBuilder, FactorError>,
) -> bool {
    exists|c: PrepareContext<F::InstanceBuilder>|
        c.entries() == table && call_ensures(prepare_one::<F>, (&factor, c), outcome)
}

/// Preparing the factor at position `i`, handed the table `before`,
/// returned `builder`, and the table became `after`: the table as the
/// preparation left it (same factors, same prepared slots) with `builder`
/// installed in slot `i`.
pub open spec fn prepare_step<F: Factor>(
    factor: F,
    before: Seq<(u64, Option<F::InstanceBuilder>)>,
    after: Seq<(u64, Option<F::InstanceBuilder>)>,
    builder: F::InstanceBuilder,
    i: int,
) -> bool {
    &&& handed_to_prepare(factor, before, Ok(builder))
    &&& exists|returned: Seq<(u64, Option<F::InstanceBuilder>)>|
        #![trigger same_shape(before, returned)]
        same_shape(before, returned) && after == returned.update(i, (returned[i].0, Some(builder)))
}

/// The first `k` preparations of `factors`, in order: `tables[i]` is the
/// table handed to the preparation of factor `i` (the first is the empty
/// table), `prepared[i]` the builder it returned, and `tables[i + 1]` the
/// table after it.
pub open spec fn preparation_run<F: Factor>(
    factors: Seq<FactorEntry<F>>,
    tables: Seq<Seq<(u64, Option<F::InstanceBuilder>)>>,
    prepared: Seq<F::InstanceBuilder>,
    k: int,
) -> bool {
    &&& 0 <= k <= factors.len()
    &&& tables.len() == k + 1
    &&& prepared.len() == k
    &&& tables[0] == empty_entries::<F::InstanceBuilder>(factor_ids(factors))
    &&& forall|i: int|
        0 <= i < k ==> prepare_step(factors[i].factor, tables[i], tables[i + 1], #[trigger] prepared[i], i)
}

/// Building `builder` can end with `outcome`.
pub open spec fn builds_to<F: Factor>(builder: F::InstanceBuilder, outcome: Result<F::InstanceData, FactorError>) -> bool {
    call_ensures(<F::InstanceBuilder as InstanceBuilder<F, F::InstanceData>>::build, (builder,), outcome)
}

/// Building `builder` can succeed.
pub open spec fn build_succeeds<F: Factor>(builder: F::InstanceBuilder) -> bool {
    exists|d: F::InstanceData| builds_to::<F>(builder, Ok(d))
}

/// A run of preparations hands each factor a table of the set's factors in
/// which exactly the builders of the factors before it are prepared.
pub proof fn preparation_run_prefix<F: Factor>(
    factors: Seq<FactorEntry<F>>,
    tables: Seq<Seq<(u64, Option<F::InstanceBuilder>)>>,
    prepared: Seq<F::InstanceBuilder>,
    k: int,
)
    requires
        preparation_run(factors, tables, prepared, k),
    ensures
        forall|i: int|
            0 <= i <= k ==> entry_ids(#[trigger] tables[i]) == factor_ids(factors) && prepared_prefix(
                tables[i],
                i,
            ),
    decreases k,
{
    let ids = factor_ids(factors);
    if k == 0 {
        assert(entry_ids(tables[0]) =~= ids);
    } else {
        preparation_run_prefix(factors, tables.drop_last(), prepared.drop_last(), k - 1);
        assert forall|i: int| 0 <= i <= k implies entry_ids(#[trigger] tables[i]) == ids && prepared_prefix(
            tables[i],
            i,
        ) by {
            if i < k {
                assert(tables.drop_last()[i] == tables[i]);
            } else {
                assert(prepare_step(factors[k - 1].factor, tables[k - 1], tables[k], prepared[k - 1], k - 1));
                assert(tables.drop_last()[k - 1] == tables[k - 1]);
                let returned = choose|returned: Seq<(u64, Option<F::InstanceBuilder>)>|
                    #![trigger same_shape(tables[k - 1], returned)]
                    same_shape(tables[k - 1], returned) && tables[k] == returned.update(
                        k - 1,
                        (returned[k - 1].0, Some(prepared[k - 1])),
                    );
                assert(entry_ids(tables[k]) =~= ids) by {
                    assert(entry_ids(tables[k - 1]) == ids);
                    assert forall|j: int| 0 <= j < ids.len() implies entry_ids(tables[k])[j] == ids[j] by {
                        assert(entry_ids(tables[k - 1])[j] == tables[k - 1][j].0);
                    }
                }
                assert forall|j: int| 0 <= j < tables[k].len() implies ((#[trigger] tables[k][j]).1 is Some <==> j < k) by {
                    assert(tables[k - 1][j] == tables[k - 1][j]);
                }
            }
        }
    }
}

} // verus!
