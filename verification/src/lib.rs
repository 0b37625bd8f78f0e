//! Composable runtime factors.
//!
//! A set of factors is declared as a list of fields, each of a factor type.
//! Each factor contributes host state to an instance: for each instance its
//! builder is first prepared, in declaration order, and may reach the
//! builders of the factors declared before it; then every builder is built
//! into the factor's instance data, again in declaration order.
pub mod builders;
pub mod derive;
pub mod error;
pub mod link_plan;
pub mod lookup;
pub mod outbound_http;
pub mod outbound_networking;
pub mod runtime;
pub mod spin_factors;
pub mod wasi;

use std::marker::PhantomData;
use vstd::prelude::*;
pub use crate::builders::{InstanceBuilders, PrepareContext};
use crate::builders::same_shape;
pub use crate::error::{BuilderUnavailable, FactorError};
pub use crate::spin_factors::SpinFactors;

verus! {

/// Prepares, then builds, the state of a factor of type `T` for one
/// instance; `D` is the type of that state.
pub trait InstanceBuilder<T, D>: Sized {
    /// Prepares the builder of `factor`; `ctx` reaches the builders of the
    /// factors of the set that were prepared before this one.
    ///
    /// The table lent through `ctx` comes back with the same factors and
    /// the same prepared slots; only builders may change. A preparation can
    /// reach the table only through `ctx`, whose field is private and whose
    /// methods keep this, so it holds of every implementation; for those
    /// outside this crate it is not checked.
    fn prepare<B>(factor: &T, ctx: PrepareContext<'_, B>) -> (r: Result<Self, FactorError>)
        ensures
            same_shape(ctx.entries(), final(ctx.borrowed())@),
    ;

    /// Builds the instance state.
    fn build(self) -> Result<D, FactorError>;
}

/// A factor: a unit of host functionality whose per-instance state is made
/// by its instance builder.
pub trait Factor: Sized {
    /// This factor's state in one instance.
    type InstanceData;
    /// What prepares and builds this factor's state for one instance.
    type InstanceBuilder: InstanceBuilder<Self, Self::InstanceData>;
}

/// The builder of a factor of type `T` that needs no preparation: its
/// instance state, of type `D`, is the default value of that type.
pub struct DefaultBuilder<T, D> {
    marker: PhantomData<(T, D)>,
}

impl<T, D: Default> InstanceBuilder<T, D> for DefaultBuilder<T, D> {
    /// Always succeeds; there is nothing to prepare.
    fn prepare<B>(factor: &T, ctx: PrepareContext<'_, B>) -> (r: Result<Self, FactorError>)
        ensures
            r is Ok,
            final(ctx.borrowed())@ == ctx.entries(),
    {
        ctx.finish();
        Ok(DefaultBuilder { marker: PhantomData })
    }

    /// Always succeeds, with the default value of the state's type.

    fn build(self) -> (r: Result<D, FactorError>)
        ensures
            r matches Ok(d) && D::default.ensures((), d),
    {
        Ok(D::default())
    }
}

} // verus!
