//! The WASI preview 1 factor: the WASIp1 host functions for core modules,
//! with a WASIp1 context per instance.
use vstd::prelude::*;
use wasmtime_wasi::preview1::WasiP1Ctx;
use wasmtime_wasi::WasiCtxBuilder;
use crate::builders::PrepareContext;
use crate::error::FactorError;
use crate::runtime::{build_wasi_p1_ctx, built_wasi_p1_ctx, ctx_builder_unbuilt, default_wasi_settings, wasi_ctx_builder};
use crate::{Factor, InstanceBuilder};

verus! {

/// The WASI preview 1 factor.
pub struct WasiPreview1Factor;

/// The instance builder of the WASI preview 1 factor: a WASI context
/// builder that has not built a context yet.
pub struct Builder {
    wasi_ctx: WasiCtxBuilder,
}

impl Builder {
    #[verifier::type_invariant]
    spec fn not_yet_built(self) -> bool {
        ctx_builder_unbuilt(self.wasi_ctx)
    }

    /// The WASI context builder that this builder builds from.
    pub closed spec fn ctx_builder(&self) -> WasiCtxBuilder {
        self.wasi_ctx
    }
}

impl Factor for WasiPreview1Factor {
    type InstanceData = WasiP1Ctx;
    type InstanceBuilder = Builder;
}

impl InstanceBuilder<WasiPreview1Factor, WasiP1Ctx> for Builder {
    /// Starts from a WASI context builder with the default settings.
    fn prepare<B>(factor: &WasiPreview1Factor, ctx: PrepareContext<'_, B>) -> (r: Result<Builder, FactorError>)
        ensures
            r matches Ok(b) && ctx_builder_unbuilt(b.ctx_builder()) && default_wasi_settings(
                b.ctx_builder(),
            ),
            final(ctx.borrowed())@ == ctx.entries(),
    {
        ctx.finish();
        Ok(Builder { wasi_ctx: wasi_ctx_builder() })
    }

    /// Builds the WASIp1 context.
    fn build(self) -> (r: Result<WasiP1Ctx, FactorError>)
        ensures
            r == Ok::<WasiP1Ctx, FactorError>(built_wasi_p1_ctx(self.ctx_builder())),
    {
        proof {
            use_type_invariant(&self);
        }
        Ok(build_wasi_p1_ctx(self.wasi_ctx))
    }
}

} // verus!
