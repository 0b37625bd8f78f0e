//! The outbound HTTP factor: the WASI HTTP outgoing handler, with a WASI
//! HTTP context per instance.
use vstd::prelude::*;
use wasmtime_wasi_http::WasiHttpCtx;
use crate::runtime::{the_wasi_http_ctx, wasi_http_ctx};
use crate::{DefaultBuilder, Factor};

verus! {

/// The outbound HTTP factor.
pub struct OutboundHttpFactor;

/// The outbound HTTP state of one instance: its WASI HTTP context.
pub struct Data {
    http_ctx: WasiHttpCtx,
}

impl Default for Data {
    /// The state with the WASI HTTP context.
    fn default() -> (r: Self)
        ensures
            r.http_ctx() == the_wasi_http_ctx(),
    {
        Data { http_ctx: wasi_http_ctx() }
    }
}

impl Data {
    /// The instance's WASI HTTP context.
    pub closed spec fn http_ctx(&self) -> WasiHttpCtx {
        self.http_ctx
    }

    /// The instance's WASI HTTP context, to use and change in place.
    pub fn ctx(&mut self) -> (r: &mut WasiHttpCtx)
        ensures
            *r == old(self).http_ctx(),
            final(self).http_ctx() == *final(r),
    {
        &mut self.http_ctx
    }
}

impl Factor for OutboundHttpFactor {
    type InstanceData = Data;
    type InstanceBuilder = DefaultBuilder<OutboundHttpFactor, Data>;
}

} // verus!
