//! The state of the outside WebAssembly runtime that factors hold for an
//! instance, and the calls into that runtime that make it.
//!
//! Each value here is opaque: the library carries it from where it is made
//! to where it is used, and reads nothing inside it.
use vstd::prelude::*;
use wasmtime::component::ResourceTable;
use wasmtime_wasi::preview1::WasiP1Ctx;
use wasmtime_wasi::{WasiCtx, WasiCtxBuilder};
use wasmtime_wasi_http::WasiHttpCtx;

verus! {

#[verifier::external_type_specification]
#[verifier::external_body]
pub struct ExWasiCtxBuilder(WasiCtxBuilder);

#[verifier::external_type_specification]
#[verifier::external_body]
pub struct ExWasiCtx(WasiCtx);

#[verifier::external_type_specification]
#[verifier::external_body]
pub struct ExWasiP1Ctx(WasiP1Ctx);

#[verifier::external_type_specification]
#[verifier::external_body]
pub struct ExResourceTable(ResourceTable);

#[verifier::external_type_specification]
#[verifier::external_body]
pub struct ExWasiHttpCtx(WasiHttpCtx);

/// Whether a WASI context builder has not built a context yet (its
/// private `built` flag is unset).
pub uninterp spec fn ctx_builder_unbuilt(builder: WasiCtxBuilder) -> bool;

/// The command-line arguments that a WASI context builder passes on (its
/// `args`).
pub uninterp spec fn ctx_builder_args(builder: WasiCtxBuilder) -> Seq<Seq<char>>;

/// The environment variables that a WASI context builder passes on (its
/// `env`), as name and value.
pub uninterp spec fn ctx_builder_env(builder: WasiCtxBuilder) -> Seq<(Seq<char>, Seq<char>)>;

/// The guest paths of the directories that a WASI context builder preopens
/// (its `preopens`).
pub uninterp spec fn ctx_builder_preopens(builder: WasiCtxBuilder) -> Seq<Seq<char>>;

/// Whether a WASI context builder's stdin is the closed stream
/// (`pipe::ClosedInputStream`).
pub uninterp spec fn ctx_builder_stdin_closed(builder: WasiCtxBuilder) -> bool;

/// Whether a WASI context builder's stdout and stderr both discard what is
/// written (`pipe::SinkOutputStream`).
pub uninterp spec fn ctx_builder_output_discarded(builder: WasiCtxBuilder) -> bool;

/// A WASI context builder has the default settings: no arguments, no
/// environment variables, no preopened directories, a closed stdin, and a
/// stdout and stderr that discard what is written.
pub open spec fn default_wasi_settings(builder: WasiCtxBuilder) -> bool {
    &&& ctx_builder_args(builder).len() == 0
    &&& ctx_builder_env(builder).len() == 0
    &&& ctx_builder_preopens(builder).len() == 0
    &&& ctx_builder_stdin_closed(builder)
    &&& ctx_builder_output_discarded(builder)
}

/// The number of resources that a resource table holds.
pub uninterp spec fn table_resource_count(table: ResourceTable) -> nat;

/// The WASI context that `WasiCtxBuilder::build` makes of a builder that has
/// not built yet: the builder's settings, moved into a context.
pub uninterp spec fn built_wasi_ctx(builder: WasiCtxBuilder) -> WasiCtx;

/// The WASIp1 context that `WasiCtxBuilder::build_p1` makes of a builder
/// that has not built yet: the context `build` makes, with a fresh resource
/// table and WASIp1 adapter.
pub uninterp spec fn built_wasi_p1_ctx(builder: WasiCtxBuilder) -> WasiP1Ctx;

/// Calls `wasmtime_wasi::WasiCtxBuilder::new`: a builder that has not built
/// a context yet (`built: false`), with no arguments, environment variables
/// or preopens (empty vectors), a closed stdin and discarding stdout and
/// stderr, as its source sets them. Its random state and clocks are not
/// described.
#[verifier::external_body]
pub(crate) fn wasi_ctx_builder() -> (r: WasiCtxBuilder)
    ensures
        ctx_builder_unbuilt(r),
        ctx_builder_args(r).len() == 0,
        ctx_builder_env(r).len() == 0,
        ctx_builder_preopens(r).len() == 0,
        ctx_builder_stdin_closed(r),
        ctx_builder_output_discarded(r),
{
    WasiCtxBuilder::new()
}

/// Calls `wasmtime_wasi::WasiCtxBuilder::build` on a builder taken by value.
/// That method asserts that the builder has not built before, so only such
/// a builder is admitted; the context is the one that builder's settings
/// make.
#[verifier::external_body]
pub(crate) fn build_wasi_ctx(builder: WasiCtxBuilder) -> (r: WasiCtx)
    requires
        ctx_builder_unbuilt(builder),
    ensures
        r == built_wasi_ctx(builder),
{
    let mut builder = builder;
    builder.build()
}

/// Calls `wasmtime_wasi::WasiCtxBuilder::build_p1` on a builder taken by
/// value: `build`, wrapped as a WASIp1 context. Only a builder that has not
/// built before is admitted; the context is the one its settings make.
#[verifier::external_body]
pub(crate) fn build_wasi_p1_ctx(builder: WasiCtxBuilder) -> (r: WasiP1Ctx)
    requires
        ctx_builder_unbuilt(builder),
    ensures
        r == built_wasi_p1_ctx(builder),
{
    let mut builder = builder;
    builder.build_p1()
}

/// Calls `wasmtime::component::ResourceTable::new`: a table with no entries
/// (an empty vector, no free list), so it holds no resources.
#[verifier::external_body]
pub(crate) fn resource_table() -> (r: ResourceTable)
    ensures
        table_resource_count(r) == 0,
{
    ResourceTable::new()
}

/// The WASI HTTP context. The type holds nothing (its one field is `()`),
/// so it has this one value.
pub open spec fn the_wasi_http_ctx() -> WasiHttpCtx {
    arbitrary()
}

/// Calls `wasmtime_wasi_http::WasiHttpCtx::new`, which makes the context
/// `Self { _priv: () }`: the type's one value.
#[verifier::external_body]
pub(crate) fn wasi_http_ctx() -> (r: WasiHttpCtx)
    ensures
        r == the_wasi_http_ctx(),
{
    WasiHttpCtx::new()
}

} // verus!
