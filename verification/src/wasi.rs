//! The WASI factor: the WASI preview 2 host interfaces, with a WASI context
//! and a resource table per instance.
pub mod preview1;

use vstd::prelude::*;
use wasmtime::component::ResourceTable;
use wasmtime_wasi::{WasiCtx, WasiCtxBuilder};
use crate::builders::PrepareContext;
use crate::error::FactorError;
use crate::runtime::{build_wasi_ctx, built_wasi_ctx, ctx_builder_unbuilt, default_wasi_settings, resource_table, table_resource_count, wasi_ctx_builder};
use crate::{Factor, InstanceBuilder};

verus! {

/// The WASI factor.
pub struct WasiFactor;

/// A WASI host interface that the WASI factor adds to a linker.
#[derive(Clone, Copy, Debug, PartialEq, Eq, Structural)]
pub enum WasiInterface {
    ClocksWallClock,
    ClocksMonotonicClock,
    FilesystemTypes,
    FilesystemPreopens,
    IoError,
    IoPoll,
    IoStreams,
    RandomRandom,
    RandomInsecure,
    RandomInsecureSeed,
    CliExit,
    CliEnvironment,
    CliStdin,
    CliStdout,
    CliStderr,
    CliTerminalInput,
    CliTerminalOutput,
    CliTerminalStdin,
    CliTerminalStdout,
    CliTerminalStderr,
    SocketsTcp,
    SocketsTcpCreateSocket,
    SocketsUdp,
    SocketsUdpCreateSocket,
    SocketsInstanceNetwork,
    SocketsNetwork,
    SocketsIpNameLookup,
}

/// The interfaces the WASI factor adds to a linker, in the order it adds them.
pub open spec fn wasi_interface_order() -> Seq<WasiInterface> {
    seq![
        WasiInterface::ClocksWallClock,
        WasiInterface::ClocksMonotonicClock,
        WasiInterface::FilesystemTypes,
        WasiInterface::FilesystemPreopens,
        WasiInterface::IoError,
        WasiInterface::IoPoll,
        WasiInterface::IoStreams,
        WasiInterface::RandomRandom,
        WasiInterface::RandomInsecure,
        WasiInterface::RandomInsecureSeed,
        WasiInterface::CliExit,
        WasiInterface::CliEnvironment,
        WasiInterface::CliStdin,
        WasiInterface::CliStdout,
        WasiInterface::CliStderr,
        WasiInterface::CliTerminalInput,
        WasiInterface::CliTerminalOutput,
        WasiInterface::CliTerminalStdin,
        WasiInterface::CliTerminalStdout,
        WasiInterface::CliTerminalStderr,
        WasiInterface::SocketsTcp,
        WasiInterface::SocketsTcpCreateSocket,
        WasiInterface::SocketsUdp,
        WasiInterface::SocketsUdpCreateSocket,
        WasiInterface::SocketsInstanceNetwork,
        WasiInterface::SocketsNetwork,
        WasiInterface::SocketsIpNameLookup,
    ]
}

impl WasiFactor {
    /// The interfaces this factor adds to a linker, in the order it adds
    /// them.
    pub fn interfaces() -> (r: Vec<WasiInterface>)
        ensures
            r@ == wasi_interface_order(),
    {
        let r = vec![
            WasiInterface::ClocksWallClock,
            WasiInterface::ClocksMonotonicClock,
            WasiInterface::FilesystemTypes,
            WasiInterface::FilesystemPreopens,
            WasiInterface::IoError,
            WasiInterface::IoPoll,
            WasiInterface::IoStreams,
            WasiInterface::RandomRandom,
            WasiInterface::RandomInsecure,
            WasiInterface::RandomInsecureSeed,
            WasiInterface::CliExit,
            WasiInterface::CliEnvironment,
            WasiInterface::CliStdin,
            WasiInterface::CliStdout,
            WasiInterface::CliStderr,
            WasiInterface::CliTerminalInput,
            WasiInterface::CliTerminalOutput,
            WasiInterface::CliTerminalStdin,
            WasiInterface::CliTerminalStdout,
            WasiInterface::CliTerminalStderr,
            WasiInterface::SocketsTcp,
            WasiInterface::SocketsTcpCreateSocket,
            WasiInterface::SocketsUdp,
            WasiInterface::SocketsUdpCreateSocket,
            WasiInterface::SocketsInstanceNetwork,
            WasiInterface::SocketsNetwork,
            WasiInterface::SocketsIpNameLookup,
        ];
        assert(r@ =~= wasi_interface_order());
        r
    }
}

/// The WASI factor adds every one of its interfaces to a linker, each once.
pub proof fn wasi_interfaces_each_once()
    ensures
        wasi_interface_order().len() == 27,
        wasi_interface_order().no_duplicates(),
{
    let s = wasi_interface_order();
    assert forall|i: int, j: int| 0 <= i < s.len() && 0 <= j < s.len() && i != j implies s[i]
        != s[j] by {
    }
}

/// The instance builder of the WASI factor: a WASI context builder that
/// has not built a context yet.
pub struct Builder {
    wasi_ctx: WasiCtxBuilder,
}

impl Builder {
    #[verifier::type_invariant]
    spec fn not_yet_built(self) -> bool {
        ctx_builder_unbuilt(self.wasi_ctx)
    }

    /// The WASI context builder that this builder builds from.
    pub closed spec fn ctx_builder(&self) -> WasiCtxBuilder {
        self.wasi_ctx
    }
}

/// The WASI state of one instance: its WASI context and resource table.
pub struct Data {
    ctx: WasiCtx,
    table: ResourceTable,
}

impl Data {
    /// The instance's WASI context.
    pub closed spec fn wasi_ctx(&self) -> WasiCtx {
        self.ctx
    }

    /// The instance's resource table.
    pub closed spec fn resource_table(&self) -> ResourceTable {
        self.table
    }

    /// The instance's WASI context, to use and change in place.
    pub fn ctx(&mut self) -> (r: &mut WasiCtx)
        ensures
            *r == old(self).wasi_ctx(),
            final(self).wasi_ctx() == *final(r),
            final(self).resource_table() == old(self).resource_table(),
    {
        &mut self.ctx
    }

    /// The instance's resource table, to use and change in place.
    pub fn table(&mut self) -> (r: &mut ResourceTable)
        ensures
            *r == old(self).resource_table(),
            final(self).resource_table() == *final(r),
            final(self).wasi_ctx() == old(self).wasi_ctx(),
    {
        &mut self.table
    }
}

impl Factor for WasiFactor {
    type InstanceData = Data;
    type InstanceBuilder = Builder;
}

impl InstanceBuilder<WasiFactor, Data> for Builder {
    /// Starts from a WASI context builder with the default settings.
    fn prepare<B>(factor: &WasiFactor, ctx: PrepareContext<'_, B>) -> (r: Result<Builder, FactorError>)
        ensures
            r matches Ok(b) && ctx_builder_unbuilt(b.ctx_builder()) && default_wasi_settings(
                b.ctx_builder(),
            ),
            final(ctx.borrowed())@ == ctx.entries(),
    {
        ctx.finish();
        Ok(Builder { wasi_ctx: wasi_ctx_builder() })
    }

    /// Builds the WASI context, with an empty resource table.
    fn build(self) -> (r: Result<Data, FactorError>)
        ensures
            r matches Ok(d) && d.wasi_ctx() == built_wasi_ctx(self.ctx_builder())
                && table_resource_count(d.resource_table()) == 0,
    {
        proof {
            use_type_invariant(&self);
        }
        Ok(Data { ctx: build_wasi_ctx(self.wasi_ctx), table: resource_table() })
    }
}

} // verus!
