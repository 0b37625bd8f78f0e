//! The outbound networking factor: which hosts an instance may reach.
use std::sync::Arc;
use vstd::prelude::*;
use crate::builders::PrepareContext;
use crate::error::FactorError;
use crate::{Factor, InstanceBuilder};

verus! {

/// The outbound networking factor.
pub struct OutboundNetworkingFactor;

/// The instance builder of the outbound networking factor: the hosts that
/// the instance may reach.
pub struct Builder {
    allowed_hosts: Arc<Vec<String>>,
}

impl Builder {
    /// The hosts that the instance may reach, in order.
    pub closed spec fn hosts(&self) -> Seq<Seq<char>> {
        self.allowed_hosts.deep_view()
    }

    /// The hosts that the instance may reach.
    pub fn allowed_hosts(&self) -> (r: &Arc<Vec<String>>)
        ensures
            r.deep_view() == self.hosts(),
    {
        &self.allowed_hosts
    }
}

impl Factor for OutboundNetworkingFactor {
    type InstanceData = ();
    type InstanceBuilder = Builder;
}

impl InstanceBuilder<OutboundNetworkingFactor, ()> for Builder {
    /// Allows the one host `example.com`.
    fn prepare<B>(factor: &OutboundNetworkingFactor, ctx: PrepareContext<'_, B>) -> (r: Result<Builder, FactorError>)
        ensures
            r matches Ok(b) && b.hosts() == seq!["example.com"@],
            final(ctx.borrowed())@ == ctx.entries(),
    {
        ctx.finish();
        let hosts = vec![String::from_str("example.com")];
        let b = Builder { allowed_hosts: Arc::new(hosts) };
        assert(b.hosts() =~= seq!["example.com"@]);
        Ok(b)
    }

    /// Outbound networking keeps no state in the instance.
    fn build(self) -> (r: Result<(), FactorError>)
        ensures
            r is Ok,
    {
        Ok(())
    }
}

} // verus!
