//! The booth's read-only queries.

use vstd::prelude::*;
use crate::context::Env;
use crate::msg::{NumPoolsResponse, PoolInfoResponse};
use crate::state::Booth;

verus! {

/// Pool `poolid` as it stands.
pub fn query_pool_info(deps: &Booth, _env: &Env, poolid: u32) -> (r: PoolInfoResponse)
    requires
        deps.wf(),
        deps@.has_pool(poolid),
    ensures
        r.pool@ == deps@.pools[poolid as int],
{
    PoolInfoResponse { pool: deps.pools[poolid as usize].duplicate() }
}

/// How many pools were created.
pub fn query_num_pools(deps: &Booth, _env: &Env) -> (r: NumPoolsResponse)
    requires
        deps.wf(),
    ensures
        r.pools == deps@.pools.len(),
{
    NumPoolsResponse { pools: deps.num_pools }
}

} // verus!
