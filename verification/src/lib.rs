//! Prize booth: pools of NFTs that an admin fills, and that anyone can buy
//! from for a fixed price in CW20 tokens, written as a verified state
//! machine. The host (storage, address checks, JSON decoding) stays outside.

pub mod codec;
pub mod context;
pub mod contract;
pub mod laws;
pub mod error;
pub mod execute;
pub mod msg;
pub mod query;
pub mod response;
pub mod state;
pub mod text;

use vstd::prelude::*;
use crate::context::{Env, MessageInfo};
use crate::error::{ContractError, ContractErrorView};
use crate::execute::{
    answers, create_pool_step, recieve_nft_pre, recieve_nft_step, recieve_token_pre,
    recieve_token_step, remove_nft_step, Step,
};
use crate::msg::{
    ExecuteMsg, InstantiateChecks, InstantiateMsg, NftReceipt, QueryMsg, QueryResponse, RecieveNftMsg,
    RecieveTokenMsg, TokenReceipt,
};
use crate::response::{Response, ResponseView};
use crate::state::{Booth, BoothView};

verus! {

/// The booth that setting up with `msg` gives, or the first address the host
/// refused (token contract, then admin, then NFT contract).
pub open spec fn instantiate_step(msg: InstantiateMsg, checks: InstantiateChecks) -> Result<BoothView, ContractErrorView> {
    match checks.cw20_addr {
        Err(e) => Err(ContractErrorView::StdError(e@)),
        Ok(()) => match checks.admin {
            Err(e) => Err(ContractErrorView::StdError(e@)),
            Ok(()) => match checks.cw721_addr {
                Err(e) => Err(ContractErrorView::StdError(e@)),
                Ok(()) => Ok(BoothView {
                    cw20_addr: msg.cw20_addr@,
                    cw721_addr: msg.cw721_addr@,
                    admin: msg.admin@,
                    pools: Seq::empty(),
                }),
            },
        },
    }
}

/// Sets the booth up: its token contract, its admin, its NFT contract, and no pool.
pub fn instantiate(_env: &Env, _info: &MessageInfo, msg: InstantiateMsg, checks: InstantiateChecks) -> (r:
    Result<(Booth, Response), ContractError>)
    ensures
        match instantiate_step(msg, checks) {
            Ok(v) => r matches Ok((b, resp)) && b.wf() && b@ == v && resp@ == ResponseView::empty(),
            Err(e) => r matches Err(x) && x@ == e,
        },
{
    if let Err(e) = checks.cw20_addr {
        return Err(ContractError::StdError(e));
    }
    if let Err(e) = checks.admin {
        return Err(ContractError::StdError(e));
    }
    if let Err(e) = checks.cw721_addr {
        return Err(ContractError::StdError(e));
    }
    let booth = Booth {
        cw20_addr: msg.cw20_addr,
        cw721_addr: msg.cw721_addr,
        admin: msg.admin,
        num_pools: 0,
        pools: Vec::new(),
    };
    assert(booth@.pools =~= Seq::<crate::state::PoolView>::empty());
    Ok((booth, Response::new()))
}

/// What a call does, by its message.
pub open spec fn execute_step(s: BoothView, info: MessageInfo, msg: ExecuteMsg) -> Step {
    match msg {
        ExecuteMsg::CreatePool { price } => create_pool_step(s, info, price),
        ExecuteMsg::RemovePool { .. } => Step::Done(s, ResponseView::empty()),
        ExecuteMsg::ReceiveNft(m) => recieve_nft_step(s, info, m),
        ExecuteMsg::RemoveNft { poolid, token_id, .. } => remove_nft_step(s, info, poolid, token_id),
        ExecuteMsg::Receive(m) => recieve_token_step(s, info, m),
        ExecuteMsg::UpdateAdmin { .. } => Step::Done(s, ResponseView::empty()),
    }
}

/// The calls on which a handler would panic are left out: a pool counter at
/// its limit, and a pool or NFT that is not there.
pub open spec fn execute_pre(s: BoothView, info: MessageInfo, msg: ExecuteMsg) -> bool {
    match msg {
        ExecuteMsg::CreatePool { .. } => s.admin == info.sender@ ==> s.pools.len() < u32::MAX,
        ExecuteMsg::ReceiveNft(m) => recieve_nft_pre(s, info, m),
        ExecuteMsg::RemoveNft { poolid, token_id, .. } => s.admin == info.sender@ ==> s.has_pool(
            poolid,
        ) && s.pools[poolid as int].tokens.contains(token_id@),
        ExecuteMsg::Receive(m) => recieve_token_pre(s, info, m),
        _ => true,
    }
}

/// Runs a call on the booth.
pub fn execute(deps: &mut Booth, env: &Env, info: &MessageInfo, msg: ExecuteMsg) -> (r: Result<
    Response,
    ContractError,
>)
    requires
        old(deps).wf(),
        execute_pre(old(deps)@, *info, msg),
    ensures
        final(deps).wf(),
        answers(old(deps)@, final(deps)@, r, execute_step(old(deps)@, *info, msg)),
{
    match msg {
        ExecuteMsg::CreatePool { price } => execute::create_pool(deps, env, info, price),
        ExecuteMsg::RemovePool { poolid } => execute::remove_pool(deps, env, info, poolid),
        ExecuteMsg::ReceiveNft(m) => execute::recieve_nft(deps, env, info, m),
        ExecuteMsg::RemoveNft { poolid, token_id, nft_contract: _ } => execute::remove_nft(
            deps,
            env,
            info,
            poolid,
            token_id,
        ),
        ExecuteMsg::Receive(m) => execute::recieve_token(deps, env, info, m),
        ExecuteMsg::UpdateAdmin { addr } => execute::update_admin(deps, env, info, addr),
    }
}

/// The answer to a query.
pub fn query(deps: &Booth, env: &Env, msg: QueryMsg) -> (r: QueryResponse)
    requires
        deps.wf(),
        msg matches QueryMsg::PoolInfo { poolid } ==> deps@.has_pool(poolid),
    ensures
        match msg {
            QueryMsg::PoolInfo { poolid } => r matches QueryResponse::PoolInfo(p) && p.pool@
                == deps@.pools[poolid as int],
            QueryMsg::NumPools {  } => r matches QueryResponse::NumPools(n) && n.pools
                == deps@.pools.len(),
        },
{
    match msg {
        QueryMsg::PoolInfo { poolid } => QueryResponse::PoolInfo(query::query_pool_info(deps, env, poolid)),
        QueryMsg::NumPools {  } => QueryResponse::NumPools(query::query_num_pools(deps, env)),
    }
}

/// Whether a call is one on which no handler panics: the host runs only
/// those (and panics, as the handlers would, on the others).
pub fn execute_allowed(deps: &Booth, info: &MessageInfo, msg: &ExecuteMsg) -> (r: bool)
    requires
        deps.wf(),
    ensures
        r == execute_pre(deps@, *info, *msg),
{
    match msg {
        ExecuteMsg::CreatePool { .. } => !(deps.admin == info.sender) || deps.num_pools < u32::MAX,
        ExecuteMsg::ReceiveNft(m) => nft_receipt_allowed(deps, info, m),
        ExecuteMsg::RemoveNft { poolid, token_id, .. } => remove_nft_allowed(deps, info, *poolid, token_id),
        ExecuteMsg::Receive(m) => token_receipt_allowed(deps, info, m),
        _ => true,
    }
}

fn nft_receipt_allowed(deps: &Booth, info: &MessageInfo, m: &NftReceipt<RecieveNftMsg>) -> (r: bool)
    requires
        deps.wf(),
    ensures
        r == recieve_nft_pre(deps@, *info, *m),
{
    if !(info.sender == deps.cw721_addr) || m.sender_check.is_err() || !(m.sender == deps.admin) {
        return true;
    }
    match &m.msg {
        Ok(RecieveNftMsg::AddNft { poolid }) => *poolid < deps.num_pools,
        Err(_) => true,
    }
}

fn remove_nft_allowed(deps: &Booth, info: &MessageInfo, poolid: u32, token_id: &String) -> (r: bool)
    requires
        deps.wf(),
    ensures
        r == (deps@.admin == info.sender@ ==> deps@.has_pool(poolid) && deps@.pools[poolid as int].tokens.contains(token_id@)),
{
    if !(deps.admin == info.sender) {
        return true;
    }
    if poolid >= deps.num_pools {
        return false;
    }
    let found = execute::position(&deps.pools[poolid as usize].tokens, token_id);
    assert(execute::token_views(deps.pools@[poolid as int].tokens@) =~= deps@.pools[poolid as int].tokens);
    match found {
        Some(i) => {
            assert(deps@.pools[poolid as int].tokens[i as int] == token_id@);
            true
        },
        None => false,
    }
}

fn token_receipt_allowed(deps: &Booth, info: &MessageInfo, m: &TokenReceipt<RecieveTokenMsg>) -> (r: bool)
    requires
        deps.wf(),
    ensures
        r == recieve_token_pre(deps@, *info, *m),
{
    if !(info.sender == deps.cw20_addr) {
        return true;
    }
    match &m.msg {
        Ok(RecieveTokenMsg::RedeemToken { poolid }) => *poolid < deps.num_pools,
        Err(_) => true,
    }
}

/// Whether a query is one on which the handler does not panic.
pub fn query_allowed(deps: &Booth, msg: &QueryMsg) -> (r: bool)
    requires
        deps.wf(),
    ensures
        r == (*msg matches QueryMsg::PoolInfo { poolid } ==> deps@.has_pool(poolid)),
{
    match msg {
        QueryMsg::PoolInfo { poolid } => *poolid < deps.num_pools,
        QueryMsg::NumPools {  } => true,
    }
}

} // verus!
