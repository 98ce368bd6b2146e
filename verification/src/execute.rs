//! The booth's handlers: pools that the admin fills with NFTs, and that
//! anyone can buy from with the booth's token, oldest NFT first.

use vstd::prelude::*;
use vstd::pervasive::VecAdditionalExecFns;
use crate::codec::{burn_json, encode_burn, encode_transfer_nft, transfer_nft_json};
use crate::context::{Env, MessageInfo};
use crate::error::{ContractError, ContractErrorView};
use crate::msg::{NftReceipt, RecieveNftMsg, RecieveTokenMsg, TokenReceipt};
use crate::response::{CosmosMsg, MsgView, Response, ResponseView};
use crate::state::{first_index, lemma_first_index, Booth, BoothView, Pool, PoolView};
use crate::text::{decimal, u128_text, u32_text};

verus! {

/// What a handler does: the booth after the call and the response, or the
/// error (and then the booth is as it was).
pub enum Step {
    Done(BoothView, ResponseView),
    Fail(ContractErrorView),
}

/// The call went from `before` to `after` and returned `r`, as `step` says.
pub open spec fn answers(
    before: BoothView,
    after: BoothView,
    r: Result<Response, ContractError>,
    step: Step,
) -> bool {
    match step {
        Step::Done(s, resp) => r matches Ok(x) && x@ == resp && after == s,
        Step::Fail(e) => r matches Err(x) && x@ == e && after == before,
    }
}

/// The views of a list of NFT ids.
pub open spec fn token_views(tokens: Seq<String>) -> Seq<Seq<char>> {
    tokens.map_values(|t: String| t@)
}

// ---------------------------------------------------------------- create_pool

/// The response to a pool's creation.
pub open spec fn create_pool_reply(poolid: nat, price: u128) -> ResponseView {
    ResponseView {
        messages: Seq::empty(),
        attributes: seq![
            ("action"@, "create_pool"@),
            ("poolid"@, decimal(poolid)),
            ("price"@, decimal(price as nat)),
        ],
    }
}

/// Only the admin creates pools; the new pool gets the next id, no NFT and
/// the given price.
pub open spec fn create_pool_step(s: BoothView, info: MessageInfo, price: u128) -> Step {
    if s.admin != info.sender@ {
        Step::Fail(ContractErrorView::Unauthorized { sender: info.sender@ })
    } else {
        Step::Done(s.with_new_pool(price), create_pool_reply(s.pools.len(), price))
    }
}

/// Creates a pool that sells NFTs at `price` tokens each.
pub fn create_pool(deps: &mut Booth, _env: &Env, info: &MessageInfo, price: u128) -> (r: Result<
    Response,
    ContractError,
>)
    requires
        old(deps).wf(),
        old(deps).admin@ == info.sender@ ==> old(deps).num_pools < u32::MAX,
    ensures
        final(deps).wf(),
        answers(old(deps)@, final(deps)@, r, create_pool_step(old(deps)@, *info, price)),
{
    if !(deps.admin == info.sender) {
        return Err(ContractError::Unauthorized { sender: info.sender.clone() });
    }
    let poolnum = deps.num_pools;
    let newpool = Pool { tokens: Vec::new(), price };
    assert(newpool@ == PoolView::fresh(price)) by {
        assert(newpool@.tokens =~= Seq::<Seq<char>>::empty());
    }
    deps.pools.push(newpool);
    deps.num_pools = poolnum + 1;
    assert(deps@.pools =~= old(deps)@.pools.push(PoolView::fresh(price)));
    let poolid_text = u32_text(poolnum);
    let price_text = u128_text(price);
    let resp = Response::new()
        .add_attribute("action", "create_pool")
        .add_attribute("poolid", poolid_text.as_str())
        .add_attribute("price", price_text.as_str());
    assert(resp@.attributes =~= create_pool_reply(poolnum as nat, price).attributes);
    assert(resp@.messages =~= Seq::<MsgView>::empty());
    Ok(resp)
}

// ---------------------------------------------------------------- remove_pool

/// Accepts the call and does nothing.
pub fn remove_pool(deps: &mut Booth, _env: &Env, _info: &MessageInfo, _poolid: u32) -> (r: Result<
    Response,
    ContractError,
>)
    requires
        old(deps).wf(),
    ensures
        final(deps).wf(),
        answers(old(deps)@, final(deps)@, r, Step::Done(old(deps)@, ResponseView::empty())),
{
    Ok(Response::new())
}

// ---------------------------------------------------------------- add_nft

/// NFT `token_id` joins pool `poolid`, behind the NFTs already there.
pub open spec fn add_nft_step(s: BoothView, poolid: u32, token_id: String) -> Step {
    Step::Done(
        s.with_pool(poolid, s.pools[poolid as int].with_token(token_id@)),
        ResponseView::empty(),
    )
}

/// Puts NFT `token_id` into pool `poolid`.
pub fn add_nft(deps: &mut Booth, _env: &Env, _info: &MessageInfo, poolid: u32, token_id: String) -> (r:
    Result<Response, ContractError>)
    requires
        old(deps).wf(),
        old(deps)@.has_pool(poolid),
    ensures
        final(deps).wf(),
        answers(old(deps)@, final(deps)@, r, add_nft_step(old(deps)@, poolid, token_id)),
{
    let i = poolid as usize;
    let ghost t = token_id@;
    let mut pool = Pool { tokens: Vec::new(), price: 0 };
    deps.pools.set_and_swap(i, &mut pool);
    let ghost taken = pool@;
    pool.tokens.push(token_id);
    assert(pool@ == taken.with_token(t)) by {
        assert(pool@.tokens =~= taken.tokens.push(t));
    }
    deps.pools.set(i, pool);
    assert(deps@.pools =~= old(deps)@.pools.update(i as int, old(deps)@.pools[i as int].with_token(t)));
    Ok(Response::new())
}

// ---------------------------------------------------------------- recieve_nft

/// An NFT arrives: it must come from the booth's NFT contract, carry a
/// message that decodes, and be sent by the admin; then it joins its pool.
pub open spec fn recieve_nft_step(s: BoothView, info: MessageInfo, msg: NftReceipt<RecieveNftMsg>) -> Step {
    if info.sender@ != s.cw721_addr {
        Step::Fail(ContractErrorView::FaultyNftContract { addr: info.sender@ })
    } else {
        match msg.msg {
            Err(e) => Step::Fail(ContractErrorView::StdError(e@)),
            Ok(RecieveNftMsg::AddNft { poolid }) => match msg.sender_check {
                Err(e) => Step::Fail(ContractErrorView::StdError(e@)),
                Ok(()) => if msg.sender@ != s.admin {
                    Step::Fail(ContractErrorView::Unauthorized { sender: info.sender@ })
                } else {
                    add_nft_step(s, poolid, msg.token_id)
                },
            },
        }
    }
}

/// The pool that an accepted NFT goes to exists (the handler panics otherwise).
pub open spec fn recieve_nft_pre(s: BoothView, info: MessageInfo, msg: NftReceipt<RecieveNftMsg>) -> bool {
    info.sender@ == s.cw721_addr && (msg.msg matches Ok(RecieveNftMsg::AddNft { poolid }) && (
    msg.sender_check is Ok && msg.sender@ == s.admin)) ==> s.has_pool(
        msg.msg->Ok_0->AddNft_poolid,
    )
}

/// Handles the NFT contract's notice that an NFT was sent to the booth.
pub fn recieve_nft(deps: &mut Booth, env: &Env, info: &MessageInfo, msg: NftReceipt<RecieveNftMsg>) -> (r:
    Result<Response, ContractError>)
    requires
        old(deps).wf(),
        recieve_nft_pre(old(deps)@, *info, msg),
    ensures
        final(deps).wf(),
        answers(old(deps)@, final(deps)@, r, recieve_nft_step(old(deps)@, *info, msg)),
{
    if !(info.sender == deps.cw721_addr) {
        return Err(ContractError::FaultyNftContract { addr: info.sender.clone() });
    }
    let rmsg = match msg.msg {
        Ok(m) => m,
        Err(e) => {
            return Err(ContractError::StdError(e));
        },
    };
    if let Err(e) = msg.sender_check {
        return Err(ContractError::StdError(e));
    }
    if !(msg.sender == deps.admin) {
        return Err(ContractError::Unauthorized { sender: info.sender.clone() });
    }
    match rmsg {
        RecieveNftMsg::AddNft { poolid } => add_nft(deps, env, info, poolid, msg.token_id),
    }
}

// ---------------------------------------------------------------- remove_nft

/// The response to taking an NFT out of a pool: the NFT goes back to the admin.
pub open spec fn remove_nft_reply(s: BoothView, poolid: u32, token_id: Seq<char>) -> ResponseView {
    ResponseView {
        messages: seq![
            MsgView::Execute {
                contract_addr: s.cw721_addr,
                msg: transfer_nft_json(s.admin, token_id),
            },
        ],
        attributes: seq![
            ("action"@, "remove_nft"@),
            ("poolid"@, decimal(poolid as nat)),
            ("token_id"@, token_id),
        ],
    }
}

/// Only the admin takes NFTs out; the first copy of the NFT leaves the pool
/// and is sent to the admin.
pub open spec fn remove_nft_step(s: BoothView, info: MessageInfo, poolid: u32, token_id: String) -> Step {
    if s.admin != info.sender@ {
        Step::Fail(ContractErrorView::Unauthorized { sender: info.sender@ })
    } else {
        Step::Done(
            s.with_pool(poolid, s.pools[poolid as int].without_token(token_id@)),
            remove_nft_reply(s, poolid, token_id@),
        )
    }
}

/// The index of the first NFT id in `tokens` that equals `t`.
pub fn position(tokens: &Vec<String>, t: &String) -> (r: Option<usize>)
    ensures
        match r {
            Some(i) => i < tokens@.len() && token_views(tokens@)[i as int] == t@ && i == first_index(
                token_views(tokens@),
                t@,
            ),
            None => !token_views(tokens@).contains(t@),
        },
{
    let ghost views = token_views(tokens@);
    let mut i: usize = 0;
    while i < tokens.len()
        invariant
            i <= tokens@.len(),
            views == token_views(tokens@),
            forall|j: int| 0 <= j < i ==> views[j] != t@,
        decreases tokens@.len() - i,
    {
        if tokens[i] == *t {
            proof {
                lemma_first_index(views, t@, i as int);
            }
            return Some(i);
        }
        i = i + 1;
    }
    assert(!views.contains(t@));
    None
}

/// Takes NFT `token_id` out of pool `poolid` and sends it to the admin.
pub fn remove_nft(deps: &mut Booth, _env: &Env, info: &MessageInfo, poolid: u32, token_id: String) -> (r:
    Result<Response, ContractError>)
    requires
        old(deps).wf(),
        old(deps).admin@ == info.sender@ ==> old(deps)@.has_pool(poolid) && old(deps)@.pools[poolid as int].tokens.contains(token_id@),
    ensures
        final(deps).wf(),
        answers(old(deps)@, final(deps)@, r, remove_nft_step(old(deps)@, *info, poolid, token_id)),
{
    if !(deps.admin == info.sender) {
        return Err(ContractError::Unauthorized { sender: info.sender.clone() });
    }
    let i = poolid as usize;
    let transfer = match encode_transfer_nft(&deps.admin, &token_id) {
        Ok(bytes) => bytes,
        Err(e) => {
            return Err(ContractError::StdError(e));
        },
    };
    let mut pool = Pool { tokens: Vec::new(), price: 0 };
    deps.pools.set_and_swap(i, &mut pool);
    let ghost taken = pool@;
    assert(taken == old(deps)@.pools[i as int]);
    let index = match position(&pool.tokens, &token_id) {
        Some(k) => k,
        None => {
            // the requires rules this out: the token is in the pool
            proof {
                assert(false);
            }
            0
        },
    };
    pool.tokens.remove(index);
    assert(pool@ == taken.without_token(token_id@)) by {
        assert(pool@.tokens =~= taken.tokens.remove(index as int));
    }
    deps.pools.set(i, pool);
    assert(deps@.pools =~= old(deps)@.pools.update(
        i as int,
        old(deps)@.pools[i as int].without_token(token_id@),
    ));
    let cw721_msg = CosmosMsg::Execute { contract_addr: deps.cw721_addr.clone(), msg: transfer };
    let poolid_text = u32_text(poolid);
    let resp = Response::new()
        .add_message(cw721_msg)
        .add_attribute("action", "remove_nft")
        .add_attribute("poolid", poolid_text.as_str())
        .add_attribute("token_id", token_id.as_str());
    assert(resp@.attributes =~= remove_nft_reply(old(deps)@, poolid, token_id@).attributes);
    assert(resp@.messages =~= remove_nft_reply(old(deps)@, poolid, token_id@).messages);
    Ok(resp)
}

// ---------------------------------------------------------------- recieve_token

/// The response to a sale: the price is burnt, and the NFT goes to the buyer.
pub open spec fn redeem_reply(
    s: BoothView,
    amount: u128,
    poolid: u32,
    sender: Seq<char>,
    token: Seq<char>,
) -> ResponseView {
    ResponseView {
        messages: seq![
            MsgView::Execute {
                contract_addr: s.cw20_addr,
                msg: burn_json(s.pools[poolid as int].price),
            },
            MsgView::Execute { contract_addr: s.cw721_addr, msg: transfer_nft_json(sender, token) },
        ],
        attributes: seq![
            ("action"@, "redeem_token"@),
            ("amount"@, decimal(amount as nat)),
            ("poolid"@, decimal(poolid as nat)),
            ("token_id"@, token),
        ],
    }
}

/// A sale: the amount must be the pool's price, and the pool must hold an
/// NFT; then its oldest NFT goes to `sender`.
pub open spec fn redeem_token_step(s: BoothView, amount: u128, poolid: u32, sender: String) -> Step {
    let pool = s.pools[poolid as int];
    if amount != pool.price {
        Step::Fail(ContractErrorView::TokenAmountMismatch { amt: amount, price: pool.price })
    } else if pool.tokens.len() == 0 {
        Step::Fail(ContractErrorView::EmptyPool { poolid })
    } else {
        Step::Done(
            s.with_pool(poolid, pool.without_oldest()),
            redeem_reply(s, amount, poolid, sender@, pool.tokens[0]),
        )
    }
}

/// Sells the oldest NFT of pool `poolid` to `sender` for `amount` tokens.
pub fn redeem_token(
    deps: &mut Booth,
    _env: &Env,
    _info: &MessageInfo,
    amount: u128,
    poolid: u32,
    sender: String,
) -> (r: Result<Response, ContractError>)
    requires
        old(deps).wf(),
        old(deps)@.has_pool(poolid),
    ensures
        final(deps).wf(),
        answers(old(deps)@, final(deps)@, r, redeem_token_step(old(deps)@, amount, poolid, sender)),
{
    let i = poolid as usize;
    let price = deps.pools[i].price;
    if amount != price {
        return Err(ContractError::TokenAmountMismatch { amt: amount, price });
    }
    if deps.pools[i].tokens.len() == 0 {
        return Err(ContractError::EmptyPool { poolid });
    }
    let burn = match encode_burn(price) {
        Ok(bytes) => bytes,
        Err(e) => {
            return Err(ContractError::StdError(e));
        },
    };
    let mut pool = Pool { tokens: Vec::new(), price: 0 };
    deps.pools.set_and_swap(i, &mut pool);
    let ghost taken = pool@;
    assert(taken == old(deps)@.pools[i as int]);
    let token = pool.tokens.remove(0);
    assert(pool@ == taken.without_oldest()) by {
        assert(pool@.tokens =~= taken.tokens.drop_first());
    }
    assert(token@ == taken.tokens[0]);
    deps.pools.set(i, pool);
    assert(deps@.pools =~= old(deps)@.pools.update(i as int, taken.without_oldest()));
    let transfer = match encode_transfer_nft(&sender, &token) {
        Ok(bytes) => bytes,
        Err(e) => {
            return Err(ContractError::StdError(e));
        },
    };
    let cw20_msg = CosmosMsg::Execute { contract_addr: deps.cw20_addr.clone(), msg: burn };
    let cw721_msg = CosmosMsg::Execute { contract_addr: deps.cw721_addr.clone(), msg: transfer };
    let amount_text = u128_text(amount);
    let poolid_text = u32_text(poolid);
    let resp = Response::new()
        .add_message(cw20_msg)
        .add_message(cw721_msg)
        .add_attribute("action", "redeem_token")
        .add_attribute("amount", amount_text.as_str())
        .add_attribute("poolid", poolid_text.as_str())
        .add_attribute("token_id", token.as_str());
    let ghost expected = redeem_reply(old(deps)@, amount, poolid, sender@, taken.tokens[0]);
    assert(resp@.attributes =~= expected.attributes);
    assert(resp@.messages =~= expected.messages);
    Ok(resp)
}

/// Tokens arrive: they must come from the booth's token contract and carry a
/// message that decodes; then they buy an NFT for the one who sent them.
pub open spec fn recieve_token_step(s: BoothView, info: MessageInfo, msg: TokenReceipt<RecieveTokenMsg>) -> Step {
    if info.sender@ != s.cw20_addr {
        Step::Fail(ContractErrorView::FaultyTokenContract { addr: info.sender@ })
    } else {
        match msg.msg {
            Err(e) => Step::Fail(ContractErrorView::StdError(e@)),
            Ok(RecieveTokenMsg::RedeemToken { poolid }) => redeem_token_step(
                s,
                msg.amount,
                poolid,
                msg.sender,
            ),
        }
    }
}

/// The pool that accepted tokens buy from exists (the handler panics otherwise).
pub open spec fn recieve_token_pre(s: BoothView, info: MessageInfo, msg: TokenReceipt<RecieveTokenMsg>) -> bool {
    info.sender@ == s.cw20_addr && msg.msg is Ok ==> s.has_pool(msg.msg->Ok_0->RedeemToken_poolid)
}

/// Handles the token contract's notice that tokens were sent to the booth.
pub fn recieve_token(deps: &mut Booth, env: &Env, info: &MessageInfo, msg: TokenReceipt<RecieveTokenMsg>) -> (r:
    Result<Response, ContractError>)
    requires
        old(deps).wf(),
        recieve_token_pre(old(deps)@, *info, msg),
    ensures
        final(deps).wf(),
        answers(old(deps)@, final(deps)@, r, recieve_token_step(old(deps)@, *info, msg)),
{
    if !(info.sender == deps.cw20_addr) {
        return Err(ContractError::FaultyTokenContract { addr: info.sender.clone() });
    }
    let rmsg = match msg.msg {
        Ok(m) => m,
        Err(e) => {
            return Err(ContractError::StdError(e));
        },
    };
    let amount: u128 = msg.amount;
    match rmsg {
        RecieveTokenMsg::RedeemToken { poolid } => redeem_token(deps, env, info, amount, poolid, msg.sender),
    }
}

// ---------------------------------------------------------------- update_admin

/// Accepts the call and does nothing: the admin stays as it is.
pub fn update_admin(deps: &mut Booth, _env: &Env, _info: &MessageInfo, _newadmin: String) -> (r: Result<
    Response,
    ContractError,
>)
    requires
        old(deps).wf(),
    ensures
        final(deps).wf(),
        answers(old(deps)@, final(deps)@, r, Step::Done(old(deps)@, ResponseView::empty())),
{
    Ok(Response::new())
}

} // verus!
