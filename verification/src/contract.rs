//! Prize pools: each pool belongs to the account that created it, which
//! fills it with NFTs and opens or closes it; while it is open, anyone can
//! mint an NFT drawn at random from it for the pool's price in tokens, which
//! go to the pool's admin.

use vstd::prelude::*;
use vstd::pervasive::VecAdditionalExecFns;
use crate::codec::{cw20_balance_text, random_index};
use crate::context::{Env, MessageInfo};
use crate::error::{ContractError, ContractErrorView};
use crate::msg::{NftReceipt, ReceiveNftMsg, ReceiveTokenMsg, TokenReceipt};
use crate::response::{CosmosMsg, MsgView, Response, ResponseView};
use crate::state::{
    live_pools, pool_state_text, slot_view, without_all, PoolState, PrizeBooth, PrizeBoothView,
    Prizepool, PrizepoolView,
};
use crate::text::{decimal, u128_text, u32_text};

verus! {

/// What a prize-pool handler does: the booth after the call and the
/// response, or the error (and then the booth is as it was).
pub enum PrizeStep {
    Done(PrizeBoothView, ResponseView),
    Fail(ContractErrorView),
}

/// The call went from `before` to `after` and returned `r`, as `step` says.
pub open spec fn prize_answers(
    before: PrizeBoothView,
    after: PrizeBoothView,
    r: Result<Response, ContractError>,
    step: PrizeStep,
) -> bool {
    match step {
        PrizeStep::Done(s, resp) => r matches Ok(x) && x@ == resp && after == s,
        PrizeStep::Fail(e) => r matches Err(x) && x@ == e && after == before,
    }
}

// ---------------------------------------------------------------- instantiate

/// The response to setting the booth up.
pub open spec fn instantiate_reply(sender: Seq<char>, cw20_addr: Seq<char>, cw721_addr: Seq<char>) -> ResponseView {
    ResponseView {
        messages: Seq::empty(),
        attributes: seq![
            ("action"@, "instantiate"@),
            ("instantiate_address"@, sender),
            ("cw721_address"@, cw721_addr),
            ("cw20_address"@, cw20_addr),
        ],
    }
}

/// Sets the booth up with its token and NFT contracts, and no pool.
/// `cw20_check` and `cw721_check` are the host's verdicts on the two addresses.
pub fn instantiate(
    _env: &Env,
    info: &MessageInfo,
    cw20_addr: String,
    cw721_addr: String,
    cw20_check: Result<(), String>,
    cw721_check: Result<(), String>,
) -> (r: Result<(PrizeBooth, Response), ContractError>)
    ensures
        match (cw20_check, cw721_check) {
            (Err(e), _) => r == Err::<(PrizeBooth, Response), ContractError>(ContractError::StdError(e)),
            (Ok(()), Err(e)) => r == Err::<(PrizeBooth, Response), ContractError>(ContractError::StdError(e)),
            (Ok(()), Ok(())) => r matches Ok((b, resp)) && b.wf() && b@ == (PrizeBoothView {
                cw20_addr: cw20_addr@,
                cw721_addr: cw721_addr@,
                pools: Seq::empty(),
            }) && resp@ == instantiate_reply(info.sender@, cw20_addr@, cw721_addr@),
        },
{
    if let Err(e) = cw20_check {
        return Err(ContractError::StdError(e));
    }
    if let Err(e) = cw721_check {
        return Err(ContractError::StdError(e));
    }
    let resp = Response::new()
        .add_attribute("action", "instantiate")
        .add_attribute("instantiate_address", info.sender.as_str())
        .add_attribute("cw721_address", cw721_addr.as_str())
        .add_attribute("cw20_address", cw20_addr.as_str());
    assert(resp@.attributes =~= instantiate_reply(info.sender@, cw20_addr@, cw721_addr@).attributes);
    assert(resp@.messages =~= Seq::<MsgView>::empty());
    let booth = PrizeBooth { cw20_addr, cw721_addr, pool_size: 0, pools: Vec::new() };
    assert(booth@.pools =~= Seq::<Option<PrizepoolView>>::empty());
    Ok((booth, resp))
}

// ---------------------------------------------------------------- create_prize_pool

/// The response to a pool's creation.
pub open spec fn create_prize_pool_reply(creator: Seq<char>, poolid: nat, mintprice: u128) -> ResponseView {
    ResponseView {
        messages: Seq::empty(),
        attributes: seq![
            ("action"@, "create_pool"@),
            ("creator"@, creator),
            ("poolid"@, decimal(poolid)),
            ("mintprice"@, decimal(mintprice as nat)),
        ],
    }
}

/// Anyone creates a pool: it is theirs, open, empty, and gets the next id.
pub open spec fn create_prize_pool_step(s: PrizeBoothView, env: Env, info: MessageInfo, mp: u128) -> PrizeStep {
    PrizeStep::Done(
        s.with_new_pool(PrizepoolView::fresh(info.sender@, env.block_time, mp)),
        create_prize_pool_reply(info.sender@, s.pools.len(), mp),
    )
}

/// Creates an open, empty pool of the sender that mints at `mp` tokens.
pub fn create_prize_pool(deps: &mut PrizeBooth, env: &Env, info: &MessageInfo, mp: u128) -> (r: Result<
    Response,
    ContractError,
>)
    requires
        old(deps).wf(),
        old(deps).pool_size < u32::MAX,
    ensures
        final(deps).wf(),
        prize_answers(old(deps)@, final(deps)@, r, create_prize_pool_step(old(deps)@, *env, *info, mp)),
{
    let newpool = Prizepool {
        admin: info.sender.clone(),
        creation_time: env.block_time,
        nft_list: Vec::new(),
        mintprice: mp,
        state: PoolState::Open,
    };
    let ghost fresh = PrizepoolView::fresh(info.sender@, env.block_time, mp);
    assert(newpool@ == fresh) by {
        assert(newpool@.nft_list =~= Seq::<Seq<char>>::empty());
    }
    let poolsize = deps.pool_size;
    deps.pools.push(Some(newpool));
    deps.pool_size = poolsize + 1;
    assert(deps@.pools =~= old(deps)@.pools.push(Some(fresh)));
    let poolid_text = u32_text(poolsize);
    let price_text = u128_text(mp);
    let resp = Response::new()
        .add_attribute("action", "create_pool")
        .add_attribute("creator", info.sender.as_str())
        .add_attribute("poolid", poolid_text.as_str())
        .add_attribute("mintprice", price_text.as_str());
    assert(resp@.attributes =~= create_prize_pool_reply(info.sender@, poolsize as nat, mp).attributes);
    assert(resp@.messages =~= Seq::<MsgView>::empty());
    Ok(resp)
}

/// Takes pool `poolid` out of its slot, leaving the slot empty.
fn take_pool(deps: &mut PrizeBooth, poolid: u32) -> (p: Prizepool)
    requires
        old(deps).wf(),
        old(deps)@.has_pool(poolid),
    ensures
        final(deps).wf(),
        p@ == old(deps)@.pool(poolid),
        final(deps)@ == old(deps)@.with_slot(poolid, None),
{
    let mut slot: Option<Prizepool> = None;
    deps.pools.set_and_swap(poolid as usize, &mut slot);
    assert(deps@.pools =~= old(deps)@.pools.update(poolid as int, None));
    match slot {
        Some(p) => p,
        None => {
            proof {
                assert(false);
            }
            Prizepool {
                admin: String::new(),
                creation_time: 0,
                nft_list: Vec::new(),
                mintprice: 0,
                state: PoolState::Closed,
            }
        },
    }
}

/// Puts `p` into slot `poolid`.
fn put_pool(deps: &mut PrizeBooth, poolid: u32, p: Prizepool)
    requires
        old(deps).wf(),
        poolid < old(deps)@.pools.len(),
    ensures
        final(deps).wf(),
        final(deps)@ == old(deps)@.with_slot(poolid, Some(p@)),
{
    let ghost v = p@;
    deps.pools.set(poolid as usize, Some(p));
    assert(deps@.pools =~= old(deps)@.pools.update(poolid as int, Some(v)));
}

// ---------------------------------------------------------------- mint

/// The response to a mint: the NFT goes to the minter, the tokens to the
/// pool's admin.
pub open spec fn mint_reply(
    s: PrizeBoothView,
    sender: Seq<char>,
    poolid: u32,
    minter: Seq<char>,
    tokensent: u128,
    nft: Seq<char>,
) -> ResponseView {
    ResponseView {
        messages: seq![
            MsgView::PrizeNftTransfer {
                contract_addr: s.cw721_addr,
                sender,
                recipient: minter,
                token_id: nft,
            },
            MsgView::PrizeTokenTransfer {
                contract_addr: s.cw20_addr,
                sender: minter,
                recipient: s.pool(poolid).admin,
                amount: tokensent,
            },
        ],
        attributes: seq![
            ("action"@, "mint"@),
            ("minter"@, minter),
            ("poolid"@, decimal(poolid as nat)),
            ("nft_minted"@, nft),
        ],
    }
}

/// A mint that draws the `k`-th NFT: the pool must be open, hold an NFT, and
/// `tokensent` must be its price.
pub open spec fn mint_step(
    s: PrizeBoothView,
    info: MessageInfo,
    poolid: u32,
    minter: String,
    tokensent: u128,
    k: int,
) -> PrizeStep {
    let pool = s.pool(poolid);
    if pool.state == PoolState::Closed {
        PrizeStep::Fail(ContractErrorView::PoolStateClosed { poolid })
    } else if pool.nft_list.len() == 0 {
        PrizeStep::Fail(ContractErrorView::ZeroLenNftList { poolid })
    } else if pool.mintprice != tokensent {
        PrizeStep::Fail(ContractErrorView::UnequalTokensToMint { t: tokensent })
    } else {
        PrizeStep::Done(
            s.with_slot(poolid, Some(pool.without_nft_at(k))),
            mint_reply(s, info.sender@, poolid, minter@, tokensent, pool.nft_list[k]),
        )
    }
}

/// Whether a mint from pool `poolid` with `tokensent` tokens succeeds.
pub open spec fn mint_succeeds(s: PrizeBoothView, poolid: u32, tokensent: u128) -> bool {
    let pool = s.pool(poolid);
    pool.state != PoolState::Closed && pool.nft_list.len() > 0 && pool.mintprice == tokensent
}

/// Mints the `nftindex`-th NFT of pool `poolid` to `minter`.
pub fn mint_at(
    deps: &mut PrizeBooth,
    _env: &Env,
    info: &MessageInfo,
    poolid: u32,
    minter: String,
    tokensent: u128,
    nftindex: usize,
) -> (r: Result<Response, ContractError>)
    requires
        old(deps).wf(),
        old(deps)@.has_pool(poolid),
        mint_succeeds(old(deps)@, poolid, tokensent) ==> nftindex < old(deps)@.pool(poolid).nft_list.len(),
    ensures
        final(deps).wf(),
        prize_answers(
            old(deps)@,
            final(deps)@,
            r,
            mint_step(old(deps)@, *info, poolid, minter, tokensent, nftindex as int),
        ),
{
    let i = poolid as usize;
    match &deps.pools[i] {
        Some(pool) => {
            if pool.state == PoolState::Closed {
                return Err(ContractError::PoolStateClosed { poolid });
            }
            if pool.nft_list.len() == 0 {
                return Err(ContractError::ZeroLenNftList { poolid });
            }
            if pool.mintprice != tokensent {
                return Err(ContractError::UnequalTokensToMint { t: tokensent });
            }
        },
        None => {
            proof {
                assert(false);
            }
        },
    }
    let mut pool = take_pool(deps, poolid);
    let ghost taken = pool@;
    let nft = pool.nft_list.remove(nftindex);
    assert(pool@ == taken.without_nft_at(nftindex as int)) by {
        assert(pool@.nft_list =~= taken.nft_list.remove(nftindex as int));
    }
    let admin = pool.admin.clone();
    put_pool(deps, poolid, pool);
    assert(deps@ == old(deps)@.with_slot(poolid, Some(taken.without_nft_at(nftindex as int)))) by {
        assert(deps@.pools =~= old(deps)@.pools.update(
            poolid as int,
            Some(taken.without_nft_at(nftindex as int)),
        ));
    }
    let sendnft = CosmosMsg::PrizeNftTransfer {
        contract_addr: deps.cw721_addr.clone(),
        sender: info.sender.clone(),
        recipient: minter.clone(),
        token_id: nft.clone(),
    };
    let sendtoken = CosmosMsg::PrizeTokenTransfer {
        contract_addr: deps.cw20_addr.clone(),
        sender: minter.clone(),
        recipient: admin,
        amount: tokensent,
    };
    let poolid_text = u32_text(poolid);
    let resp = Response::new()
        .add_message(sendnft)
        .add_message(sendtoken)
        .add_attribute("action", "mint")
        .add_attribute("minter", minter.as_str())
        .add_attribute("poolid", poolid_text.as_str())
        .add_attribute("nft_minted", nft.as_str());
    let ghost expected = mint_reply(
        old(deps)@,
        info.sender@,
        poolid,
        minter@,
        tokensent,
        taken.nft_list[nftindex as int],
    );
    assert(resp@.attributes =~= expected.attributes);
    assert(resp@.messages =~= expected.messages);
    Ok(resp)
}

/// Mints an NFT drawn at random from pool `poolid` to `minter`.
fn mint(
    deps: &mut PrizeBooth,
    env: &Env,
    info: &MessageInfo,
    poolid: u32,
    minter: String,
    tokensent: u128,
) -> (r: Result<Response, ContractError>)
    requires
        old(deps).wf(),
        old(deps)@.has_pool(poolid),
    ensures
        final(deps).wf(),
        exists|k: int|
            (mint_succeeds(old(deps)@, poolid, tokensent) ==> 0 <= k < old(
                deps,
            )@.pool(poolid).nft_list.len()) && prize_answers(
                old(deps)@,
                final(deps)@,
                r,
                #[trigger] mint_step(old(deps)@, *info, poolid, minter, tokensent, k),
            ),
{
    let ghost s = deps@;
    let len = match &deps.pools[poolid as usize] {
        Some(pool) => pool.nft_list.len(),
        None => 0,
    };
    if len == 0 {
        let ghost m = minter;
        let r = mint_at(deps, env, info, poolid, minter, tokensent, 0);
        assert(prize_answers(s, deps@, r, mint_step(s, *info, poolid, m, tokensent, 0)));
        return r;
    }
    let nftindex = random_index(len);
    let r = mint_at(deps, env, info, poolid, minter, tokensent, nftindex);
    assert(0 <= nftindex < s.pool(poolid).nft_list.len());
    r
}

// ---------------------------------------------------------------- recieve_token

/// Tokens arrive: they must come from the token contract, be sent by a valid
/// address, and carry a message that decodes; then they mint the `k`-th NFT
/// of the pool, and the response also shows the balance that came in.
pub open spec fn recieve_token_step(
    s: PrizeBoothView,
    info: MessageInfo,
    msg: TokenReceipt<ReceiveTokenMsg>,
    k: int,
) -> PrizeStep {
    if info.sender@ != s.cw20_addr {
        PrizeStep::Fail(ContractErrorView::UnauthorizedTokenContract { contract: info.sender@ })
    } else {
        match msg.sender_check {
            Err(e) => PrizeStep::Fail(ContractErrorView::StdError(e@)),
            Ok(()) => match msg.msg {
                Err(e) => PrizeStep::Fail(ContractErrorView::StdError(e@)),
                Ok(ReceiveTokenMsg::Mint { poolid }) => match mint_step(
                    s,
                    info,
                    poolid,
                    msg.sender,
                    msg.amount,
                    k,
                ) {
                    PrizeStep::Done(t, resp) => PrizeStep::Done(
                        t,
                        ResponseView {
                            attributes: resp.attributes.push(
                                (
                                    "balance"@,
                                    "address: "@ + msg.sender@ + ", amount: "@ + decimal(
                                        msg.amount as nat,
                                    ),
                                ),
                            ),
                            ..resp
                        },
                    ),
                    PrizeStep::Fail(e) => PrizeStep::Fail(e),
                },
            },
        }
    }
}

/// Accepted tokens mint from an existing pool, and the mint succeeds (the
/// handler panics otherwise).
pub open spec fn recieve_token_pre(s: PrizeBoothView, info: MessageInfo, msg: TokenReceipt<ReceiveTokenMsg>) -> bool {
    (info.sender@ == s.cw20_addr && msg.sender_check is Ok && msg.msg is Ok) ==> {
        let poolid = msg.msg->Ok_0->Mint_poolid;
        s.has_pool(poolid) && mint_succeeds(s, poolid, msg.amount)
    }
}

/// Where the tokens reach a mint that succeeds, the drawn index `k` lies in
/// the pool's list of NFTs.
pub open spec fn recieve_token_draw_in_range(
    s: PrizeBoothView,
    info: MessageInfo,
    msg: TokenReceipt<ReceiveTokenMsg>,
    k: int,
) -> bool {
    (info.sender@ == s.cw20_addr && msg.sender_check is Ok && msg.msg is Ok && mint_succeeds(
        s,
        msg.msg->Ok_0->Mint_poolid,
        msg.amount,
    )) ==> 0 <= k < s.pool(msg.msg->Ok_0->Mint_poolid).nft_list.len()
}

/// Handles the token contract's notice that tokens were sent to the booth.
pub fn recieve_token(
    deps: &mut PrizeBooth,
    env: &Env,
    info: &MessageInfo,
    msg: TokenReceipt<ReceiveTokenMsg>,
) -> (r: Result<Response, ContractError>)
    requires
        old(deps).wf(),
        recieve_token_pre(old(deps)@, *info, msg),
    ensures
        final(deps).wf(),
        exists|k: int|
            recieve_token_draw_in_range(old(deps)@, *info, msg, k) && prize_answers(
                old(deps)@,
                final(deps)@,
                r,
                #[trigger] recieve_token_step(old(deps)@, *info, msg, k),
            ),
{
    let ghost s = deps@;
    if !(deps.cw20_addr == info.sender) {
        let r = Err(ContractError::UnauthorizedTokenContract { contract: info.sender.clone() });
        assert(prize_answers(s, deps@, r, recieve_token_step(s, *info, msg, 0)));
        return r;
    }
    let ghost m = msg;
    let humanminter = msg.sender;
    if let Err(e) = msg.sender_check {
        let r = Err(ContractError::StdError(e));
        assert(prize_answers(s, deps@, r, recieve_token_step(s, *info, m, 0)));
        return r;
    }
    let rmsg = match msg.msg {
        Ok(x) => x,
        Err(e) => {
            let r = Err(ContractError::StdError(e));
            assert(prize_answers(s, deps@, r, recieve_token_step(s, *info, m, 0)));
            return r;
        },
    };
    let balance = cw20_balance_text(&humanminter, msg.amount);
    match rmsg {
        ReceiveTokenMsg::Mint { poolid } => {
            let r = mint(deps, env, info, poolid, humanminter, msg.amount);
            let ghost k = choose|k: int|
                (mint_succeeds(s, poolid, m.amount) ==> 0 <= k < s.pool(poolid).nft_list.len())
                    && prize_answers(
                    s,
                    deps@,
                    r,
                    #[trigger] mint_step(s, *info, poolid, m.sender, m.amount, k),
                );
            match r {
                Ok(resp) => {
                    let out = resp.add_attribute("balance", balance.as_str());
                    assert(prize_answers(s, deps@, Ok(out), recieve_token_step(s, *info, m, k)));
                    assert(recieve_token_draw_in_range(s, *info, m, k));
                    Ok(out)
                },
                Err(e) => {
                    // the requires makes the mint succeed
                    proof {
                        assert(false);
                    }
                    Err(e)
                },
            }
        },
    }
}

// ---------------------------------------------------------------- recieve_nft / addnft

/// The response to an NFT that joined a pool.
pub open spec fn addnft_reply(poolid: u32, sender: Seq<char>, token_id: Seq<char>, nft_contract: Seq<char>) -> ResponseView {
    ResponseView {
        messages: Seq::empty(),
        attributes: seq![
            ("action"@, "add_nft"@),
            ("poolid"@, decimal(poolid as nat)),
            ("sender"@, sender),
            ("token_id"@, token_id),
            ("nft_contract_address"@, nft_contract),
        ],
    }
}

/// An NFT joins a pool: its sender must be a valid address and the pool's
/// admin.
pub open spec fn addnft_step(
    s: PrizeBoothView,
    info: MessageInfo,
    poolid: u32,
    sender: String,
    token_id: String,
    sender_check: Result<(), String>,
) -> PrizeStep {
    match sender_check {
        Err(e) => PrizeStep::Fail(ContractErrorView::StdError(e@)),
        Ok(()) => {
            let pool = s.pool(poolid);
            if pool.admin != sender@ {
                PrizeStep::Fail(ContractErrorView::UnauthorizedAdmin { sender: pool.admin })
            } else {
                PrizeStep::Done(
                    s.with_slot(poolid, Some(pool.with_nft(token_id@))),
                    addnft_reply(poolid, sender@, token_id@, info.sender@),
                )
            }
        },
    }
}

/// Puts NFT `token_id`, sent by `sender`, into pool `poolid`.
fn addnft(
    deps: &mut PrizeBooth,
    _env: &Env,
    info: &MessageInfo,
    poolid: u32,
    sender: String,
    token_id: String,
    sender_check: Result<(), String>,
) -> (r: Result<Response, ContractError>)
    requires
        old(deps).wf(),
        sender_check is Ok ==> old(deps)@.has_pool(poolid),
    ensures
        final(deps).wf(),
        prize_answers(
            old(deps)@,
            final(deps)@,
            r,
            addnft_step(old(deps)@, *info, poolid, sender, token_id, sender_check),
        ),
{
    if let Err(e) = sender_check {
        return Err(ContractError::StdError(e));
    }
    let i = poolid as usize;
    match &deps.pools[i] {
        Some(pool) => {
            if !(pool.admin == sender) {
                return Err(ContractError::UnauthorizedAdmin { sender: pool.admin.clone() });
            }
        },
        None => {
            proof {
                assert(false);
            }
        },
    }
    let mut pool = take_pool(deps, poolid);
    let ghost taken = pool@;
    let ghost t = token_id@;
    let token_text = token_id.clone();
    pool.nft_list.push(token_id);
    assert(pool@ == taken.with_nft(t)) by {
        assert(pool@.nft_list =~= taken.nft_list.push(t));
    }
    put_pool(deps, poolid, pool);
    assert(deps@.pools =~= old(deps)@.pools.update(poolid as int, Some(taken.with_nft(t))));
    let poolid_text = u32_text(poolid);
    let resp = Response::new()
        .add_attribute("action", "add_nft")
        .add_attribute("poolid", poolid_text.as_str())
        .add_attribute("sender", sender.as_str())
        .add_attribute("token_id", token_text.as_str())
        .add_attribute("nft_contract_address", info.sender.as_str());
    assert(resp@.attributes =~= addnft_reply(poolid, sender@, t, info.sender@).attributes);
    assert(resp@.messages =~= Seq::<MsgView>::empty());
    Ok(resp)
}

/// An NFT arrives: it must come from the NFT contract and carry a message
/// that decodes; then it joins its pool as [`addnft_step`] says.
pub open spec fn recieve_nft_step(s: PrizeBoothView, info: MessageInfo, msg: NftReceipt<ReceiveNftMsg>) -> PrizeStep {
    if info.sender@ != s.cw721_addr {
        PrizeStep::Fail(ContractErrorView::UnauthorizedNFTContract { contract: info.sender@ })
    } else {
        match msg.msg {
            Err(e) => PrizeStep::Fail(ContractErrorView::StdError(e@)),
            Ok(ReceiveNftMsg::AddNft { poolid }) => addnft_step(
                s,
                info,
                poolid,
                msg.sender,
                msg.token_id,
                msg.sender_check,
            ),
        }
    }
}

/// The pool that an NFT from a valid sender goes to exists (the handler
/// panics otherwise).
pub open spec fn recieve_nft_pre(s: PrizeBoothView, info: MessageInfo, msg: NftReceipt<ReceiveNftMsg>) -> bool {
    (info.sender@ == s.cw721_addr && msg.msg is Ok && msg.sender_check is Ok) ==> s.has_pool(
        msg.msg->Ok_0->AddNft_poolid,
    )
}

/// Handles the NFT contract's notice that an NFT was sent to the booth.
pub fn recieve_nft(
    deps: &mut PrizeBooth,
    env: &Env,
    info: &MessageInfo,
    msg: NftReceipt<ReceiveNftMsg>,
) -> (r: Result<Response, ContractError>)
    requires
        old(deps).wf(),
        recieve_nft_pre(old(deps)@, *info, msg),
    ensures
        final(deps).wf(),
        prize_answers(old(deps)@, final(deps)@, r, recieve_nft_step(old(deps)@, *info, msg)),
{
    if !(deps.cw721_addr == info.sender) {
        return Err(ContractError::UnauthorizedNFTContract { contract: info.sender.clone() });
    }
    let rmsg = match msg.msg {
        Ok(x) => x,
        Err(e) => {
            return Err(ContractError::StdError(e));
        },
    };
    match rmsg {
        ReceiveNftMsg::AddNft { poolid } => addnft(
            deps,
            env,
            info,
            poolid,
            msg.sender,
            msg.token_id,
            msg.sender_check,
        ),
    }
}

// ---------------------------------------------------------------- remove_nft

/// The response to taking an NFT out of a pool: it goes back to the admin.
pub open spec fn remove_nft_reply(s: PrizeBoothView, admin: Seq<char>, poolid: u32, token_id: Seq<char>) -> ResponseView {
    ResponseView {
        messages: seq![
            MsgView::PrizeNftTransfer {
                contract_addr: s.cw721_addr,
                sender: admin,
                recipient: admin,
                token_id,
            },
        ],
        attributes: seq![
            ("action"@, "remove_nft"@),
            ("poolid"@, decimal(poolid as nat)),
            ("tokenid"@, token_id),
            ("admin"@, admin),
        ],
    }
}

/// Only the pool's admin takes NFTs out; every copy of the NFT leaves.
pub open spec fn remove_nft_step(s: PrizeBoothView, info: MessageInfo, poolid: u32, token_id: String) -> PrizeStep {
    let pool = s.pool(poolid);
    if pool.admin != info.sender@ {
        PrizeStep::Fail(ContractErrorView::UnauthorizedAdmin { sender: info.sender@ })
    } else {
        PrizeStep::Done(
            s.with_slot(poolid, Some(pool.without_nft(token_id@))),
            remove_nft_reply(s, info.sender@, poolid, token_id@),
        )
    }
}

/// `tokens` without any copy of `t`, the rest in order.
pub fn retain_others(tokens: &Vec<String>, t: &String) -> (r: Vec<String>)
    ensures
        r@.map_values(|x: String| x@) == without_all(tokens@.map_values(|x: String| x@), t@),
{
    let ghost all = tokens@.map_values(|x: String| x@);
    let mut kept: Vec<String> = Vec::new();
    let mut i: usize = 0;
    while i < tokens.len()
        invariant
            i <= tokens@.len(),
            all == tokens@.map_values(|x: String| x@),
            kept@.map_values(|x: String| x@) == without_all(all.take(i as int), t@),
        decreases tokens@.len() - i,
    {
        let ghost before = kept@.map_values(|x: String| x@);
        assert(all.take(i + 1).drop_last() =~= all.take(i as int));
        assert(all.take(i + 1).last() == all[i as int]);
        if !(tokens[i] == *t) {
            kept.push(tokens[i].clone());
            assert(kept@.map_values(|x: String| x@) =~= before.push(all[i as int]));
        }
        i = i + 1;
    }
    assert(all.take(tokens@.len() as int) =~= all);
    kept
}

/// Takes every copy of NFT `token_id` out of pool `poolid` and sends it back
/// to the pool's admin.
pub fn remove_nft(
    deps: &mut PrizeBooth,
    _env: &Env,
    info: &MessageInfo,
    poolid: u32,
    token_id: String,
) -> (r: Result<Response, ContractError>)
    requires
        old(deps).wf(),
        old(deps)@.has_pool(poolid),
    ensures
        final(deps).wf(),
        prize_answers(old(deps)@, final(deps)@, r, remove_nft_step(old(deps)@, *info, poolid, token_id)),
{
    match &deps.pools[poolid as usize] {
        Some(pool) => {
            if !(pool.admin == info.sender) {
                return Err(ContractError::UnauthorizedAdmin { sender: info.sender.clone() });
            }
        },
        None => {
            proof {
                assert(false);
            }
        },
    }
    let mut pool = take_pool(deps, poolid);
    let ghost taken = pool@;
    pool.nft_list = retain_others(&pool.nft_list, &token_id);
    assert(pool@ == taken.without_nft(token_id@));
    put_pool(deps, poolid, pool);
    assert(deps@.pools =~= old(deps)@.pools.update(poolid as int, Some(taken.without_nft(token_id@))));
    let sendnft = CosmosMsg::PrizeNftTransfer {
        contract_addr: deps.cw721_addr.clone(),
        sender: info.sender.clone(),
        recipient: info.sender.clone(),
        token_id: token_id.clone(),
    };
    let poolid_text = u32_text(poolid);
    let resp = Response::new()
        .add_message(sendnft)
        .add_attribute("action", "remove_nft")
        .add_attribute("poolid", poolid_text.as_str())
        .add_attribute("tokenid", token_id.as_str())
        .add_attribute("admin", info.sender.as_str());
    let ghost expected = remove_nft_reply(old(deps)@, info.sender@, poolid, token_id@);
    assert(resp@.attributes =~= expected.attributes);
    assert(resp@.messages =~= expected.messages);
    Ok(resp)
}

// ---------------------------------------------------------------- remove_prizepool

/// The response to a pool's removal.
pub open spec fn remove_prizepool_reply(poolid: u32, admin: Seq<char>) -> ResponseView {
    ResponseView {
        messages: Seq::empty(),
        attributes: seq![
            ("action"@, "remove_prizepool"@),
            ("poolid"@, decimal(poolid as nat)),
            ("admin"@, admin),
        ],
    }
}

/// Only the pool's admin removes it, and only once it holds no NFT.
pub open spec fn remove_prizepool_step(s: PrizeBoothView, info: MessageInfo, poolid: u32) -> PrizeStep {
    let pool = s.pool(poolid);
    if pool.admin != info.sender@ {
        PrizeStep::Fail(ContractErrorView::UnauthorizedAdmin { sender: info.sender@ })
    } else if pool.nft_list.len() > 0 {
        PrizeStep::Fail(ContractErrorView::NonZeroNftList { poolid })
    } else {
        PrizeStep::Done(s.with_slot(poolid, None), remove_prizepool_reply(poolid, info.sender@))
    }
}

/// Removes pool `poolid`; its id is not given again.
pub fn remove_prizepool(deps: &mut PrizeBooth, _env: &Env, info: &MessageInfo, poolid: u32) -> (r: Result<
    Response,
    ContractError,
>)
    requires
        old(deps).wf(),
        old(deps)@.has_pool(poolid),
    ensures
        final(deps).wf(),
        prize_answers(old(deps)@, final(deps)@, r, remove_prizepool_step(old(deps)@, *info, poolid)),
{
    match &deps.pools[poolid as usize] {
        Some(pool) => {
            if !(pool.admin == info.sender) {
                return Err(ContractError::UnauthorizedAdmin { sender: info.sender.clone() });
            }
            if pool.nft_list.len() > 0 {
                return Err(ContractError::NonZeroNftList { poolid });
            }
        },
        None => {
            proof {
                assert(false);
            }
        },
    }
    let _removed = take_pool(deps, poolid);
    let poolid_text = u32_text(poolid);
    let resp = Response::new()
        .add_attribute("action", "remove_prizepool")
        .add_attribute("poolid", poolid_text.as_str())
        .add_attribute("admin", info.sender.as_str());
    assert(resp@.attributes =~= remove_prizepool_reply(poolid, info.sender@).attributes);
    assert(resp@.messages =~= Seq::<MsgView>::empty());
    Ok(resp)
}

// ---------------------------------------------------------------- change_pool_state

/// The response to a change of a pool's state.
pub open spec fn change_pool_state_reply(admin: Seq<char>, state: PoolState, poolid: u32) -> ResponseView {
    ResponseView {
        messages: Seq::empty(),
        attributes: seq![
            ("action"@, "change_pool_state"@),
            ("admin"@, admin),
            ("state"@, pool_state_text(state)),
            ("poolid"@, decimal(poolid as nat)),
        ],
    }
}

/// Only the pool's admin opens or closes it.
pub open spec fn change_pool_state_step(
    s: PrizeBoothView,
    info: MessageInfo,
    poolid: u32,
    state: PoolState,
) -> PrizeStep {
    let pool = s.pool(poolid);
    if pool.admin != info.sender@ {
        PrizeStep::Fail(ContractErrorView::UnauthorizedAdmin { sender: info.sender@ })
    } else {
        PrizeStep::Done(
            s.with_slot(poolid, Some(pool.with_state(state))),
            change_pool_state_reply(info.sender@, state, poolid),
        )
    }
}

/// Sets the state of pool `poolid`.
pub fn change_pool_state(
    deps: &mut PrizeBooth,
    _env: &Env,
    info: &MessageInfo,
    poolid: u32,
    state: PoolState,
) -> (r: Result<Response, ContractError>)
    requires
        old(deps).wf(),
        old(deps)@.has_pool(poolid),
    ensures
        final(deps).wf(),
        prize_answers(old(deps)@, final(deps)@, r, change_pool_state_step(old(deps)@, *info, poolid, state)),
{
    match &deps.pools[poolid as usize] {
        Some(pool) => {
            if !(pool.admin == info.sender) {
                return Err(ContractError::UnauthorizedAdmin { sender: info.sender.clone() });
            }
        },
        None => {
            proof {
                assert(false);
            }
        },
    }
    let mut pool = take_pool(deps, poolid);
    let ghost taken = pool@;
    pool.state = state;
    assert(pool@ == taken.with_state(state));
    put_pool(deps, poolid, pool);
    assert(deps@.pools =~= old(deps)@.pools.update(poolid as int, Some(taken.with_state(state))));
    let state_text = state.to_text();
    let poolid_text = u32_text(poolid);
    let resp = Response::new()
        .add_attribute("action", "change_pool_state")
        .add_attribute("admin", info.sender.as_str())
        .add_attribute("state", state_text.as_str())
        .add_attribute("poolid", poolid_text.as_str());
    assert(resp@.attributes =~= change_pool_state_reply(info.sender@, state, poolid).attributes);
    assert(resp@.messages =~= Seq::<MsgView>::empty());
    Ok(resp)
}

// ---------------------------------------------------------------- get_pool_list

/// Every pool that exists, by ascending id.
pub fn get_pool_list(deps: &PrizeBooth, _env: &Env) -> (r: Vec<Prizepool>)
    requires
        deps.wf(),
    ensures
        r@.map_values(|p: Prizepool| p@) == live_pools(deps@.pools),
{
    let ghost slots = deps@.pools;
    let mut resp: Vec<Prizepool> = Vec::new();
    let mut i: usize = 0;
    while i < deps.pools.len()
        invariant
            i <= deps.pools@.len(),
            slots == deps@.pools,
            resp@.map_values(|p: Prizepool| p@) == live_pools(slots.take(i as int)),
        decreases deps.pools@.len() - i,
    {
        let ghost before = resp@.map_values(|p: Prizepool| p@);
        assert(slots.take(i + 1).drop_last() =~= slots.take(i as int));
        assert(slots.take(i + 1).last() == slots[i as int]);
        match &deps.pools[i] {
            Some(pool) => {
                let copy = pool.duplicate();
                resp.push(copy);
                assert(resp@.map_values(|p: Prizepool| p@) =~= before.push(pool@));
            },
            None => {},
        }
        i = i + 1;
    }
    assert(slots.take(deps.pools@.len() as int) =~= slots);
    resp
}

} // verus!
