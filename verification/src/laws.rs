//! What holds of the booth across calls, proved over the handlers' steps.

use vstd::prelude::*;
use crate::context::MessageInfo;
use crate::execute::{
    add_nft_step, create_pool_step, recieve_nft_step, recieve_token_step, redeem_token_step,
    remove_nft_step, Step,
};
use crate::msg::{ExecuteMsg, NftReceipt, RecieveNftMsg, RecieveTokenMsg, TokenReceipt};
use crate::state::{first_index, BoothView, PoolView};
use crate::{execute_pre, execute_step, instantiate_step};
use crate::msg::{InstantiateChecks, InstantiateMsg, ReceiveTokenMsg};
use crate::response::ResponseView;
use crate::text::decimal;
use crate::contract::recieve_token_step as prize_recieve_token_step;
use crate::context::Env;
use crate::contract::{
    addnft_step, change_pool_state_step, create_prize_pool_step, mint_step, remove_nft_step as prize_remove_nft_step,
    remove_prizepool_step, PrizeStep,
};
use crate::error::ContractErrorView;
use crate::state::{live_pools, without_all, PoolState, PrizeBoothView, PrizepoolView};
use crate::contract::recieve_nft_step as prize_recieve_nft_step;
use crate::msg::ReceiveNftMsg;

verus! {

broadcast use vstd::seq_lib::group_to_multiset_ensures;

/// A pool that the admin creates gets the next id, holds no NFT and has the
/// given price; every other pool stays as it was.
pub proof fn law_create_pool_appends(s: BoothView, info: MessageInfo, price: u128)
    requires
        s.admin == info.sender@,
    ensures
        create_pool_step(s, info, price) matches Step::Done(t, _) && t.pools.len() == s.pools.len() + 1
            && t.pools[s.pools.len() as int] == PoolView::fresh(price) && (forall|i: int|
            0 <= i < s.pools.len() ==> t.pools[i] == s.pools[i]),
{
}

/// A sale hands out the pool's oldest NFT.
pub proof fn law_redeem_hands_out_oldest(s: BoothView, amount: u128, poolid: u32, sender: String)
    requires
        s.has_pool(poolid),
    ensures
        redeem_token_step(s, amount, poolid, sender) matches Step::Done(t, resp) ==> {
            &&& s.pools[poolid as int].tokens.len() > 0
            &&& amount == s.pools[poolid as int].price
            &&& resp.attributes[3] == ("token_id"@, s.pools[poolid as int].tokens[0])
            &&& t.pools[poolid as int].tokens == s.pools[poolid as int].tokens.drop_first()
        },
{
}

/// An NFT put into an empty pool is the one that the next sale hands out,
/// and the pool is empty again.
pub proof fn law_add_then_redeem_round_trip(s: BoothView, poolid: u32, token_id: String, buyer: String)
    requires
        s.has_pool(poolid),
        s.pools[poolid as int].tokens.len() == 0,
    ensures
        add_nft_step(s, poolid, token_id) matches Step::Done(t, _) && redeem_token_step(
            t,
            s.pools[poolid as int].price,
            poolid,
            buyer,
        ) matches Step::Done(u, resp) && resp.attributes[3] == ("token_id"@, token_id@)
            && u.pools[poolid as int] == s.pools[poolid as int],
{
    let pool = s.pools[poolid as int];
    assert(pool.with_token(token_id@).without_oldest().tokens =~= pool.tokens);
}

/// A new NFT joins behind the others: on a pool that holds an NFT, adding an
/// NFT and then selling gives the same NFT and the same booth as selling and
/// then adding. So NFTs are sold in the order in which they arrived.
pub proof fn law_add_and_redeem_commute(
    s: BoothView,
    amount: u128,
    poolid: u32,
    token_id: String,
    buyer: String,
)
    requires
        s.has_pool(poolid),
        s.pools[poolid as int].tokens.len() > 0,
        amount == s.pools[poolid as int].price,
    ensures
        ({
            let add_first = add_nft_step(s, poolid, token_id);
            let sell_first = redeem_token_step(s, amount, poolid, buyer);
            add_first matches Step::Done(a, _) && sell_first matches Step::Done(b, resp_b)
                && redeem_token_step(a, amount, poolid, buyer) matches Step::Done(ab, resp_ab)
                && add_nft_step(b, poolid, token_id) matches Step::Done(ba, _) && ab == ba
                && resp_ab.attributes == resp_b.attributes
        }),
{
    let pool = s.pools[poolid as int];
    let a = s.with_pool(poolid, pool.with_token(token_id@));
    let b = s.with_pool(poolid, pool.without_oldest());
    assert(pool.with_token(token_id@).without_oldest().tokens =~= pool.without_oldest().with_token(
        token_id@,
    ).tokens);
    assert(a.with_pool(poolid, a.pools[poolid as int].without_oldest()).pools =~= b.with_pool(
        poolid,
        b.pools[poolid as int].with_token(token_id@),
    ).pools);
}

/// A sale moves exactly one NFT out of the pool: the pool's NFTs before are
/// those after plus the one handed out.
pub proof fn law_redeem_conserves_nfts(s: BoothView, amount: u128, poolid: u32, sender: String)
    requires
        s.has_pool(poolid),
    ensures
        redeem_token_step(s, amount, poolid, sender) matches Step::Done(t, resp) ==> s.pools[poolid as int].tokens.to_multiset()
            =~= t.pools[poolid as int].tokens.to_multiset().insert(resp.attributes[3].1),
{
    let tokens = s.pools[poolid as int].tokens;
    if tokens.len() > 0 {
        assert(tokens.drop_first() == tokens.remove(0));
    }
}

/// Taking an NFT out moves exactly one copy of it out of the pool.
pub proof fn law_remove_nft_conserves_nfts(s: BoothView, info: MessageInfo, poolid: u32, token_id: String)
    requires
        s.has_pool(poolid),
        s.pools[poolid as int].tokens.contains(token_id@),
    ensures
        remove_nft_step(s, info, poolid, token_id) matches Step::Done(t, _) ==> s.pools[poolid as int].tokens.to_multiset()
            =~= t.pools[poolid as int].tokens.to_multiset().insert(token_id@),
{
    let tokens = s.pools[poolid as int].tokens;
    lemma_first_index_in_range(tokens, token_id@);
}

/// The first occurrence of an item that is there lies in range and holds it.
pub proof fn lemma_first_index_in_range(s: Seq<Seq<char>>, t: Seq<char>)
    requires
        s.contains(t),
    ensures
        0 <= first_index(s, t) < s.len(),
        s[first_index(s, t)] == t,
    decreases s.len(),
{
    if s[0] != t {
        let k = choose|k: int| 0 <= k < s.len() && s[k] == t;
        assert(s.drop_first()[k - 1] == t);
        lemma_first_index_in_range(s.drop_first(), t);
    }
}

/// No call changes the booth's contracts, its admin or a pool's price, and
/// no call removes a pool.
pub proof fn law_execute_keeps_setup(s: BoothView, info: MessageInfo, msg: ExecuteMsg)
    requires
        execute_pre(s, info, msg),
    ensures
        execute_step(s, info, msg) matches Step::Done(t, _) ==> {
            &&& t.cw20_addr == s.cw20_addr
            &&& t.cw721_addr == s.cw721_addr
            &&& t.admin == s.admin
            &&& t.pools.len() >= s.pools.len()
            &&& forall|i: int| 0 <= i < s.pools.len() ==> #[trigger] t.pools[i].price == s.pools[i].price
        },
{
}

/// An NFT joins a pool only when the booth's NFT contract reports that the
/// admin sent it.
pub proof fn law_nfts_enter_only_from_admin(s: BoothView, info: MessageInfo, msg: ExecuteMsg, i: int)
    requires
        execute_pre(s, info, msg),
        0 <= i < s.pools.len(),
        execute_step(s, info, msg) matches Step::Done(t, _) && t.pools[i].tokens.len() > s.pools[i].tokens.len(),
    ensures
        msg matches ExecuteMsg::ReceiveNft(m) && info.sender@ == s.cw721_addr && m.sender@ == s.admin,
{
    if let ExecuteMsg::RemoveNft { poolid, token_id, .. } = msg {
        if s.admin == info.sender@ {
            lemma_first_index_in_range(s.pools[poolid as int].tokens, token_id@);
        }
    }
}

/// An NFT leaves a pool only when it is bought at the pool's price through
/// the booth's token contract, or when the admin takes it out.
pub proof fn law_nfts_leave_only_by_sale_or_admin(s: BoothView, info: MessageInfo, msg: ExecuteMsg, i: int)
    requires
        execute_pre(s, info, msg),
        0 <= i < s.pools.len(),
        execute_step(s, info, msg) matches Step::Done(t, _) && t.pools[i].tokens.len() < s.pools[i].tokens.len(),
    ensures
        (msg matches ExecuteMsg::Receive(m) && info.sender@ == s.cw20_addr && m.amount == s.pools[i].price)
            || (msg is RemoveNft && info.sender@ == s.admin),
{
}


/// Prize pools: a new pool goes under an id that no pool ever had (the
/// number of slots), and every slot before it, empty or not, stays as it was.
pub proof fn law_prize_ids_never_reused(s: PrizeBoothView, env: Env, info: MessageInfo, mp: u128)
    ensures
        create_prize_pool_step(s, env, info, mp) matches PrizeStep::Done(t, _) && t.pools.len() == s.pools.len() + 1
            && t.pools[s.pools.len() as int] is Some && (forall|i: int|
            0 <= i < s.pools.len() ==> t.pools[i] == s.pools[i]),
{
}

/// Prize pools: a closed pool mints nothing.
pub proof fn law_closed_pool_mints_nothing(
    s: PrizeBoothView,
    info: MessageInfo,
    poolid: u32,
    minter: String,
    tokensent: u128,
    k: int,
)
    requires
        s.has_pool(poolid),
        s.pool(poolid).state == PoolState::Closed,
    ensures
        mint_step(s, info, poolid, minter, tokensent, k) == PrizeStep::Fail(
            ContractErrorView::PoolStateClosed { poolid },
        ),
{
}

/// Prize pools: a mint hands out one NFT of the pool, at the pool's price,
/// and the pool loses exactly that NFT.
pub proof fn law_mint_conserves_nfts(
    s: PrizeBoothView,
    info: MessageInfo,
    poolid: u32,
    minter: String,
    tokensent: u128,
    k: int,
)
    requires
        s.has_pool(poolid),
        0 <= k < s.pool(poolid).nft_list.len(),
    ensures
        mint_step(s, info, poolid, minter, tokensent, k) matches PrizeStep::Done(t, resp) ==> {
            &&& tokensent == s.pool(poolid).mintprice
            &&& s.pool(poolid).nft_list.contains(resp.attributes[3].1)
            &&& s.pool(poolid).nft_list.to_multiset() =~= t.pool(poolid).nft_list.to_multiset().insert(
                resp.attributes[3].1,
            )
        },
{
}

/// Prize pools: only a pool's admin takes NFTs out of it, removes it, or
/// opens and closes it; anyone else is refused and nothing changes.
pub proof fn law_prize_admin_only(
    s: PrizeBoothView,
    info: MessageInfo,
    poolid: u32,
    token_id: String,
    state: PoolState,
)
    requires
        s.has_pool(poolid),
        s.pool(poolid).admin != info.sender@,
    ensures
        prize_remove_nft_step(s, info, poolid, token_id) == PrizeStep::Fail(
            ContractErrorView::UnauthorizedAdmin { sender: info.sender@ },
        ),
        remove_prizepool_step(s, info, poolid) == PrizeStep::Fail(
            ContractErrorView::UnauthorizedAdmin { sender: info.sender@ },
        ),
        change_pool_state_step(s, info, poolid, state) == PrizeStep::Fail(
            ContractErrorView::UnauthorizedAdmin { sender: info.sender@ },
        ),
{
}

/// Prize pools: an NFT joins a pool only when its sender is the pool's admin.
pub proof fn law_prize_nfts_enter_only_from_admin(
    s: PrizeBoothView,
    info: MessageInfo,
    poolid: u32,
    sender: String,
    token_id: String,
    sender_check: Result<(), String>,
)
    requires
        s.has_pool(poolid),
    ensures
        addnft_step(s, info, poolid, sender, token_id, sender_check) is Done ==> sender@ == s.pool(poolid).admin,
{
}

/// Prize pools: taking an NFT out leaves no copy of it, and keeps every
/// other NFT as many times as it was there.
pub proof fn law_without_all(s: Seq<Seq<char>>, t: Seq<char>)
    ensures
        !without_all(s, t).contains(t),
        forall|x: Seq<char>| x != t ==> #[trigger] without_all(s, t).to_multiset().count(x) == s.to_multiset().count(x),
    decreases s.len(),
{
    if s.len() > 0 {
        law_without_all(s.drop_last(), t);
        let rest = without_all(s.drop_last(), t);
        assert(s =~= s.drop_last().push(s.last()));
        if s.last() != t {
            assert forall|y: Seq<char>| rest.push(s.last()).contains(y) implies y != t by {
                if y == t {
                    let j = choose|j: int| 0 <= j < rest.push(s.last()).len() && rest.push(s.last())[j] == y;
                    if j < rest.len() {
                        assert(rest.contains(t));
                    }
                }
            }
        }
    }
}

/// Prize pools: a removed pool stays removed; no handler fills an empty slot.
pub proof fn law_removed_pool_stays_removed(
    s: PrizeBoothView,
    env: Env,
    info: MessageInfo,
    poolid: u32,
    i: int,
    minter: String,
    token_id: String,
    sender_check: Result<(), String>,
    state: PoolState,
    mp: u128,
    k: int,
)
    requires
        s.has_pool(poolid),
        0 <= i < s.pools.len(),
        s.pools[i] is None,
    ensures
        create_prize_pool_step(s, env, info, mp) matches PrizeStep::Done(t, _) && t.pools[i] is None,
        mint_step(s, info, poolid, minter, mp, k) matches PrizeStep::Done(t, _) ==> t.pools[i] is None,
        addnft_step(s, info, poolid, minter, token_id, sender_check) matches PrizeStep::Done(t, _)
            ==> t.pools[i] is None,
        prize_remove_nft_step(s, info, poolid, token_id) matches PrizeStep::Done(t, _) ==> t.pools[i] is None,
        remove_prizepool_step(s, info, poolid) matches PrizeStep::Done(t, _) ==> t.pools[i] is None,
        change_pool_state_step(s, info, poolid, state) matches PrizeStep::Done(t, _) ==> t.pools[i] is None,
{
}

/// The booth after a call: the new booth, or the same one when the call is refused.
pub open spec fn after_call(s: BoothView, info: MessageInfo, msg: ExecuteMsg) -> BoothView {
    match execute_step(s, info, msg) {
        Step::Done(t, _) => t,
        Step::Fail(_) => s,
    }
}

/// Whether a call creates a pool.
pub open spec fn creates_pool(s: BoothView, info: MessageInfo, msg: ExecuteMsg) -> bool {
    msg is CreatePool && execute_step(s, info, msg) is Done
}

/// The booth after the calls `calls`, in order.
pub open spec fn run_calls(s: BoothView, calls: Seq<(MessageInfo, ExecuteMsg)>) -> BoothView
    decreases calls.len(),
{
    if calls.len() == 0 {
        s
    } else {
        after_call(run_calls(s, calls.drop_last()), calls.last().0, calls.last().1)
    }
}

/// How many of the calls `calls`, in order, created a pool.
pub open spec fn pools_created(s: BoothView, calls: Seq<(MessageInfo, ExecuteMsg)>) -> nat
    decreases calls.len(),
{
    if calls.len() == 0 {
        0
    } else {
        pools_created(s, calls.drop_last()) + if creates_pool(
            run_calls(s, calls.drop_last()),
            calls.last().0,
            calls.last().1,
        ) {
            1nat
        } else {
            0nat
        }
    }
}

/// Every call of `calls`, in order, is one on which no handler panics.
pub open spec fn calls_allowed(s: BoothView, calls: Seq<(MessageInfo, ExecuteMsg)>) -> bool
    decreases calls.len(),
{
    if calls.len() == 0 {
        true
    } else {
        calls_allowed(s, calls.drop_last()) && execute_pre(
            run_calls(s, calls.drop_last()),
            calls.last().0,
            calls.last().1,
        )
    }
}

/// One call adds a pool when it creates one, and otherwise keeps the count.
pub proof fn lemma_call_pool_count(s: BoothView, info: MessageInfo, msg: ExecuteMsg)
    requires
        execute_pre(s, info, msg),
    ensures
        after_call(s, info, msg).pools.len() == s.pools.len() + if creates_pool(s, info, msg) {
            1int
        } else {
            0int
        },
{
}

/// The number of pools grows by one with each pool created, and by nothing
/// else.
pub proof fn law_pool_count_counts_creations(s: BoothView, calls: Seq<(MessageInfo, ExecuteMsg)>)
    requires
        calls_allowed(s, calls),
    ensures
        run_calls(s, calls).pools.len() == s.pools.len() + pools_created(s, calls),
    decreases calls.len(),
{
    if calls.len() > 0 {
        law_pool_count_counts_creations(s, calls.drop_last());
        lemma_call_pool_count(run_calls(s, calls.drop_last()), calls.last().0, calls.last().1);
    }
}

/// After setting up and any calls, the number of pools (what
/// `query_num_pools` answers) is the number of pools created.
pub proof fn law_num_pools_after_setup(
    msg: InstantiateMsg,
    checks: InstantiateChecks,
    calls: Seq<(MessageInfo, ExecuteMsg)>,
)
    requires
        instantiate_step(msg, checks) is Ok,
        calls_allowed(instantiate_step(msg, checks)->Ok_0, calls),
    ensures
        run_calls(instantiate_step(msg, checks)->Ok_0, calls).pools.len() == pools_created(
            instantiate_step(msg, checks)->Ok_0,
            calls,
        ),
{
    law_pool_count_counts_creations(instantiate_step(msg, checks)->Ok_0, calls);
}

/// Each call goes to its handler, with the same result and effect.
pub proof fn law_execute_dispatches(s: BoothView, info: MessageInfo, msg: ExecuteMsg)
    ensures
        msg matches ExecuteMsg::CreatePool { price } ==> execute_step(s, info, msg) == create_pool_step(
            s,
            info,
            price,
        ),
        msg is RemovePool ==> execute_step(s, info, msg) == Step::Done(s, ResponseView::empty()),
        msg matches ExecuteMsg::ReceiveNft(m) ==> execute_step(s, info, msg) == recieve_nft_step(s, info, m),
        msg matches ExecuteMsg::RemoveNft { poolid, token_id, .. } ==> execute_step(s, info, msg)
            == remove_nft_step(s, info, poolid, token_id),
        msg matches ExecuteMsg::Receive(m) ==> execute_step(s, info, msg) == recieve_token_step(s, info, m),
        msg is UpdateAdmin ==> execute_step(s, info, msg) == Step::Done(s, ResponseView::empty()),
{
}

/// Tokens from the token contract with a message that decodes buy from the
/// pool as a sale to their sender at the amount sent.
pub proof fn law_recieve_token_is_redeem(s: BoothView, info: MessageInfo, msg: TokenReceipt<RecieveTokenMsg>)
    requires
        info.sender@ == s.cw20_addr,
        msg.msg is Ok,
    ensures
        recieve_token_step(s, info, msg) == redeem_token_step(
            s,
            msg.amount,
            msg.msg->Ok_0->RedeemToken_poolid,
            msg.sender,
        ),
{
}

/// Prize pools: tokens from the token contract, from a valid sender, with a
/// message that decodes, do what the mint does, and on success the response
/// also carries the balance that came in, last.
pub proof fn law_prize_recieve_token_is_mint(
    s: PrizeBoothView,
    info: MessageInfo,
    msg: TokenReceipt<ReceiveTokenMsg>,
    k: int,
)
    requires
        info.sender@ == s.cw20_addr,
        msg.sender_check is Ok,
        msg.msg is Ok,
    ensures
        ({
            let poolid = msg.msg->Ok_0->Mint_poolid;
            match mint_step(s, info, poolid, msg.sender, msg.amount, k) {
                PrizeStep::Done(t, resp) => prize_recieve_token_step(s, info, msg, k) == PrizeStep::Done(
                    t,
                    ResponseView {
                        messages: resp.messages,
                        attributes: resp.attributes.push(
                            (
                                "balance"@,
                                "address: "@ + msg.sender@ + ", amount: "@ + decimal(msg.amount as nat),
                            ),
                        ),
                    },
                ),
                PrizeStep::Fail(e) => prize_recieve_token_step(s, info, msg, k) == PrizeStep::Fail(e),
            }
        }),
{
}

/// Prize pools: a mint succeeds exactly when the pool is open, holds an NFT
/// and the tokens sent are its price; a successful mint changes nothing but
/// the drawn NFT's leaving: the pool keeps its admin, creation time, price
/// and state, and every other slot stays as it was.
pub proof fn law_mint_changes_only_the_drawn_nft(
    s: PrizeBoothView,
    info: MessageInfo,
    poolid: u32,
    minter: String,
    tokensent: u128,
    k: int,
)
    requires
        s.has_pool(poolid),
        0 <= k < s.pool(poolid).nft_list.len(),
    ensures
        (mint_step(s, info, poolid, minter, tokensent, k) is Done) == (s.pool(poolid).state == PoolState::Open
            && tokensent == s.pool(poolid).mintprice),
        mint_step(s, info, poolid, minter, tokensent, k) matches PrizeStep::Done(t, _) ==> {
            &&& t.pools.len() == s.pools.len()
            &&& t.has_pool(poolid)
            &&& t.pool(poolid).admin == s.pool(poolid).admin
            &&& t.pool(poolid).creation_time == s.pool(poolid).creation_time
            &&& t.pool(poolid).mintprice == s.pool(poolid).mintprice
            &&& t.pool(poolid).state == s.pool(poolid).state
            &&& t.pool(poolid).nft_list == s.pool(poolid).nft_list.remove(k)
            &&& forall|i: int| 0 <= i < s.pools.len() && i != poolid ==> t.pools[i] == s.pools[i]
        },
{
}

/// Prize pools: after a successful mint, a second mint from the same pool at
/// the same price succeeds whenever an NFT is left.
pub proof fn law_mint_leaves_pool_mintable(
    s: PrizeBoothView,
    info: MessageInfo,
    info2: MessageInfo,
    poolid: u32,
    minter: String,
    minter2: String,
    tokensent: u128,
    k: int,
    k2: int,
)
    requires
        s.has_pool(poolid),
        0 <= k < s.pool(poolid).nft_list.len(),
        0 <= k2 < s.pool(poolid).nft_list.len() - 1,
    ensures
        mint_step(s, info, poolid, minter, tokensent, k) matches PrizeStep::Done(t, _) ==> mint_step(
            t,
            info2,
            poolid,
            minter2,
            tokensent,
            k2,
        ) is Done,
{
}

/// Prize pools: an NFT sent by the pool's admin, reported by the NFT contract
/// with a valid sender and a message that decodes, is accepted whatever the
/// pool's state: it is appended to the pool's list, the pool is otherwise
/// unchanged, and so is every other slot.
pub proof fn law_admin_nft_always_joins(s: PrizeBoothView, info: MessageInfo, msg: NftReceipt<ReceiveNftMsg>)
    requires
        info.sender@ == s.cw721_addr,
        msg.msg is Ok,
        msg.sender_check is Ok,
        s.has_pool(msg.msg->Ok_0->AddNft_poolid),
        msg.sender@ == s.pool(msg.msg->Ok_0->AddNft_poolid).admin,
    ensures
        ({
            let poolid = msg.msg->Ok_0->AddNft_poolid;
            let before = s.pool(poolid);
            prize_recieve_nft_step(s, info, msg) matches PrizeStep::Done(t, _) && t.pools.len() == s.pools.len()
                && t.has_pool(poolid) && t.pool(poolid).nft_list == before.nft_list.push(msg.token_id@)
                && t.pool(poolid).state == before.state && t.pool(poolid).admin == before.admin
                && t.pool(poolid).mintprice == before.mintprice && t.pool(poolid).creation_time
                == before.creation_time && forall|i: int|
                0 <= i < s.pools.len() && i != poolid ==> t.pools[i] == s.pools[i]
        }),
{
}

/// Prize pools: the pool's admin can always set its state: the pool then has
/// exactly the state asked for and is otherwise unchanged; anyone else is
/// refused.
pub proof fn law_admin_sets_state(s: PrizeBoothView, info: MessageInfo, poolid: u32, state: PoolState)
    requires
        s.has_pool(poolid),
    ensures
        (change_pool_state_step(s, info, poolid, state) is Done) == (info.sender@ == s.pool(poolid).admin),
        change_pool_state_step(s, info, poolid, state) matches PrizeStep::Done(t, _) ==> {
            &&& t.pools.len() == s.pools.len()
            &&& t.has_pool(poolid)
            &&& t.pool(poolid).state == state
            &&& t.pool(poolid).nft_list == s.pool(poolid).nft_list
            &&& t.pool(poolid).admin == s.pool(poolid).admin
            &&& t.pool(poolid).mintprice == s.pool(poolid).mintprice
            &&& t.pool(poolid).creation_time == s.pool(poolid).creation_time
            &&& forall|i: int| 0 <= i < s.pools.len() && i != poolid ==> t.pools[i] == s.pools[i]
        },
{
}

/// Prize pools: a pool is removed exactly when its admin asks and it holds no
/// NFT, whatever its state; then its slot is empty and every other slot stays.
pub proof fn law_only_empty_pools_are_removed(s: PrizeBoothView, info: MessageInfo, poolid: u32)
    requires
        s.has_pool(poolid),
    ensures
        (remove_prizepool_step(s, info, poolid) is Done) == (info.sender@ == s.pool(poolid).admin
            && s.pool(poolid).nft_list.len() == 0),
        remove_prizepool_step(s, info, poolid) matches PrizeStep::Done(t, _) ==> {
            &&& t.pools.len() == s.pools.len()
            &&& t.pools[poolid as int] is None
            &&& forall|i: int| 0 <= i < s.pools.len() && i != poolid ==> t.pools[i] == s.pools[i]
        },
{
}

/// Prize pools: the pool list is every existing pool, in the order of the
/// slots, whatever the pools' states: the slots with their empty ones dropped.
pub proof fn law_pool_list_is_every_pool(slots: Seq<Option<PrizepoolView>>)
    ensures
        live_pools(slots) == slots.filter_map(|o: Option<PrizepoolView>| o),
    decreases slots.len(),
{
    if slots.len() > 0 {
        law_pool_list_is_every_pool(slots.drop_last());
        let rest = slots.drop_last().filter_map(|o: Option<PrizepoolView>| o);
        if let Some(p) = slots.last() {
            assert(rest + seq![p] =~= rest.push(p));
        }
    }
}

/// Prize pools: every existing pool is in the pool list, and the list holds
/// nothing else.
pub proof fn law_pool_list_holds_each_pool(slots: Seq<Option<PrizepoolView>>)
    ensures
        forall|i: int| 0 <= i < slots.len() && #[trigger] slots[i] is Some ==> live_pools(slots).contains(slots[i]->Some_0),
        forall|p: PrizepoolView| #[trigger] live_pools(slots).contains(p) ==> slots.contains(Some(p)),
    decreases slots.len(),
{
    if slots.len() > 0 {
        let rest = slots.drop_last();
        law_pool_list_holds_each_pool(rest);
        let l = live_pools(slots);
        let lr = live_pools(rest);
        assert forall|i: int| 0 <= i < slots.len() && #[trigger] slots[i] is Some implies l.contains(slots[i]->Some_0) by {
            if i < slots.len() - 1 {
                assert(rest[i] == slots[i]);
                let j = choose|j: int| 0 <= j < lr.len() && lr[j] == rest[i]->Some_0;
                if slots.last() is Some {
                    assert(l[j] == lr[j]);
                } else {
                    assert(l == lr);
                }
            } else {
                assert(l[l.len() - 1] == slots[i]->Some_0);
            }
        }
        assert forall|p: PrizepoolView| #[trigger] l.contains(p) implies slots.contains(Some(p)) by {
            let j = choose|j: int| 0 <= j < l.len() && l[j] == p;
            if slots.last() is Some && j == l.len() - 1 {
                assert(slots[slots.len() - 1] == Some(p));
            } else {
                assert(lr[j] == p);
                assert(lr.contains(p));
                let m = choose|m: int| 0 <= m < rest.len() && rest[m] == Some(p);
                assert(slots[m] == Some(p));
            }
        }
    }
}

} // verus!
