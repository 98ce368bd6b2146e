//! The booth's stored state and its mathematical model.

use vstd::prelude::*;

verus! {

/// A pool of NFTs, each sold at `price` tokens. `tokens` holds the NFTs'
/// ids in the order in which they arrived.
#[derive(Debug, Clone, PartialEq, Eq)]
pub struct Pool {
    pub tokens: Vec<String>,
    pub price: u128,
}

/// The mathematical value of a [`Pool`].
pub struct PoolView {
    pub tokens: Seq<Seq<char>>,
    pub price: u128,
}

impl View for Pool {
    type V = PoolView;

    open spec fn view(&self) -> PoolView {
        PoolView { tokens: self.tokens@.map_values(|t: String| t@), price: self.price }
    }
}

/// The index of the first occurrence of `t` in `s`, or `s.len()` when there is none.
pub open spec fn first_index(s: Seq<Seq<char>>, t: Seq<char>) -> int
    decreases s.len(),
{
    if s.len() == 0 {
        0
    } else if s[0] == t {
        0
    } else {
        1 + first_index(s.drop_first(), t)
    }
}

impl PoolView {
    /// A new pool: no NFT, and the given price.
    pub open spec fn fresh(price: u128) -> PoolView {
        PoolView { tokens: Seq::empty(), price }
    }

    /// The pool after NFT `t` arrived.
    pub open spec fn with_token(self, t: Seq<char>) -> PoolView {
        PoolView { tokens: self.tokens.push(t), ..self }
    }

    /// The pool after its oldest NFT left.
    pub open spec fn without_oldest(self) -> PoolView {
        PoolView { tokens: self.tokens.drop_first(), ..self }
    }

    /// The pool after the first occurrence of NFT `t` left.
    pub open spec fn without_token(self, t: Seq<char>) -> PoolView {
        PoolView { tokens: self.tokens.remove(first_index(self.tokens, t)), ..self }
    }
}

/// The booth: its admin, the token and NFT contracts it trades in, and its
/// pools, whose ids are `0..num_pools`.
#[derive(Debug, Clone, PartialEq, Eq)]
pub struct Booth {
    pub cw20_addr: String,
    pub cw721_addr: String,
    pub admin: String,
    pub num_pools: u32,
    pub pools: Vec<Pool>,
}

/// The mathematical value of a [`Booth`]; pool `i` is `pools[i]`.
pub struct BoothView {
    pub cw20_addr: Seq<char>,
    pub cw721_addr: Seq<char>,
    pub admin: Seq<char>,
    pub pools: Seq<PoolView>,
}

impl View for Booth {
    type V = BoothView;

    open spec fn view(&self) -> BoothView {
        BoothView {
            cw20_addr: self.cw20_addr@,
            cw721_addr: self.cw721_addr@,
            admin: self.admin@,
            pools: self.pools@.map_values(|p: Pool| p@),
        }
    }
}

impl Booth {
    /// The pool counter counts the pools.
    pub open spec fn wf(&self) -> bool {
        self.num_pools as int == self.pools@.len()
    }
}

impl BoothView {
    /// Whether pool `poolid` exists.
    pub open spec fn has_pool(self, poolid: u32) -> bool {
        poolid < self.pools.len()
    }

    /// The booth after a new pool with the given price was added.
    pub open spec fn with_new_pool(self, price: u128) -> BoothView {
        BoothView { pools: self.pools.push(PoolView::fresh(price)), ..self }
    }

    /// The booth with pool `poolid` replaced by `pool`.
    pub open spec fn with_pool(self, poolid: u32, pool: PoolView) -> BoothView {
        BoothView { pools: self.pools.update(poolid as int, pool), ..self }
    }
}

} // verus!

verus! {

/// `first_index` finds the first occurrence.
pub proof fn lemma_first_index(s: Seq<Seq<char>>, t: Seq<char>, i: int)
    requires
        0 <= i < s.len(),
        s[i] == t,
        forall|j: int| 0 <= j < i ==> s[j] != t,
    ensures
        first_index(s, t) == i,
    decreases i,
{
    if i > 0 {
        lemma_first_index(s.drop_first(), t, i - 1);
    }
}

} // verus!

verus! {

impl Pool {
    /// A copy of the pool.
    pub fn duplicate(&self) -> (r: Pool)
        ensures
            r@ == self@,
    {
        let mut tokens: Vec<String> = Vec::new();
        let mut i: usize = 0;
        while i < self.tokens.len()
            invariant
                i <= self.tokens@.len(),
                tokens@.len() == i,
                forall|j: int| 0 <= j < i ==> tokens@[j]@ == self.tokens@[j]@,
            decreases self.tokens@.len() - i,
        {
            tokens.push(self.tokens[i].clone());
            i = i + 1;
        }
        let r = Pool { tokens, price: self.price };
        assert(r@.tokens =~= self@.tokens);
        r
    }
}

} // verus!

verus! {

/// Prize pools: whether a pool can be minted from.
#[derive(Debug, Clone, Copy, PartialEq, Eq, Structural)]
pub enum PoolState {
    Open,
    Closed,
}

/// Prize pools: the text of a pool state.
pub open spec fn pool_state_text(state: PoolState) -> Seq<char> {
    match state {
        PoolState::Open => "open"@,
        PoolState::Closed => "closed"@,
    }
}

impl PoolState {
    /// The state's text, as attribute values carry it.
    pub fn to_text(&self) -> (s: String)
        ensures
            s@ == pool_state_text(*self),
    {
        match self {
            PoolState::Open => String::from_str("open"),
            PoolState::Closed => String::from_str("closed"),
        }
    }
}

/// Prize pools: a pool that its `admin` created at `creation_time`
/// (nanoseconds), holding NFTs that anyone can mint, one drawn at random,
/// for `mintprice` tokens while the pool is open.
#[derive(Debug, Clone, PartialEq, Eq)]
pub struct Prizepool {
    pub admin: String,
    pub creation_time: u64,
    pub nft_list: Vec<String>,
    pub mintprice: u128,
    pub state: PoolState,
}

/// The mathematical value of a [`Prizepool`].
pub struct PrizepoolView {
    pub admin: Seq<char>,
    pub creation_time: u64,
    pub nft_list: Seq<Seq<char>>,
    pub mintprice: u128,
    pub state: PoolState,
}

impl View for Prizepool {
    type V = PrizepoolView;

    open spec fn view(&self) -> PrizepoolView {
        PrizepoolView {
            admin: self.admin@,
            creation_time: self.creation_time,
            nft_list: self.nft_list@.map_values(|t: String| t@),
            mintprice: self.mintprice,
            state: self.state,
        }
    }
}

/// `s` without any copy of `t`, the rest in order.
pub open spec fn without_all(s: Seq<Seq<char>>, t: Seq<char>) -> Seq<Seq<char>>
    decreases s.len(),
{
    if s.len() == 0 {
        s
    } else if s.last() == t {
        without_all(s.drop_last(), t)
    } else {
        without_all(s.drop_last(), t).push(s.last())
    }
}

impl PrizepoolView {
    /// A new pool of `admin`: open, no NFT.
    pub open spec fn fresh(admin: Seq<char>, creation_time: u64, mintprice: u128) -> PrizepoolView {
        PrizepoolView {
            admin,
            creation_time,
            nft_list: Seq::empty(),
            mintprice,
            state: PoolState::Open,
        }
    }

    /// The pool after NFT `t` arrived.
    pub open spec fn with_nft(self, t: Seq<char>) -> PrizepoolView {
        PrizepoolView { nft_list: self.nft_list.push(t), ..self }
    }

    /// The pool after its `k`-th NFT left.
    pub open spec fn without_nft_at(self, k: int) -> PrizepoolView {
        PrizepoolView { nft_list: self.nft_list.remove(k), ..self }
    }

    /// The pool after every copy of NFT `t` left.
    pub open spec fn without_nft(self, t: Seq<char>) -> PrizepoolView {
        PrizepoolView { nft_list: without_all(self.nft_list, t), ..self }
    }

    /// The pool in state `state`.
    pub open spec fn with_state(self, state: PoolState) -> PrizepoolView {
        PrizepoolView { state, ..self }
    }
}

/// Prize pools: the booth's token and NFT contracts, and its pools: pool `i`
/// is `pools[i]`, `None` once removed. `pool_size` counts the pools ever
/// created, so that an id is never given twice.
#[derive(Debug, Clone, PartialEq, Eq)]
pub struct PrizeBooth {
    pub cw20_addr: String,
    pub cw721_addr: String,
    pub pool_size: u32,
    pub pools: Vec<Option<Prizepool>>,
}

/// The mathematical value of a [`PrizeBooth`].
pub struct PrizeBoothView {
    pub cw20_addr: Seq<char>,
    pub cw721_addr: Seq<char>,
    pub pools: Seq<Option<PrizepoolView>>,
}

/// The view of a slot of the pool table.
pub open spec fn slot_view(p: Option<Prizepool>) -> Option<PrizepoolView> {
    match p {
        Some(pool) => Some(pool@),
        None => None,
    }
}

impl View for PrizeBooth {
    type V = PrizeBoothView;

    open spec fn view(&self) -> PrizeBoothView {
        PrizeBoothView {
            cw20_addr: self.cw20_addr@,
            cw721_addr: self.cw721_addr@,
            pools: self.pools@.map_values(|p: Option<Prizepool>| slot_view(p)),
        }
    }
}

impl PrizeBooth {
    /// The pool counter counts the slots of the pool table.
    pub open spec fn wf(&self) -> bool {
        self.pool_size as int == self.pools@.len()
    }
}

impl PrizeBoothView {
    /// Whether pool `poolid` was created and not removed.
    pub open spec fn has_pool(self, poolid: u32) -> bool {
        poolid < self.pools.len() && self.pools[poolid as int] is Some
    }

    /// Pool `poolid`, where it exists.
    pub open spec fn pool(self, poolid: u32) -> PrizepoolView {
        self.pools[poolid as int]->Some_0
    }

    /// The booth with slot `poolid` set to `slot`.
    pub open spec fn with_slot(self, poolid: u32, slot: Option<PrizepoolView>) -> PrizeBoothView {
        PrizeBoothView { pools: self.pools.update(poolid as int, slot), ..self }
    }

    /// The booth after a new pool was added under the next id.
    pub open spec fn with_new_pool(self, pool: PrizepoolView) -> PrizeBoothView {
        PrizeBoothView { pools: self.pools.push(Some(pool)), ..self }
    }
}

/// The pools that exist, by ascending id.
pub open spec fn live_pools(slots: Seq<Option<PrizepoolView>>) -> Seq<PrizepoolView>
    decreases slots.len(),
{
    if slots.len() == 0 {
        Seq::empty()
    } else {
        match slots.last() {
            Some(p) => live_pools(slots.drop_last()).push(p),
            None => live_pools(slots.drop_last()),
        }
    }
}

impl Prizepool {
    /// A copy of the pool.
    pub fn duplicate(&self) -> (r: Prizepool)
        ensures
            r@ == self@,
    {
        let mut nft_list: Vec<String> = Vec::new();
        let mut i: usize = 0;
        while i < self.nft_list.len()
            invariant
                i <= self.nft_list@.len(),
                nft_list@.len() == i,
                forall|j: int| 0 <= j < i ==> nft_list@[j]@ == self.nft_list@[j]@,
            decreases self.nft_list@.len() - i,
        {
            nft_list.push(self.nft_list[i].clone());
            i = i + 1;
        }
        let r = Prizepool {
            admin: self.admin.clone(),
            creation_time: self.creation_time,
            nft_list,
            mintprice: self.mintprice,
            state: self.state,
        };
        assert(r@.nft_list =~= self@.nft_list);
        r
    }
}

} // verus!
