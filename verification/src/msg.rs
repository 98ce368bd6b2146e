//! The messages that the booth takes and the answers that it gives.

use vstd::prelude::*;
use crate::state::Pool;

verus! {

/// The booth's setup: its admin and the token and NFT contracts it trades in.
#[derive(Debug, Clone, PartialEq, Eq)]
pub struct InstantiateMsg {
    pub admin: String,
    pub cw20_addr: String,
    pub cw721_addr: String,
}

/// What tokens sent to the booth are for.
#[derive(Debug, Clone, Copy, PartialEq, Eq)]
pub enum RecieveTokenMsg {
    /// Buy an NFT of pool `poolid`.
    RedeemToken { poolid: u32 },
}

/// What an NFT sent to the booth is for.
#[derive(Debug, Clone, Copy, PartialEq, Eq)]
pub enum RecieveNftMsg {
    /// Put the NFT into pool `poolid`.
    AddNft { poolid: u32 },
}

/// Prize pools: what tokens sent to the booth are for.
#[derive(Debug, Clone, Copy, PartialEq, Eq)]
pub enum ReceiveTokenMsg {
    /// Mint (draw) an NFT of pool `poolid`.
    Mint { poolid: u32 },
}

/// Prize pools: what an NFT sent to the booth is for.
#[derive(Debug, Clone, Copy, PartialEq, Eq)]
pub enum ReceiveNftMsg {
    /// Put the NFT into pool `poolid`.
    AddNft { poolid: u32 },
}

/// The notice of the NFT contract that it sent `token_id` to the booth on
/// behalf of `sender`. `msg` is the attached message as the host decoded it,
/// or the text of the decoding error; `sender_check` is the host's verdict on
/// `sender` as an address: `Ok(())`, or the text of its error.
#[derive(Debug, PartialEq, Eq)]
pub struct NftReceipt<M> {
    pub sender: String,
    pub token_id: String,
    pub msg: Result<M, String>,
    pub sender_check: Result<(), String>,
}

/// The notice of the token contract that `sender` sent `amount` tokens to the
/// booth. `msg` and `sender_check` are as in [`NftReceipt`].
#[derive(Debug, PartialEq, Eq)]
pub struct TokenReceipt<M> {
    pub sender: String,
    pub amount: u128,
    pub msg: Result<M, String>,
    pub sender_check: Result<(), String>,
}

/// The host's verdicts on the addresses of an [`InstantiateMsg`]: `Ok(())`,
/// or the text of the error.
#[derive(Debug, PartialEq, Eq)]
pub struct InstantiateChecks {
    pub cw20_addr: Result<(), String>,
    pub admin: Result<(), String>,
    pub cw721_addr: Result<(), String>,
}

/// The booth's calls.
#[derive(Debug, PartialEq, Eq)]
pub enum ExecuteMsg {
    CreatePool { price: u128 },
    RemovePool { poolid: u32 },
    ReceiveNft(NftReceipt<RecieveNftMsg>),
    RemoveNft { poolid: u32, token_id: String, nft_contract: String },
    Receive(TokenReceipt<RecieveTokenMsg>),
    UpdateAdmin { addr: String },
}

/// The answer to [`QueryMsg::PoolInfo`].
#[derive(Debug, Clone, PartialEq, Eq)]
pub struct PoolInfoResponse {
    pub pool: Pool,
}

/// The answer to [`QueryMsg::NumPools`].
#[derive(Debug, Clone, Copy, PartialEq, Eq)]
pub struct NumPoolsResponse {
    pub pools: u32,
}

/// The booth's queries.
#[derive(Debug, Clone, Copy, PartialEq, Eq)]
pub enum QueryMsg {
    PoolInfo { poolid: u32 },
    NumPools {},
}

/// The answer to a [`QueryMsg`].
#[derive(Debug, Clone, PartialEq, Eq)]
pub enum QueryResponse {
    PoolInfo(PoolInfoResponse),
    NumPools(NumPoolsResponse),
}

} // verus!
