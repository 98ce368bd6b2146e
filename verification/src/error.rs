//! Why a handler refused a call.

use vstd::prelude::*;

verus! {

/// The errors that the booth's handlers return. A refused call changes no
/// state.
#[derive(Debug, Clone, PartialEq, Eq)]
pub enum ContractError {
    /// An error of the host (address check, message decoding), with its text.
    StdError(String),
    /// `sender` is not the booth's admin.
    Unauthorized { sender: String },
    /// The pool still holds NFTs.
    NonEmptyPool { poolid: u32 },
    /// The tokens sent (`amt`) are not the pool's price.
    TokenAmountMismatch { amt: u128, price: u128 },
    /// The tokens came from a contract other than the booth's token contract.
    FaultyTokenContract { addr: String },
    /// The NFT came from a contract other than the booth's NFT contract.
    FaultyNftContract { addr: String },
    /// The pool holds no NFT to redeem.
    EmptyPool { poolid: u32 },
    /// Prize pools: the tokens came from a contract other than the token contract.
    UnauthorizedTokenContract { contract: String },
    /// Prize pools: the NFT came from a contract other than the NFT contract.
    UnauthorizedNFTContract { contract: String },
    /// Prize pools: the pool is closed for minting.
    PoolStateClosed { poolid: u32 },
    /// Prize pools: the pool holds no NFT.
    ZeroLenNftList { poolid: u32 },
    /// Prize pools: the tokens sent (`t`) are not the pool's mint price.
    UnequalTokensToMint { t: u128 },
    /// Prize pools: `sender` is not the pool's admin (or, for an NFT that
    /// arrives, the admin that the sender failed to be).
    UnauthorizedAdmin { sender: String },
    /// Prize pools: the pool still holds NFTs.
    NonZeroNftList { poolid: u32 },
}

/// The mathematical value of a [`ContractError`]: its texts as character
/// sequences.
pub enum ContractErrorView {
    StdError(Seq<char>),
    Unauthorized { sender: Seq<char> },
    NonEmptyPool { poolid: u32 },
    TokenAmountMismatch { amt: u128, price: u128 },
    FaultyTokenContract { addr: Seq<char> },
    FaultyNftContract { addr: Seq<char> },
    EmptyPool { poolid: u32 },
    UnauthorizedTokenContract { contract: Seq<char> },
    UnauthorizedNFTContract { contract: Seq<char> },
    PoolStateClosed { poolid: u32 },
    ZeroLenNftList { poolid: u32 },
    UnequalTokensToMint { t: u128 },
    UnauthorizedAdmin { sender: Seq<char> },
    NonZeroNftList { poolid: u32 },
}

impl View for ContractError {
    type V = ContractErrorView;

    open spec fn view(&self) -> ContractErrorView {
        match self {
            ContractError::StdError(m) => ContractErrorView::StdError(m@),
            ContractError::Unauthorized { sender } => ContractErrorView::Unauthorized { sender: sender@ },
            ContractError::NonEmptyPool { poolid } => ContractErrorView::NonEmptyPool { poolid: *poolid },
            ContractError::TokenAmountMismatch { amt, price } => ContractErrorView::TokenAmountMismatch {
                amt: *amt,
                price: *price,
            },
            ContractError::FaultyTokenContract { addr } => ContractErrorView::FaultyTokenContract { addr: addr@ },
            ContractError::FaultyNftContract { addr } => ContractErrorView::FaultyNftContract { addr: addr@ },
            ContractError::EmptyPool { poolid } => ContractErrorView::EmptyPool { poolid: *poolid },
            ContractError::UnauthorizedTokenContract { contract } =>
                ContractErrorView::UnauthorizedTokenContract { contract: contract@ },
            ContractError::UnauthorizedNFTContract { contract } =>
                ContractErrorView::UnauthorizedNFTContract { contract: contract@ },
            ContractError::PoolStateClosed { poolid } => ContractErrorView::PoolStateClosed { poolid: *poolid },
            ContractError::ZeroLenNftList { poolid } => ContractErrorView::ZeroLenNftList { poolid: *poolid },
            ContractError::UnequalTokensToMint { t } => ContractErrorView::UnequalTokensToMint { t: *t },
            ContractError::UnauthorizedAdmin { sender } => ContractErrorView::UnauthorizedAdmin {
                sender: sender@,
            },
            ContractError::NonZeroNftList { poolid } => ContractErrorView::NonZeroNftList { poolid: *poolid },
        }
    }
}

} // verus!
