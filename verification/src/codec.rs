//! Calls into cosmwasm-std, cw20, cw721 and rand that the handlers make:
//! the JSON encoding of the messages sent to the token and NFT contracts,
//! the text of a CW20 balance, and the random pick of a prize.

use vstd::prelude::*;
use crate::text::decimal;
use rand::Rng;

verus! {

/// The JSON bytes that `cosmwasm_std::to_binary` gives for
/// `cw721::Cw721ExecuteMsg::TransferNft { recipient, token_id }`.
pub uninterp spec fn transfer_nft_json(recipient: Seq<char>, token_id: Seq<char>) -> Seq<u8>;

/// The bytes of a text whose characters are all ASCII: one byte each.
pub open spec fn ascii_bytes(s: Seq<char>) -> Seq<u8> {
    s.map_values(|c: char| c as u8)
}

/// The JSON bytes of `cw20::Cw20ExecuteMsg::Burn { amount }`:
/// `{"burn":{"amount":"<amount in base ten>"}}`.
pub open spec fn burn_json(amount: u128) -> Seq<u8> {
    ascii_bytes("{\"burn\":{\"amount\":\""@ + decimal(amount as nat) + "\"}}"@)
}

/// Encodes `cw721::Cw721ExecuteMsg::TransferNft { recipient, token_id }`
/// with `cosmwasm_std::to_binary`.
/// Trusted: the bytes are those that `transfer_nft_json` names, and the call
/// succeeds (serde-json-wasm's serializer returns `Ok` for struct variants
/// whose fields are strings). The text of an error is the error's `Display`.
#[verifier::external_body]
pub(crate) fn encode_transfer_nft(recipient: &String, token_id: &String) -> (r: Result<Vec<u8>, String>)
    ensures
        r is Ok,
        r matches Ok(bytes) ==> bytes@ == transfer_nft_json(recipient@, token_id@),
{
    #[allow(deprecated)]
    let encoded = cosmwasm_std::to_binary(
        &cw721::Cw721ExecuteMsg::TransferNft { recipient: recipient.clone(), token_id: token_id.clone() },
    );
    match encoded {
        Ok(binary) => Ok(binary.0),
        Err(e) => Err(e.to_string()),
    }
}

/// Encodes `cw20::Cw20ExecuteMsg::Burn { amount }` with `cosmwasm_std::to_binary`.
/// Trusted: the bytes are `burn_json(amount)` (cw_serde names the variant
/// `burn` in snake case, serde-json-wasm writes a struct variant as
/// `{"variant":{"field":value}}`, and a `Uint128` is serialized as the string
/// of its base-ten digits), and the call succeeds (serde-json-wasm's
/// serializer returns `Ok` for strings). The text of an error is the
/// error's `Display`.
#[verifier::external_body]
pub(crate) fn encode_burn(amount: u128) -> (r: Result<Vec<u8>, String>)
    ensures
        r is Ok,
        r matches Ok(bytes) ==> bytes@ == burn_json(amount),
{
    #[allow(deprecated)]
    let encoded = cosmwasm_std::to_binary(
        &cw20::Cw20ExecuteMsg::Burn { amount: cosmwasm_std::Uint128::new(amount) },
    );
    match encoded {
        Ok(binary) => Ok(binary.0),
        Err(e) => Err(e.to_string()),
    }
}

/// The text of `cw20::Balance::Cw20(Cw20CoinVerified { address, amount })`
/// by its `Display` impl.
/// Trusted: cw20 writes `"address: {address}, amount: {amount}"`, where an
/// `Addr` shows its string and a `Uint128` its value in base ten.
#[verifier::external_body]
pub(crate) fn cw20_balance_text(address: &String, amount: u128) -> (s: String)
    ensures
        s@ == "address: "@ + address@ + ", amount: "@ + decimal(amount as nat),
{
    cw20::Balance::Cw20(cw20::Cw20CoinVerified {
        address: cosmwasm_std::Addr::unchecked(address.clone()),
        amount: cosmwasm_std::Uint128::new(amount),
    }).to_string()
}

/// A uniformly random index below `len`, from `rand::thread_rng().gen_range(0..len)`.
/// Trusted: the index lies in `0..len` (rand panics on an empty range, which
/// `requires` leaves out). Nothing else is said: two calls may differ.
#[verifier::external_body]
pub(crate) fn random_index(len: usize) -> (i: usize)
    requires
        len > 0,
    ensures
        i < len,
{
    rand::thread_rng().gen_range(0..len)
}

} // verus!
