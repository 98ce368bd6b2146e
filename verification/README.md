# prizebooth

A CosmWasm prize booth as a verified Verus library.

- `src/` — the booth's logic, proved with Verus:
  - `execute.rs`, `query.rs`, `lib.rs`: pools of NFTs that the admin fills
    and empties, sold oldest first for a fixed price in CW20 tokens
    (`Booth`); `execute`/`query` dispatch on the messages.
  - `contract.rs`: prize pools owned by their creators, opened and closed
    by them, from which anyone mints an NFT drawn at random (`PrizeBooth`).
  - `state.rs`, `msg.rs`, `error.rs`, `response.rs`, `context.rs`: the data
    and its mathematical model; `text.rs`: base-ten rendering.
  - `codec.rs`: the trusted calls into cosmwasm-std, cw20, cw721 and rand.
  - `laws.rs`: properties across calls.
- `app/` — the CosmWasm entry points: storage, address checks, JSON decoding
  and the conversion of responses.
- `tests/` — tests of the library on concrete values.
