use prizebooth::context::{Env, MessageInfo};
use prizebooth::contract::{
    change_pool_state, create_prize_pool, get_pool_list, instantiate, mint_at, recieve_nft,
    recieve_token, remove_nft, remove_prizepool, retain_others,
};
use prizebooth::error::ContractError;
use prizebooth::msg::{NftReceipt, ReceiveNftMsg, ReceiveTokenMsg, TokenReceipt};
use prizebooth::response::{CosmosMsg, Response};
use prizebooth::state::{PoolState, PrizeBooth};

fn env() -> Env {
    Env { block_time: 1_000 }
}

fn info(sender: &str) -> MessageInfo {
    MessageInfo { sender: sender.to_string() }
}

fn attrs(resp: &Response) -> Vec<(String, String)> {
    resp.attributes.iter().map(|a| (a.key.clone(), a.value.clone())).collect()
}

fn pairs(list: &[(&str, &str)]) -> Vec<(String, String)> {
    list.iter().map(|(k, v)| (k.to_string(), v.to_string())).collect()
}

fn booth() -> PrizeBooth {
    let (b, resp) = instantiate(
        &env(),
        &info("owner"),
        "pb_token".to_string(),
        "pb_nft".to_string(),
        Ok(()),
        Ok(()),
    )
    .unwrap();
    assert_eq!(
        attrs(&resp),
        pairs(&[
            ("action", "instantiate"),
            ("instantiate_address", "owner"),
            ("cw721_address", "pb_nft"),
            ("cw20_address", "pb_token"),
        ])
    );
    b
}

fn add(b: &mut PrizeBooth, sender: &str, token: &str, poolid: u32) -> Result<Response, ContractError> {
    recieve_nft(
        b,
        &env(),
        &info("pb_nft"),
        NftReceipt {
            sender: sender.to_string(),
            token_id: token.to_string(),
            msg: Ok(ReceiveNftMsg::AddNft { poolid }),
            sender_check: Ok(()),
        },
    )
}

fn nft_list(b: &PrizeBooth, poolid: usize) -> Vec<String> {
    b.pools[poolid].as_ref().unwrap().nft_list.clone()
}

#[test]
fn instantiate_refusals() {
    let r = instantiate(&env(), &info("o"), "a".to_string(), "b".to_string(), Err("e1".to_string()), Err("e2".to_string()));
    assert_eq!(r.err(), Some(ContractError::StdError("e1".to_string())));
    let r = instantiate(&env(), &info("o"), "a".to_string(), "b".to_string(), Ok(()), Err("e2".to_string()));
    assert_eq!(r.err(), Some(ContractError::StdError("e2".to_string())));
}

#[test]
fn create_prize_pool_is_open_and_owned() {
    let mut b = booth();
    let resp = create_prize_pool(&mut b, &env(), &info("owner"), 5).unwrap();
    assert_eq!(
        attrs(&resp),
        pairs(&[("action", "create_pool"), ("creator", "owner"), ("poolid", "0"), ("mintprice", "5")])
    );
    let pool = b.pools[0].as_ref().unwrap();
    assert_eq!(pool.admin, "owner");
    assert_eq!(pool.creation_time, 1_000);
    assert_eq!(pool.state, PoolState::Open);
    assert_eq!(pool.mintprice, 5);
    assert_eq!(b.pool_size, 1);
}

#[test]
fn add_nft_by_pool_admin_only() {
    let mut b = booth();
    create_prize_pool(&mut b, &env(), &info("owner"), 5).unwrap();
    let resp = add(&mut b, "owner", "nft1", 0).unwrap();
    assert_eq!(
        attrs(&resp),
        pairs(&[
            ("action", "add_nft"),
            ("poolid", "0"),
            ("sender", "owner"),
            ("token_id", "nft1"),
            ("nft_contract_address", "pb_nft"),
        ])
    );
    let before = b.clone();
    assert_eq!(add(&mut b, "user", "nft2", 0).err(), Some(ContractError::UnauthorizedAdmin { sender: "owner".to_string() }));
    let r = recieve_nft(
        &mut b,
        &env(),
        &info("other"),
        NftReceipt { sender: "owner".to_string(), token_id: "x".to_string(), msg: Ok(ReceiveNftMsg::AddNft { poolid: 0 }), sender_check: Ok(()) },
    );
    assert_eq!(r.err(), Some(ContractError::UnauthorizedNFTContract { contract: "other".to_string() }));
    let r = recieve_nft(
        &mut b,
        &env(),
        &info("pb_nft"),
        NftReceipt { sender: "owner".to_string(), token_id: "x".to_string(), msg: Ok(ReceiveNftMsg::AddNft { poolid: 0 }), sender_check: Err("bad".to_string()) },
    );
    assert_eq!(r.err(), Some(ContractError::StdError("bad".to_string())));
    assert_eq!(b, before);
    assert_eq!(nft_list(&b, 0), vec!["nft1".to_string()]);
}

#[test]
fn change_state_then_mint() {
    let mut b = booth();
    create_prize_pool(&mut b, &env(), &info("owner"), 5).unwrap();
    add(&mut b, "owner", "nft1", 0).unwrap();
    let notice = || TokenReceipt {
        sender: "minter".to_string(),
        amount: 5,
        msg: Ok(ReceiveTokenMsg::Mint { poolid: 0 }),
        sender_check: Ok(()),
    };
    assert_eq!(
        change_pool_state(&mut b, &env(), &info("user"), 0, PoolState::Open).err(),
        Some(ContractError::UnauthorizedAdmin { sender: "user".to_string() })
    );
    let resp = change_pool_state(&mut b, &env(), &info("owner"), 0, PoolState::Open).unwrap();
    assert_eq!(
        attrs(&resp),
        pairs(&[("action", "change_pool_state"), ("admin", "owner"), ("state", "open"), ("poolid", "0")])
    );
    let resp = recieve_token(&mut b, &env(), &info("pb_token"), notice()).unwrap();
    assert_eq!(
        attrs(&resp),
        pairs(&[
            ("action", "mint"),
            ("minter", "minter"),
            ("poolid", "0"),
            ("nft_minted", "nft1"),
            ("balance", "address: minter, amount: 5"),
        ])
    );
    assert_eq!(
        resp.messages,
        vec![
            CosmosMsg::PrizeNftTransfer {
                contract_addr: "pb_nft".to_string(),
                sender: "pb_token".to_string(),
                recipient: "minter".to_string(),
                token_id: "nft1".to_string(),
            },
            CosmosMsg::PrizeTokenTransfer {
                contract_addr: "pb_token".to_string(),
                sender: "minter".to_string(),
                recipient: "owner".to_string(),
                amount: 5,
            },
        ]
    );
    assert!(nft_list(&b, 0).is_empty());
}

#[test]
fn mint_at_refusals_and_draw() {
    let mut b = booth();
    create_prize_pool(&mut b, &env(), &info("owner"), 5).unwrap();
    let resp = change_pool_state(&mut b, &env(), &info("owner"), 0, PoolState::Closed).unwrap();
    assert_eq!(resp.attributes[2].value, "closed");
    let before = b.clone();
    assert_eq!(
        mint_at(&mut b, &env(), &info("pb_token"), 0, "m".to_string(), 5, 0).err(),
        Some(ContractError::PoolStateClosed { poolid: 0 })
    );
    assert_eq!(b, before);
    change_pool_state(&mut b, &env(), &info("owner"), 0, PoolState::Open).unwrap();
    assert_eq!(
        mint_at(&mut b, &env(), &info("pb_token"), 0, "m".to_string(), 5, 0).err(),
        Some(ContractError::ZeroLenNftList { poolid: 0 })
    );
    for t in ["a", "b", "c"] {
        add(&mut b, "owner", t, 0).unwrap();
    }
    assert_eq!(
        mint_at(&mut b, &env(), &info("pb_token"), 0, "m".to_string(), 4, 0).err(),
        Some(ContractError::UnequalTokensToMint { t: 4 })
    );
    let resp = mint_at(&mut b, &env(), &info("pb_token"), 0, "m".to_string(), 5, 1).unwrap();
    assert_eq!(resp.attributes[3].value, "b");
    assert_eq!(nft_list(&b, 0), vec!["a".to_string(), "c".to_string()]);
}

#[test]
fn random_mint_takes_one_of_the_pool() {
    let mut b = booth();
    create_prize_pool(&mut b, &env(), &info("owner"), 5).unwrap();
    change_pool_state(&mut b, &env(), &info("owner"), 0, PoolState::Open).unwrap();
    for t in ["a", "b", "c"] {
        add(&mut b, "owner", t, 0).unwrap();
    }
    let notice = TokenReceipt { sender: "minter".to_string(), amount: 5, msg: Ok(ReceiveTokenMsg::Mint { poolid: 0 }), sender_check: Ok(()) };
    let resp = recieve_token(&mut b, &env(), &info("pb_token"), notice).unwrap();
    let minted = resp.attributes[3].value.clone();
    assert!(["a", "b", "c"].contains(&minted.as_str()));
    let left = nft_list(&b, 0);
    assert_eq!(left.len(), 2);
    assert!(!left.contains(&minted));
}

#[test]
fn receive_token_refusals() {
    let mut b = booth();
    create_prize_pool(&mut b, &env(), &info("owner"), 5).unwrap();
    let before = b.clone();
    let notice = TokenReceipt { sender: "minter".to_string(), amount: 5, msg: Ok(ReceiveTokenMsg::Mint { poolid: 0 }), sender_check: Ok(()) };
    assert_eq!(
        recieve_token(&mut b, &env(), &info("fake"), notice).err(),
        Some(ContractError::UnauthorizedTokenContract { contract: "fake".to_string() })
    );
    let notice = TokenReceipt { sender: "Minter".to_string(), amount: 5, msg: Err("parse".to_string()), sender_check: Err("not normalized".to_string()) };
    assert_eq!(
        recieve_token(&mut b, &env(), &info("pb_token"), notice).err(),
        Some(ContractError::StdError("not normalized".to_string()))
    );
    let notice = TokenReceipt::<ReceiveTokenMsg> { sender: "minter".to_string(), amount: 5, msg: Err("parse".to_string()), sender_check: Ok(()) };
    assert_eq!(
        recieve_token(&mut b, &env(), &info("pb_token"), notice).err(),
        Some(ContractError::StdError("parse".to_string()))
    );
    assert_eq!(b, before);
}

#[test]
fn remove_nft_takes_every_copy() {
    let mut b = booth();
    create_prize_pool(&mut b, &env(), &info("owner"), 5).unwrap();
    for t in ["a", "b", "a"] {
        add(&mut b, "owner", t, 0).unwrap();
    }
    assert_eq!(
        remove_nft(&mut b, &env(), &info("user"), 0, "a".to_string()).err(),
        Some(ContractError::UnauthorizedAdmin { sender: "user".to_string() })
    );
    let resp = remove_nft(&mut b, &env(), &info("owner"), 0, "a".to_string()).unwrap();
    assert_eq!(nft_list(&b, 0), vec!["b".to_string()]);
    assert_eq!(
        attrs(&resp),
        pairs(&[("action", "remove_nft"), ("poolid", "0"), ("tokenid", "a"), ("admin", "owner")])
    );
    assert_eq!(
        resp.messages,
        vec![CosmosMsg::PrizeNftTransfer {
            contract_addr: "pb_nft".to_string(),
            sender: "owner".to_string(),
            recipient: "owner".to_string(),
            token_id: "a".to_string(),
        }]
    );
}

#[test]
fn retain_others_keeps_order() {
    let v: Vec<String> = ["x", "y", "x", "z"].iter().map(|s| s.to_string()).collect();
    assert_eq!(retain_others(&v, &"x".to_string()), vec!["y".to_string(), "z".to_string()]);
}

#[test]
fn remove_prizepool_needs_empty_pool_and_ids_are_not_reused() {
    let mut b = booth();
    create_prize_pool(&mut b, &env(), &info("owner"), 5).unwrap();
    create_prize_pool(&mut b, &env(), &info("alice"), 6).unwrap();
    add(&mut b, "owner", "a", 0).unwrap();
    assert_eq!(
        remove_prizepool(&mut b, &env(), &info("owner"), 0).err(),
        Some(ContractError::NonZeroNftList { poolid: 0 })
    );
    assert_eq!(
        remove_prizepool(&mut b, &env(), &info("owner"), 1).err(),
        Some(ContractError::UnauthorizedAdmin { sender: "owner".to_string() })
    );
    let resp = remove_prizepool(&mut b, &env(), &info("alice"), 1).unwrap();
    assert_eq!(attrs(&resp), pairs(&[("action", "remove_prizepool"), ("poolid", "1"), ("admin", "alice")]));
    assert!(b.pools[1].is_none());
    let resp = create_prize_pool(&mut b, &env(), &info("bob"), 7).unwrap();
    assert_eq!(resp.attributes[2].value, "2");
    let list = get_pool_list(&b, &env());
    assert_eq!(list.len(), 2);
    assert_eq!(list[0].admin, "owner");
    assert_eq!(list[1].admin, "bob");
}

#[test]
fn multi_contract_test() {
    let mut b = booth();
    create_prize_pool(&mut b, &env(), &info("owner"), 5).unwrap();
    add(&mut b, "owner", "nft1", 0).unwrap();
    let poollistresp = get_pool_list(&b, &env());
    assert_eq!(poollistresp[0].admin, "owner");
    assert_eq!(poollistresp[0].nft_list, vec!["nft1"]);

    // "owner" holds 10000000 tokens and gives 100 to "minter"; "minter"
    // sends 5 of them to the booth to mint from pool 0, never opened.
    let owner_balance: u128 = 10000000 - 100;
    let minter_balance: u128 = 100;
    let notice = TokenReceipt {
        sender: "minter".to_string(),
        amount: 5,
        msg: Ok(ReceiveTokenMsg::Mint { poolid: 0 }),
        sender_check: Ok(()),
    };
    let mintresp = recieve_token(&mut b, &env(), &info("pb_token"), notice).unwrap();
    let paid = match &mintresp.messages[1] {
        CosmosMsg::PrizeTokenTransfer { contract_addr, sender, recipient, amount } => {
            assert_eq!(contract_addr, "pb_token");
            assert_eq!(sender, "minter");
            assert_eq!(recipient, "owner");
            *amount
        }
        other => panic!("unexpected message {:?}", other),
    };
    assert_eq!(minter_balance - paid, 95);
    assert_eq!(owner_balance + paid, 9999905);
    match &mintresp.messages[0] {
        CosmosMsg::PrizeNftTransfer { contract_addr, recipient, token_id, .. } => {
            assert_eq!(contract_addr, "pb_nft");
            assert_eq!(token_id, "nft1");
            assert_eq!(recipient, "minter");
        }
        other => panic!("unexpected message {:?}", other),
    }
    let poollistresp = get_pool_list(&b, &env());
    assert_eq!(poollistresp[0].admin, "owner");
    assert!(poollistresp[0].nft_list.is_empty());
}
