use prizebooth::context::{Env, MessageInfo};
use prizebooth::error::ContractError;
use prizebooth::execute::{
    add_nft, create_pool, position, recieve_nft, recieve_token, redeem_token, remove_nft,
    remove_pool, update_admin,
};
use prizebooth::msg::{
    ExecuteMsg, InstantiateChecks, InstantiateMsg, NftReceipt, QueryMsg, QueryResponse,
    RecieveNftMsg, RecieveTokenMsg, TokenReceipt,
};
use prizebooth::query::{query_num_pools, query_pool_info};
use prizebooth::response::{CosmosMsg, Response};
use prizebooth::state::{Booth, Pool};
use prizebooth::{execute, execute_allowed, instantiate, query, query_allowed};

fn env() -> Env {
    Env { block_time: 1_571_797_419_879_305_533 }
}

fn info(sender: &str) -> MessageInfo {
    MessageInfo { sender: sender.to_string() }
}

fn attrs(resp: &Response) -> Vec<(String, String)> {
    resp.attributes.iter().map(|a| (a.key.clone(), a.value.clone())).collect()
}

fn pairs(list: &[(&str, &str)]) -> Vec<(String, String)> {
    list.iter().map(|(k, v)| (k.to_string(), v.to_string())).collect()
}

fn booth() -> Booth {
    let msg = InstantiateMsg {
        admin: "owner".to_string(),
        cw20_addr: "token".to_string(),
        cw721_addr: "nfts".to_string(),
    };
    let checks = InstantiateChecks { cw20_addr: Ok(()), admin: Ok(()), cw721_addr: Ok(()) };
    let (b, resp) = instantiate(&env(), &info("owner"), msg, checks).unwrap();
    assert!(resp.messages.is_empty() && resp.attributes.is_empty());
    b
}

fn nft_notice(sender: &str, token_id: &str, poolid: u32) -> NftReceipt<RecieveNftMsg> {
    NftReceipt {
        sender: sender.to_string(),
        token_id: token_id.to_string(),
        msg: Ok(RecieveNftMsg::AddNft { poolid }),
        sender_check: Ok(()),
    }
}

fn token_notice(sender: &str, amount: u128, poolid: u32) -> TokenReceipt<RecieveTokenMsg> {
    TokenReceipt {
        sender: sender.to_string(),
        amount,
        msg: Ok(RecieveTokenMsg::RedeemToken { poolid }),
        sender_check: Ok(()),
    }
}

fn tokens(b: &Booth, poolid: usize) -> Vec<String> {
    b.pools[poolid].tokens.clone()
}

#[test]
fn instantiate_starts_empty() {
    let b = booth();
    assert_eq!(b.admin, "owner");
    assert_eq!(b.cw20_addr, "token");
    assert_eq!(b.cw721_addr, "nfts");
    assert_eq!(b.num_pools, 0);
    assert!(b.pools.is_empty());
}

#[test]
fn instantiate_reports_first_refused_address() {
    let msg = InstantiateMsg {
        admin: "Owner".to_string(),
        cw20_addr: "tok en".to_string(),
        cw721_addr: "nfts".to_string(),
    };
    let checks = InstantiateChecks {
        cw20_addr: Err("bad token".to_string()),
        admin: Err("bad admin".to_string()),
        cw721_addr: Ok(()),
    };
    let r = instantiate(&env(), &info("owner"), msg.clone(), checks);
    assert_eq!(r.err(), Some(ContractError::StdError("bad token".to_string())));
    let checks = InstantiateChecks {
        cw20_addr: Ok(()),
        admin: Err("bad admin".to_string()),
        cw721_addr: Err("bad nft".to_string()),
    };
    let r = instantiate(&env(), &info("owner"), msg.clone(), checks);
    assert_eq!(r.err(), Some(ContractError::StdError("bad admin".to_string())));
    let checks = InstantiateChecks { cw20_addr: Ok(()), admin: Ok(()), cw721_addr: Err("bad nft".to_string()) };
    let r = instantiate(&env(), &info("owner"), msg, checks);
    assert_eq!(r.err(), Some(ContractError::StdError("bad nft".to_string())));
}

#[test]
fn create_pool_by_admin() {
    let mut b = booth();
    let resp = create_pool(&mut b, &env(), &info("owner"), 5).unwrap();
    assert_eq!(attrs(&resp), pairs(&[("action", "create_pool"), ("poolid", "0"), ("price", "5")]));
    assert!(resp.messages.is_empty());
    let resp = create_pool(&mut b, &env(), &info("owner"), 340282366920938463463374607431768211455).unwrap();
    assert_eq!(
        attrs(&resp),
        pairs(&[
            ("action", "create_pool"),
            ("poolid", "1"),
            ("price", "340282366920938463463374607431768211455"),
        ])
    );
    assert_eq!(b.num_pools, 2);
    assert_eq!(b.pools[0], Pool { tokens: vec![], price: 5 });
    assert_eq!(b.pools[1].price, u128::MAX);
}

#[test]
fn create_pool_refuses_others() {
    let mut b = booth();
    let before = b.clone();
    let r = create_pool(&mut b, &env(), &info("user"), 5);
    assert_eq!(r.err(), Some(ContractError::Unauthorized { sender: "user".to_string() }));
    assert_eq!(b, before);
}

#[test]
fn remove_pool_and_update_admin_do_nothing() {
    let mut b = booth();
    create_pool(&mut b, &env(), &info("owner"), 5).unwrap();
    let before = b.clone();
    let resp = remove_pool(&mut b, &env(), &info("user"), 0).unwrap();
    assert!(resp.messages.is_empty() && resp.attributes.is_empty());
    let resp = update_admin(&mut b, &env(), &info("user"), "user".to_string()).unwrap();
    assert!(resp.messages.is_empty() && resp.attributes.is_empty());
    assert_eq!(b, before);
}

#[test]
fn receive_nft_adds_to_pool() {
    let mut b = booth();
    create_pool(&mut b, &env(), &info("owner"), 5).unwrap();
    let resp = recieve_nft(&mut b, &env(), &info("nfts"), nft_notice("owner", "nft1", 0)).unwrap();
    assert!(resp.messages.is_empty() && resp.attributes.is_empty());
    recieve_nft(&mut b, &env(), &info("nfts"), nft_notice("owner", "nft2", 0)).unwrap();
    assert_eq!(tokens(&b, 0), vec!["nft1".to_string(), "nft2".to_string()]);
}

#[test]
fn receive_nft_refusals() {
    let mut b = booth();
    create_pool(&mut b, &env(), &info("owner"), 5).unwrap();
    let before = b.clone();
    let r = recieve_nft(&mut b, &env(), &info("other_nfts"), nft_notice("owner", "nft1", 0));
    assert_eq!(r.err(), Some(ContractError::FaultyNftContract { addr: "other_nfts".to_string() }));
    let mut notice = nft_notice("owner", "nft1", 0);
    notice.msg = Err("Error parsing into type RecieveNftMsg".to_string());
    let r = recieve_nft(&mut b, &env(), &info("nfts"), notice);
    assert_eq!(r.err(), Some(ContractError::StdError("Error parsing into type RecieveNftMsg".to_string())));
    let mut notice = nft_notice("Owner", "nft1", 0);
    notice.sender_check = Err("Invalid input: address not normalized".to_string());
    let r = recieve_nft(&mut b, &env(), &info("nfts"), notice);
    assert_eq!(r.err(), Some(ContractError::StdError("Invalid input: address not normalized".to_string())));
    let r = recieve_nft(&mut b, &env(), &info("nfts"), nft_notice("user", "nft1", 0));
    assert_eq!(r.err(), Some(ContractError::Unauthorized { sender: "nfts".to_string() }));
    assert_eq!(b, before);
}

#[test]
fn add_nft_appends() {
    let mut b = booth();
    create_pool(&mut b, &env(), &info("owner"), 5).unwrap();
    create_pool(&mut b, &env(), &info("owner"), 7).unwrap();
    add_nft(&mut b, &env(), &info("nfts"), 1, "a".to_string()).unwrap();
    add_nft(&mut b, &env(), &info("nfts"), 1, "b".to_string()).unwrap();
    assert_eq!(tokens(&b, 0), Vec::<String>::new());
    assert_eq!(tokens(&b, 1), vec!["a".to_string(), "b".to_string()]);
}

#[test]
fn remove_nft_sends_back_first_copy() {
    let mut b = booth();
    create_pool(&mut b, &env(), &info("owner"), 5).unwrap();
    for t in ["a", "b", "a", "c"] {
        add_nft(&mut b, &env(), &info("nfts"), 0, t.to_string()).unwrap();
    }
    let resp = remove_nft(&mut b, &env(), &info("owner"), 0, "a".to_string()).unwrap();
    assert_eq!(tokens(&b, 0), vec!["b".to_string(), "a".to_string(), "c".to_string()]);
    assert_eq!(attrs(&resp), pairs(&[("action", "remove_nft"), ("poolid", "0"), ("token_id", "a")]));
    assert_eq!(
        resp.messages,
        vec![CosmosMsg::Execute {
            contract_addr: "nfts".to_string(),
            msg: br#"{"transfer_nft":{"recipient":"owner","token_id":"a"}}"#.to_vec(),
        }]
    );
}

#[test]
fn remove_nft_refuses_others() {
    let mut b = booth();
    create_pool(&mut b, &env(), &info("owner"), 5).unwrap();
    add_nft(&mut b, &env(), &info("nfts"), 0, "a".to_string()).unwrap();
    let before = b.clone();
    let r = remove_nft(&mut b, &env(), &info("user"), 0, "a".to_string());
    assert_eq!(r.err(), Some(ContractError::Unauthorized { sender: "user".to_string() }));
    assert_eq!(b, before);
}

#[test]
fn position_finds_first() {
    let v: Vec<String> = ["x", "y", "y"].iter().map(|s| s.to_string()).collect();
    assert_eq!(position(&v, &"y".to_string()), Some(1));
    assert_eq!(position(&v, &"z".to_string()), None);
}

#[test]
fn redeem_sells_oldest_first() {
    let mut b = booth();
    create_pool(&mut b, &env(), &info("owner"), 5).unwrap();
    add_nft(&mut b, &env(), &info("nfts"), 0, "first".to_string()).unwrap();
    add_nft(&mut b, &env(), &info("nfts"), 0, "second".to_string()).unwrap();
    let resp = redeem_token(&mut b, &env(), &info("token"), 5, 0, "user".to_string()).unwrap();
    assert_eq!(
        attrs(&resp),
        pairs(&[("action", "redeem_token"), ("amount", "5"), ("poolid", "0"), ("token_id", "first")])
    );
    assert_eq!(
        resp.messages,
        vec![
            CosmosMsg::Execute { contract_addr: "token".to_string(), msg: br#"{"burn":{"amount":"5"}}"#.to_vec() },
            CosmosMsg::Execute {
                contract_addr: "nfts".to_string(),
                msg: br#"{"transfer_nft":{"recipient":"user","token_id":"first"}}"#.to_vec(),
            },
        ]
    );
    let resp = redeem_token(&mut b, &env(), &info("token"), 5, 0, "user2".to_string()).unwrap();
    assert_eq!(resp.attributes[3].value, "second");
    assert!(tokens(&b, 0).is_empty());
}

#[test]
fn redeem_refusals() {
    let mut b = booth();
    create_pool(&mut b, &env(), &info("owner"), 5).unwrap();
    let before = b.clone();
    let r = redeem_token(&mut b, &env(), &info("token"), 4, 0, "user".to_string());
    assert_eq!(r.err(), Some(ContractError::TokenAmountMismatch { amt: 4, price: 5 }));
    let r = redeem_token(&mut b, &env(), &info("token"), 5, 0, "user".to_string());
    assert_eq!(r.err(), Some(ContractError::EmptyPool { poolid: 0 }));
    assert_eq!(b, before);
}

#[test]
fn receive_token_checks_contract_and_message() {
    let mut b = booth();
    create_pool(&mut b, &env(), &info("owner"), 5).unwrap();
    add_nft(&mut b, &env(), &info("nfts"), 0, "nft1".to_string()).unwrap();
    let before = b.clone();
    let r = recieve_token(&mut b, &env(), &info("fake_token"), token_notice("user", 5, 0));
    assert_eq!(r.err(), Some(ContractError::FaultyTokenContract { addr: "fake_token".to_string() }));
    let mut notice = token_notice("user", 5, 0);
    notice.msg = Err("Error parsing into type RecieveTokenMsg".to_string());
    let r = recieve_token(&mut b, &env(), &info("token"), notice);
    assert_eq!(r.err(), Some(ContractError::StdError("Error parsing into type RecieveTokenMsg".to_string())));
    assert_eq!(b, before);
    let resp = recieve_token(&mut b, &env(), &info("token"), token_notice("user", 5, 0)).unwrap();
    assert_eq!(resp.attributes[3].value, "nft1");
    assert!(tokens(&b, 0).is_empty());
}

#[test]
fn queries_read_what_was_written() {
    let mut b = booth();
    assert_eq!(query_num_pools(&b, &env()).pools, 0);
    create_pool(&mut b, &env(), &info("owner"), 9).unwrap();
    add_nft(&mut b, &env(), &info("nfts"), 0, "n".to_string()).unwrap();
    assert_eq!(query_num_pools(&b, &env()).pools, 1);
    assert_eq!(query_pool_info(&b, &env(), 0).pool, Pool { tokens: vec!["n".to_string()], price: 9 });
    match query(&b, &env(), QueryMsg::NumPools {}) {
        QueryResponse::NumPools(n) => assert_eq!(n.pools, 1),
        _ => panic!("wrong answer"),
    }
    match query(&b, &env(), QueryMsg::PoolInfo { poolid: 0 }) {
        QueryResponse::PoolInfo(p) => assert_eq!(p.pool.price, 9),
        _ => panic!("wrong answer"),
    }
}

#[test]
fn execute_dispatches() {
    let mut b = booth();
    let resp = execute(&mut b, &env(), &info("owner"), ExecuteMsg::CreatePool { price: 5 }).unwrap();
    assert_eq!(resp.attributes[1].value, "0");
    execute(&mut b, &env(), &info("nfts"), ExecuteMsg::ReceiveNft(nft_notice("owner", "nft1", 0))).unwrap();
    let resp = execute(
        &mut b,
        &env(),
        &info("owner"),
        ExecuteMsg::RemoveNft { poolid: 0, token_id: "nft1".to_string(), nft_contract: "nfts".to_string() },
    )
    .unwrap();
    assert_eq!(resp.messages.len(), 1);
    execute(&mut b, &env(), &info("nfts"), ExecuteMsg::ReceiveNft(nft_notice("owner", "nft2", 0))).unwrap();
    let resp = execute(&mut b, &env(), &info("token"), ExecuteMsg::Receive(token_notice("user", 5, 0))).unwrap();
    assert_eq!(resp.attributes[3].value, "nft2");
    execute(&mut b, &env(), &info("owner"), ExecuteMsg::RemovePool { poolid: 0 }).unwrap();
    execute(&mut b, &env(), &info("owner"), ExecuteMsg::UpdateAdmin { addr: "x".to_string() }).unwrap();
    assert_eq!(b.admin, "owner");
    assert_eq!(b.num_pools, 1);
}

/// A whole round trip: a pool at price 5, the owner's "nft1" sent in, and
/// "user" buying it with 5 tokens.
#[test]
fn booth_round_trip_scenario() {
    let mut b = booth();
    execute(&mut b, &env(), &info("owner"), ExecuteMsg::CreatePool { price: 5 }).unwrap();
    execute(&mut b, &env(), &info("nfts"), ExecuteMsg::ReceiveNft(nft_notice("owner", "nft1", 0))).unwrap();
    let resp = execute(&mut b, &env(), &info("token"), ExecuteMsg::Receive(token_notice("user", 5, 0))).unwrap();
    assert_eq!(
        resp.messages[1],
        CosmosMsg::Execute {
            contract_addr: "nfts".to_string(),
            msg: br#"{"transfer_nft":{"recipient":"user","token_id":"nft1"}}"#.to_vec(),
        }
    );
    assert_eq!(query_num_pools(&b, &env()).pools, 1);
    assert_eq!(query_pool_info(&b, &env(), 0).pool, Pool { tokens: vec![], price: 5 });
}

#[test]
fn transfer_message_escapes_text() {
    let mut b = booth();
    create_pool(&mut b, &env(), &info("owner"), 5).unwrap();
    add_nft(&mut b, &env(), &info("nfts"), 0, "a\"b".to_string()).unwrap();
    let resp = remove_nft(&mut b, &env(), &info("owner"), 0, "a\"b".to_string()).unwrap();
    assert_eq!(
        resp.messages,
        vec![CosmosMsg::Execute {
            contract_addr: "nfts".to_string(),
            msg: br#"{"transfer_nft":{"recipient":"owner","token_id":"a\"b"}}"#.to_vec(),
        }]
    );
}

#[test]
fn add_and_redeem_commute() {
    let mut add_first = booth();
    create_pool(&mut add_first, &env(), &info("owner"), 5).unwrap();
    add_nft(&mut add_first, &env(), &info("nfts"), 0, "old".to_string()).unwrap();
    let mut sell_first = add_first.clone();
    add_nft(&mut add_first, &env(), &info("nfts"), 0, "new".to_string()).unwrap();
    let r1 = redeem_token(&mut add_first, &env(), &info("token"), 5, 0, "u".to_string()).unwrap();
    let r2 = redeem_token(&mut sell_first, &env(), &info("token"), 5, 0, "u".to_string()).unwrap();
    add_nft(&mut sell_first, &env(), &info("nfts"), 0, "new".to_string()).unwrap();
    assert_eq!(r1, r2);
    assert_eq!(add_first, sell_first);
    assert_eq!(tokens(&add_first, 0), vec!["new".to_string()]);
}

#[test]
fn allowed_calls_are_those_without_panic() {
    let mut b = booth();
    create_pool(&mut b, &env(), &info("owner"), 5).unwrap();
    add_nft(&mut b, &env(), &info("nfts"), 0, "a".to_string()).unwrap();
    let remove = |poolid: u32, t: &str| ExecuteMsg::RemoveNft { poolid, token_id: t.to_string(), nft_contract: String::new() };
    assert!(execute_allowed(&b, &info("owner"), &remove(0, "a")));
    assert!(!execute_allowed(&b, &info("owner"), &remove(0, "b")));
    assert!(!execute_allowed(&b, &info("owner"), &remove(1, "a")));
    assert!(execute_allowed(&b, &info("user"), &remove(1, "a")));
    assert!(!execute_allowed(&b, &info("nfts"), &ExecuteMsg::ReceiveNft(nft_notice("owner", "x", 3))));
    assert!(execute_allowed(&b, &info("nfts"), &ExecuteMsg::ReceiveNft(nft_notice("user", "x", 3))));
    assert!(!execute_allowed(&b, &info("token"), &ExecuteMsg::Receive(token_notice("u", 5, 1))));
    assert!(execute_allowed(&b, &info("token"), &ExecuteMsg::Receive(token_notice("u", 5, 0))));
    assert!(query_allowed(&b, &QueryMsg::PoolInfo { poolid: 0 }));
    assert!(!query_allowed(&b, &QueryMsg::PoolInfo { poolid: 1 }));
    assert!(query_allowed(&b, &QueryMsg::NumPools {}));
}

#[test]
fn message_test() {
    let owner_addr = "owner";
    let user_addr = "user";
    let mut b = booth();
    let createpool = execute(&mut b, &env(), &info(owner_addr), ExecuteMsg::CreatePool { price: 5 }).unwrap();
    assert_eq!(createpool.attributes[2].value, "5");
    let transfer_nft = execute(&mut b, &env(), &info("nfts"), ExecuteMsg::ReceiveNft(nft_notice(owner_addr, "nft1", 0)));
    assert!(transfer_nft.is_ok());
    let redeemtoken = execute(&mut b, &env(), &info("token"), ExecuteMsg::Receive(token_notice(user_addr, 5, 0))).unwrap();
    assert_eq!(
        redeemtoken.messages,
        vec![
            CosmosMsg::Execute { contract_addr: "token".to_string(), msg: br#"{"burn":{"amount":"5"}}"#.to_vec() },
            CosmosMsg::Execute {
                contract_addr: "nfts".to_string(),
                msg: br#"{"transfer_nft":{"recipient":"user","token_id":"nft1"}}"#.to_vec(),
            },
        ]
    );
    let numpools = query_num_pools(&b, &env());
    let poolinfo = query_pool_info(&b, &env(), 0);
    assert_eq!(numpools.pools, 1);
    assert_eq!(poolinfo.pool, Pool { tokens: vec![], price: 5 });
}

#[test]
fn pool_count_counts_creations() {
    let mut b = booth();
    let mut created = 0u32;
    for (sender, price) in [("owner", 1u128), ("user", 2), ("owner", 3), ("nfts", 4), ("owner", 5)] {
        if execute(&mut b, &env(), &info(sender), ExecuteMsg::CreatePool { price }).is_ok() {
            created += 1;
        }
        execute(&mut b, &env(), &info("owner"), ExecuteMsg::RemovePool { poolid: 0 }).unwrap();
    }
    assert_eq!(created, 3);
    assert_eq!(query_num_pools(&b, &env()).pools, created);
}
