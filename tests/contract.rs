use tokenfactory_core::contract::{
    execute, execute_add_denom, execute_add_whitelist, execute_burn, execute_mint,
    execute_remove_denom, execute_remove_whitelist, execute_transfer_admin, instantiate, query,
};
use tokenfactory_core::error::ContractError;
use tokenfactory_core::helpers::{
    has_factory_prefix, is_contract_manager, is_whitelisted, mint_factory_token_messages,
    partition_funds,
};
use tokenfactory_core::lists::{add_entries, contains_str, remove_entries};
use tokenfactory_core::msg::{Coin, ExecuteMsg, InstantiateMsg, Instruction, QueryMsg, TokenMsg};
use tokenfactory_core::state::Config;

const DENOM: &str = "factory/juno1abc/test";

fn s(x: &str) -> String {
    x.to_string()
}

fn strs(xs: &[&str]) -> Vec<String> {
    xs.iter().map(|x| x.to_string()).collect()
}

fn coin(denom: &str, amount: u128) -> Coin {
    Coin { denom: s(denom), amount }
}

fn config() -> Config {
    Config {
        manager: s("manager"),
        allowed_mint_addresses: strs(&["addrX"]),
        denoms: strs(&[DENOM]),
    }
}

#[test]
fn instantiate_defaults_manager_to_sender() {
    let msg = InstantiateMsg {
        manager: None,
        allowed_mint_addresses: vec![],
        denoms: strs(&[DENOM]),
    };
    let c = instantiate(msg, &s("addr1")).unwrap();
    assert_eq!(c.manager, "addr1");
    assert_eq!(c.denoms, strs(&[DENOM]));
    assert!(c.allowed_mint_addresses.is_empty());
}

#[test]
fn instantiate_keeps_explicit_manager() {
    let msg = InstantiateMsg {
        manager: Some(s("dao")),
        allowed_mint_addresses: strs(&["a", "b", "a"]),
        denoms: strs(&[DENOM, "factory/x/y", DENOM]),
    };
    let c = instantiate(msg, &s("addr1")).unwrap();
    assert_eq!(c.manager, "dao");
    assert_eq!(c.allowed_mint_addresses, strs(&["a", "b"]));
    assert_eq!(c.denoms, strs(&[DENOM, "factory/x/y"]));
}

#[test]
fn instantiate_rejects_first_denom_without_prefix() {
    let msg = InstantiateMsg {
        manager: None,
        allowed_mint_addresses: vec![],
        denoms: strs(&[DENOM, "uatom", "ujuno"]),
    };
    match instantiate(msg, &s("addr1")) {
        Err(ContractError::InvalidDenom { denom, message }) => {
            assert_eq!(denom, "uatom");
            assert_eq!(message, "Denom must start with 'factory/'");
        }
        other => panic!("unexpected {:?}", other),
    }
}

#[test]
fn factory_prefix_is_checked_exactly() {
    assert!(has_factory_prefix(&s("factory/")));
    assert!(has_factory_prefix(&s(DENOM)));
    assert!(!has_factory_prefix(&s("factory")));
    assert!(!has_factory_prefix(&s("Factory/x")));
    assert!(!has_factory_prefix(&s("")));
    assert!(!has_factory_prefix(&s("x/factory/")));
}

#[test]
fn add_whitelist_twice_keeps_no_duplicate() {
    let mut c = config();
    c.allowed_mint_addresses = vec![];
    let r = execute_add_whitelist(c, &s("manager"), &strs(&["addrX", "addrY"])).unwrap();
    let c1 = r.save.unwrap();
    assert_eq!(c1.allowed_mint_addresses, strs(&["addrX", "addrY"]));
    assert!(r.messages.is_empty());
    let r2 = execute_add_whitelist(c1.clone(), &s("manager"), &strs(&["addrX"])).unwrap();
    assert_eq!(r2.save.unwrap().allowed_mint_addresses, strs(&["addrX", "addrY"]));
}

#[test]
fn add_entries_is_idempotent() {
    let once = add_entries(strs(&["a", "b"]), &strs(&["c", "a", "c", "d"]));
    assert_eq!(once, strs(&["a", "b", "c", "d"]));
    let twice = add_entries(once.clone(), &strs(&["c", "a", "c", "d"]));
    assert_eq!(twice, once);
}

#[test]
fn remove_entries_of_absent_is_no_op() {
    let list = strs(&["a", "b", "c"]);
    assert_eq!(remove_entries(list.clone(), &strs(&["x", "y"])), list);
    assert_eq!(remove_entries(list.clone(), &strs(&["b", "x"])), strs(&["a", "c"]));
    assert_eq!(remove_entries(list, &strs(&["c", "a", "b"])), Vec::<String>::new());
}

#[test]
fn contains_str_finds_equal_strings_only() {
    let list = strs(&["ab", "cd"]);
    assert!(contains_str(&list, &s("cd")));
    assert!(!contains_str(&list, &s("c")));
    assert!(!contains_str(&vec![], &s("")));
}

#[test]
fn remove_whitelist_and_denoms() {
    let mut c = config();
    c.allowed_mint_addresses = strs(&["a", "b", "c"]);
    let r = execute_remove_whitelist(c, &s("manager"), &strs(&["b", "zz"])).unwrap();
    assert_eq!(r.save.clone().unwrap().allowed_mint_addresses, strs(&["a", "c"]));
    let r = execute_remove_denom(r.save.unwrap(), &s("manager"), &strs(&["uatom"])).unwrap();
    assert_eq!(r.save.clone().unwrap().denoms, strs(&[DENOM]));
    let r = execute_remove_denom(r.save.unwrap(), &s("manager"), &strs(&[DENOM])).unwrap();
    assert!(r.save.unwrap().denoms.is_empty());
}

#[test]
fn add_denom_skips_prefix_check_and_duplicates() {
    let r = execute_add_denom(config(), &s("manager"), &strs(&["uatom", DENOM])).unwrap();
    assert_eq!(r.save.unwrap().denoms, strs(&[DENOM, "uatom"]));
}

#[test]
fn manager_only_operations_refuse_others() {
    let stranger = s("addrX");
    let list = strs(&["z"]);
    assert_eq!(execute_add_whitelist(config(), &stranger, &list), Err(ContractError::Unauthorized));
    assert_eq!(execute_remove_whitelist(config(), &stranger, &list), Err(ContractError::Unauthorized));
    assert_eq!(execute_add_denom(config(), &stranger, &list), Err(ContractError::Unauthorized));
    assert_eq!(execute_remove_denom(config(), &stranger, &list), Err(ContractError::Unauthorized));
    assert_eq!(
        execute_transfer_admin(config(), &stranger, s(DENOM), s("addr2")),
        Err(ContractError::Unauthorized)
    );
    assert_eq!(is_contract_manager(&config(), &stranger), Err(ContractError::Unauthorized));
    assert_eq!(is_contract_manager(&config(), &s("manager")), Ok(()));
}

#[test]
fn mint_by_whitelisted_caller() {
    let r = execute_mint(&config(), &s("addrX"), &s("R"), &vec![coin(DENOM, 100)]).unwrap();
    assert!(r.save.is_none());
    assert_eq!(
        r.messages,
        vec![Instruction::Token(TokenMsg::MintTokens {
            denom: s(DENOM),
            amount: 100,
            mint_to_address: s("R"),
        })]
    );
}

#[test]
fn mint_by_other_caller_is_refused() {
    let r = execute_mint(&config(), &s("addrZ"), &s("R"), &vec![coin(DENOM, 100)]);
    assert_eq!(r, Err(ContractError::Unauthorized));
    assert_eq!(is_whitelisted(&config(), &s("manager")), Err(ContractError::Unauthorized));
    assert_eq!(is_whitelisted(&config(), &s("addrX")), Ok(()));
}

#[test]
fn mint_passes_any_denom_and_zero_amounts() {
    let msgs = mint_factory_token_messages(&s("R"), &vec![coin("uatom", 0), coin(DENOM, u128::MAX)]);
    assert_eq!(
        msgs,
        vec![
            Instruction::Token(TokenMsg::MintTokens {
                denom: s("uatom"),
                amount: 0,
                mint_to_address: s("R"),
            }),
            Instruction::Token(TokenMsg::MintTokens {
                denom: s(DENOM),
                amount: u128::MAX,
                mint_to_address: s("R"),
            }),
        ]
    );
}

#[test]
fn burn_splits_tracked_and_returned_funds() {
    let funds = vec![coin(DENOM, 50), coin("uatom", 10)];
    let r = execute_burn(&config(), &s("S"), &s("contract"), &funds).unwrap();
    assert!(r.save.is_none());
    assert_eq!(
        r.messages,
        vec![
            Instruction::BankSend { to_address: s("S"), amount: vec![coin("uatom", 10)] },
            Instruction::Token(TokenMsg::BurnTokens {
                denom: s(DENOM),
                amount: 50,
                burn_from_address: s("contract"),
            }),
        ]
    );
}

#[test]
fn burn_without_funds_is_refused() {
    assert_eq!(
        execute_burn(&config(), &s("S"), &s("contract"), &vec![]),
        Err(ContractError::InvalidFunds)
    );
}

#[test]
fn burn_of_untracked_only_returns_everything() {
    let funds = vec![coin("uatom", 1), coin("ujuno", 2)];
    let r = execute_burn(&config(), &s("S"), &s("contract"), &funds).unwrap();
    assert_eq!(r.messages, vec![Instruction::BankSend { to_address: s("S"), amount: funds }]);
}

#[test]
fn partition_keeps_every_coin_once() {
    let denoms = strs(&["factory/a", "factory/b"]);
    let funds = vec![
        coin("factory/a", 1),
        coin("uatom", 2),
        coin("factory/b", 3),
        coin("uatom", 2),
        coin("factory/a", 1),
    ];
    let (inside, outside) = partition_funds(&denoms, &funds);
    assert_eq!(inside, vec![coin("factory/a", 1), coin("factory/b", 3), coin("factory/a", 1)]);
    assert_eq!(outside, vec![coin("uatom", 2), coin("uatom", 2)]);
    assert_eq!(inside.len() + outside.len(), funds.len());
}

#[test]
fn transfer_admin_drops_tracked_denom_once() {
    let mut c = config();
    c.denoms = strs(&["factory/a", DENOM, "factory/b"]);
    let r = execute_transfer_admin(c, &s("manager"), s(DENOM), s("addr2")).unwrap();
    let change = Instruction::Token(TokenMsg::ChangeAdmin {
        denom: s(DENOM),
        new_admin_address: s("addr2"),
    });
    assert_eq!(r.messages, vec![change.clone()]);
    let c1 = r.save.unwrap();
    assert_eq!(c1.denoms, strs(&["factory/a", "factory/b"]));
    assert_eq!(c1.manager, "manager");
    assert_eq!(c1.allowed_mint_addresses, strs(&["addrX"]));
    let r2 = execute_transfer_admin(c1, &s("manager"), s(DENOM), s("addr2")).unwrap();
    assert!(r2.save.is_none());
    assert_eq!(r2.messages, vec![change]);
}

#[test]
fn execute_dispatches_each_request() {
    let r = execute(config(), &s("S"), &s("contract"), &vec![], ExecuteMsg::Burn {});
    assert_eq!(r, Err(ContractError::InvalidFunds));
    let r = execute(
        config(),
        &s("addrX"),
        &s("contract"),
        &vec![],
        ExecuteMsg::Mint { address: s("R"), denom: vec![coin(DENOM, 7)] },
    )
    .unwrap();
    assert_eq!(r.messages.len(), 1);
    let r = execute(
        config(),
        &s("manager"),
        &s("contract"),
        &vec![],
        ExecuteMsg::AddWhitelist { addresses: strs(&["addrY"]) },
    )
    .unwrap();
    assert_eq!(r.save.unwrap().allowed_mint_addresses, strs(&["addrX", "addrY"]));
    let r = execute(
        config(),
        &s("manager"),
        &s("contract"),
        &vec![],
        ExecuteMsg::RemoveWhitelist { addresses: strs(&["addrX"]) },
    )
    .unwrap();
    assert!(r.save.unwrap().allowed_mint_addresses.is_empty());
    let r = execute(
        config(),
        &s("manager"),
        &s("contract"),
        &vec![],
        ExecuteMsg::AddDenom { denoms: strs(&["factory/z"]) },
    )
    .unwrap();
    assert_eq!(r.save.unwrap().denoms, strs(&[DENOM, "factory/z"]));
    let r = execute(
        config(),
        &s("manager"),
        &s("contract"),
        &vec![],
        ExecuteMsg::RemoveDenom { denoms: strs(&[DENOM]) },
    )
    .unwrap();
    assert!(r.save.unwrap().denoms.is_empty());
    let r = execute(
        config(),
        &s("manager"),
        &s("contract"),
        &vec![],
        ExecuteMsg::TransferAdmin { denom: s("factory/other"), new_address: s("n") },
    )
    .unwrap();
    assert!(r.save.is_none());
}

#[test]
fn query_returns_stored_config() {
    assert_eq!(query(config(), QueryMsg::GetConfig {}), config());
}
