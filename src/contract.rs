use crate::error::ContractError;
use crate::helpers::{
    burn_of, has_factory_prefix, is_contract_manager, is_factory_denom, is_whitelisted, managed,
    mint_factory_token_messages, mint_of, partition_funds, unmanaged,
};
use crate::lists::{
    add_entries, contains_str, lemma_union_no_duplicates, minus_list, remove_entries, union_list,
    views,
};
use crate::msg::{
    Coin, CoinView, ExecuteMsg, InstantiateMsg, Instruction, InstructionView, QueryMsg, Response,
    ResponseView, TokenMsg, TokenMsgView,
};
use crate::state::{Config, ConfigView};
use vstd::prelude::*;

verus! {

/// The abstract value of an operation's result.
pub open spec fn outcome(r: Result<Response, ContractError>) -> Result<ResponseView, ContractError> {
    match r {
        Ok(resp) => Ok(resp@),
        Err(e) => Err(e),
    }
}

/// A manager-only change of the configuration to `next`, with no instruction.
pub open spec fn manager_update(c: ConfigView, sender: Seq<char>, next: ConfigView) -> Result<
    ResponseView,
    ContractError,
> {
    if sender != c.manager {
        Err(ContractError::Unauthorized)
    } else {
        Ok(ResponseView { save: Some(next), messages: Seq::empty() })
    }
}

/// `c` with another whitelist.
pub open spec fn with_whitelist(c: ConfigView, list: Seq<Seq<char>>) -> ConfigView {
    ConfigView { manager: c.manager, allowed_mint_addresses: list, denoms: c.denoms }
}

/// `c` with another denomination set.
pub open spec fn with_denoms(c: ConfigView, list: Seq<Seq<char>>) -> ConfigView {
    ConfigView { manager: c.manager, allowed_mint_addresses: c.allowed_mint_addresses, denoms: list }
}

/// AddWhitelist: the manager sets the whitelist to its union with `addresses`.
pub open spec fn add_whitelist_model(c: ConfigView, sender: Seq<char>, addresses: Seq<Seq<char>>) -> Result<
    ResponseView,
    ContractError,
> {
    manager_update(c, sender, with_whitelist(c, union_list(c.allowed_mint_addresses, addresses)))
}

/// RemoveWhitelist: the manager takes `addresses` out of the whitelist.
pub open spec fn remove_whitelist_model(
    c: ConfigView,
    sender: Seq<char>,
    addresses: Seq<Seq<char>>,
) -> Result<ResponseView, ContractError> {
    manager_update(c, sender, with_whitelist(c, minus_list(c.allowed_mint_addresses, addresses)))
}

/// AddDenom: the manager sets the denomination set to its union with `denoms`.
pub open spec fn add_denom_model(c: ConfigView, sender: Seq<char>, denoms: Seq<Seq<char>>) -> Result<
    ResponseView,
    ContractError,
> {
    manager_update(c, sender, with_denoms(c, union_list(c.denoms, denoms)))
}

/// RemoveDenom: the manager takes `denoms` out of the denomination set.
pub open spec fn remove_denom_model(c: ConfigView, sender: Seq<char>, denoms: Seq<Seq<char>>) -> Result<
    ResponseView,
    ContractError,
> {
    manager_update(c, sender, with_denoms(c, minus_list(c.denoms, denoms)))
}

/// The manager hands the factory admin of `denom` to `new_admin`; a tracked
/// `denom` leaves the denomination set.
pub open spec fn transfer_admin_model(
    c: ConfigView,
    sender: Seq<char>,
    denom: Seq<char>,
    new_admin: Seq<char>,
) -> Result<ResponseView, ContractError> {
    if sender != c.manager {
        Err(ContractError::Unauthorized)
    } else {
        Ok(
            ResponseView {
                save: if c.denoms.contains(denom) {
                    Some(with_denoms(c, minus_list(c.denoms, seq![denom])))
                } else {
                    None
                },
                messages: seq![
                    InstructionView::Token(
                        TokenMsgView::ChangeAdmin { denom: denom, new_admin_address: new_admin },
                    ),
                ],
            },
        )
    }
}

/// A whitelisted caller mints each coin to `recipient`.
pub open spec fn mint_model(
    c: ConfigView,
    sender: Seq<char>,
    recipient: Seq<char>,
    coins: Seq<CoinView>,
) -> Result<ResponseView, ContractError> {
    if !c.allowed_mint_addresses.contains(sender) {
        Err(ContractError::Unauthorized)
    } else {
        Ok(ResponseView { save: None, messages: coins.map_values(mint_of(recipient)) })
    }
}

/// Anyone burns the attached funds: those of a tracked denomination are burnt
/// from the contract's account, the rest go back to the caller in one transfer.
pub open spec fn burn_model(
    c: ConfigView,
    sender: Seq<char>,
    contract: Seq<char>,
    funds: Seq<CoinView>,
) -> Result<ResponseView, ContractError> {
    if funds.len() == 0 {
        Err(ContractError::InvalidFunds)
    } else {
        Ok(
            ResponseView {
                save: None,
                messages: seq![
                    InstructionView::BankSend {
                        to_address: sender,
                        amount: unmanaged(c.denoms, funds),
                    },
                ] + managed(c.denoms, funds).map_values(burn_of(contract)),
            },
        )
    }
}

/// The configuration that creation stores: the given manager, or the creating
/// caller; each list with its repeated entries dropped.
pub open spec fn initial_config(msg: InstantiateMsg, sender: Seq<char>) -> ConfigView {
    ConfigView {
        manager: match msg.manager {
            Some(m) => m@,
            None => sender,
        },
        allowed_mint_addresses: union_list(Seq::empty(), views(msg.allowed_mint_addresses@)),
        denoms: union_list(Seq::empty(), views(msg.denoms@)),
    }
}

/// Builds the first configuration, created by `sender`. Every denomination
/// must start with `factory/`; the first that does not is reported.
pub fn instantiate(msg: InstantiateMsg, sender: &String) -> (r: Result<Config, ContractError>)
    ensures
        r is Ok <==> forall|i: int|
            0 <= i < msg.denoms.len() ==> is_factory_denom(#[trigger] msg.denoms@[i]@),
        r matches Ok(c) ==> c@ == initial_config(msg, sender@) && c@.wf(),
        r matches Err(e) ==> exists|i: int|
            0 <= i < msg.denoms.len() && !is_factory_denom(msg.denoms@[i]@) && (forall|j: int|
                0 <= j < i ==> is_factory_denom(#[trigger] msg.denoms@[j]@)) && (
            e matches ContractError::InvalidDenom { denom, .. } && denom@ == msg.denoms@[i]@),
{
    let mut i: usize = 0;
    while i < msg.denoms.len()
        invariant
            i <= msg.denoms.len(),
            forall|j: int| 0 <= j < i ==> is_factory_denom(#[trigger] msg.denoms@[j]@),
        decreases msg.denoms.len() - i,
    {
        if !has_factory_prefix(&msg.denoms[i]) {
            return Err(
                ContractError::InvalidDenom {
                    denom: msg.denoms[i].clone(),
                    message: "Denom must start with 'factory/'".to_string(),
                },
            );
        }
        i = i + 1;
    }
    let ghost g = msg;
    let manager = match msg.manager {
        Some(m) => m,
        None => sender.clone(),
    };
    let empty_a: Vec<String> = Vec::new();
    let empty_d: Vec<String> = Vec::new();
    assert(views(empty_a@) =~= Seq::<Seq<char>>::empty());
    assert(views(empty_d@) =~= Seq::<Seq<char>>::empty());
    let allowed_mint_addresses = add_entries(empty_a, &msg.allowed_mint_addresses);
    let denoms = add_entries(empty_d, &msg.denoms);
    proof {
        lemma_union_no_duplicates(Seq::empty(), views(g.allowed_mint_addresses@));
        lemma_union_no_duplicates(Seq::empty(), views(g.denoms@));
    }
    Ok(Config { manager, allowed_mint_addresses, denoms })
}

/// Adds addresses to the mint whitelist (manager only).
pub fn execute_add_whitelist(state: Config, sender: &String, addresses: &Vec<String>) -> (r: Result<
    Response,
    ContractError,
>)
    ensures
        outcome(r) == add_whitelist_model(state@, sender@, views(addresses@)),
{
    match is_contract_manager(&state, sender) {
        Err(e) => Err(e),
        Ok(()) => {
            let Config { manager, allowed_mint_addresses, denoms } = state;
            let updated = add_entries(allowed_mint_addresses, addresses);
            let next = Config { manager, allowed_mint_addresses: updated, denoms };
            let messages: Vec<Instruction> = Vec::new();
            assert(views(messages@) =~= Seq::<InstructionView>::empty());
            Ok(Response { save: Some(next), messages })
        },
    }
}

/// Removes addresses from the mint whitelist (manager only).
pub fn execute_remove_whitelist(state: Config, sender: &String, addresses: &Vec<String>) -> (r:
    Result<Response, ContractError>)
    ensures
        outcome(r) == remove_whitelist_model(state@, sender@, views(addresses@)),
{
    match is_contract_manager(&state, sender) {
        Err(e) => Err(e),
        Ok(()) => {
            let Config { manager, allowed_mint_addresses, denoms } = state;
            let updated = remove_entries(allowed_mint_addresses, addresses);
            let next = Config { manager, allowed_mint_addresses: updated, denoms };
            let messages: Vec<Instruction> = Vec::new();
            assert(views(messages@) =~= Seq::<InstructionView>::empty());
            Ok(Response { save: Some(next), messages })
        },
    }
}

/// Adds denominations to the tracked set (manager only).
pub fn execute_add_denom(state: Config, sender: &String, new_denoms: &Vec<String>) -> (r: Result<
    Response,
    ContractError,
>)
    ensures
        outcome(r) == add_denom_model(state@, sender@, views(new_denoms@)),
{
    match is_contract_manager(&state, sender) {
        Err(e) => Err(e),
        Ok(()) => {
            let Config { manager, allowed_mint_addresses, denoms } = state;
            let updated = add_entries(denoms, new_denoms);
            let next = Config { manager, allowed_mint_addresses, denoms: updated };
            let messages: Vec<Instruction> = Vec::new();
            assert(views(messages@) =~= Seq::<InstructionView>::empty());
            Ok(Response { save: Some(next), messages })
        },
    }
}

/// Removes denominations from the tracked set (manager only).
pub fn execute_remove_denom(state: Config, sender: &String, gone: &Vec<String>) -> (r: Result<
    Response,
    ContractError,
>)
    ensures
        outcome(r) == remove_denom_model(state@, sender@, views(gone@)),
{
    match is_contract_manager(&state, sender) {
        Err(e) => Err(e),
        Ok(()) => {
            let Config { manager, allowed_mint_addresses, denoms } = state;
            let updated = remove_entries(denoms, gone);
            let next = Config { manager, allowed_mint_addresses, denoms: updated };
            let messages: Vec<Instruction> = Vec::new();
            assert(views(messages@) =~= Seq::<InstructionView>::empty());
            Ok(Response { save: Some(next), messages })
        },
    }
}

/// Hands the factory admin of `denom` to `new_addr` (manager only). A tracked
/// `denom` leaves the denomination set; an untracked one leaves it unchanged,
/// so that the admin of a denomination never tracked can still be moved.
pub fn execute_transfer_admin(state: Config, sender: &String, denom: String, new_addr: String) -> (r:
    Result<Response, ContractError>)
    ensures
        outcome(r) == transfer_admin_model(state@, sender@, denom@, new_addr@),
{
    match is_contract_manager(&state, sender) {
        Err(e) => Err(e),
        Ok(()) => {
            let ghost c = state@;
            let present = contains_str(&state.denoms, &denom);
            let save = if present {
                let mut gone: Vec<String> = Vec::new();
                gone.push(denom.clone());
                assert(views(gone@) =~= seq![denom@]);
                let Config { manager, allowed_mint_addresses, denoms } = state;
                Some(Config { manager, allowed_mint_addresses, denoms: remove_entries(denoms, &gone) })
            } else {
                None
            };
            let ghost d = denom@;
            let ghost a = new_addr@;
            let mut messages: Vec<Instruction> = Vec::new();
            messages.push(
                Instruction::Token(TokenMsg::ChangeAdmin { denom, new_admin_address: new_addr }),
            );
            assert(views(messages@) =~= seq![
                InstructionView::Token(TokenMsgView::ChangeAdmin { denom: d, new_admin_address: a }),
            ]);
            Ok(Response { save, messages })
        },
    }
}

/// Mints each coin to `address`, for a whitelisted caller. The denominations
/// are not checked against the tracked set.
pub fn execute_mint(state: &Config, sender: &String, address: &String, coins: &Vec<Coin>) -> (r:
    Result<Response, ContractError>)
    ensures
        outcome(r) == mint_model(state@, sender@, address@, views(coins@)),
{
    match is_whitelisted(state, sender) {
        Err(e) => Err(e),
        Ok(()) => {
            let messages = mint_factory_token_messages(address, coins);
            Ok(Response { save: None, messages })
        },
    }
}

/// Burns the attached funds of tracked denominations from the contract's own
/// account and sends every other attached coin back to the caller.
pub fn execute_burn(state: &Config, sender: &String, contract_address: &String, funds: &Vec<Coin>) -> (r:
    Result<Response, ContractError>)
    ensures
        outcome(r) == burn_model(state@, sender@, contract_address@, views(funds@)),
{
    if funds.len() == 0 {
        return Err(ContractError::InvalidFunds);
    }
    let (factory_denoms, send_back) = partition_funds(&state.denoms, funds);
    let ghost head = seq![
        InstructionView::BankSend { to_address: sender@, amount: views(send_back@) },
    ];
    let ghost burnt = views(factory_denoms@);
    let mut messages: Vec<Instruction> = Vec::new();
    messages.push(Instruction::BankSend { to_address: sender.clone(), amount: send_back });
    assert(views(messages@) =~= head);
    let mut i: usize = 0;
    while i < factory_denoms.len()
        invariant
            i <= factory_denoms.len(),
            burnt == views(factory_denoms@),
            views(messages@) == head + burnt.subrange(0, i as int).map_values(
                burn_of(contract_address@),
            ),
        decreases factory_denoms.len() - i,
    {
        let ghost before = views(messages@);
        messages.push(
            Instruction::Token(
                TokenMsg::BurnTokens {
                    denom: factory_denoms[i].denom.clone(),
                    amount: factory_denoms[i].amount,
                    burn_from_address: contract_address.clone(),
                },
            ),
        );
        proof {
            let f = burn_of(contract_address@);
            assert(burnt.subrange(0, i as int + 1) =~= burnt.subrange(0, i as int).push(
                burnt[i as int],
            ));
            assert(burnt.subrange(0, i as int + 1).map_values(f) =~= burnt.subrange(
                0,
                i as int,
            ).map_values(f).push(f(burnt[i as int])));
            assert(views(messages@) =~= before.push(f(burnt[i as int])));
        }
        i = i + 1;
    }
    assert(burnt.subrange(0, factory_denoms.len() as int) =~= burnt);
    Ok(Response { save: None, messages })
}

/// Answers a read-only request: the stored configuration, as it is.
pub fn query(state: Config, msg: QueryMsg) -> (r: Config)
    ensures
        r == state,
{
    match msg {
        QueryMsg::GetConfig {} => state,
    }
}

/// Runs one state-changing request from `sender`, who attached `funds`, on
/// the stored configuration of the contract at `contract_address`.
pub fn execute(
    state: Config,
    sender: &String,
    contract_address: &String,
    funds: &Vec<Coin>,
    msg: ExecuteMsg,
) -> (r: Result<Response, ContractError>)
    ensures
        match msg {
            ExecuteMsg::Burn {  } => outcome(r) == burn_model(
                state@,
                sender@,
                contract_address@,
                views(funds@),
            ),
            ExecuteMsg::Mint { address, denom } => outcome(r) == mint_model(
                state@,
                sender@,
                address@,
                views(denom@),
            ),
            ExecuteMsg::TransferAdmin { denom, new_address } => outcome(r) == transfer_admin_model(
                state@,
                sender@,
                denom@,
                new_address@,
            ),
            ExecuteMsg::AddWhitelist { addresses } => outcome(r) == add_whitelist_model(
                state@,
                sender@,
                views(addresses@),
            ),
            ExecuteMsg::RemoveWhitelist { addresses } => outcome(r) == remove_whitelist_model(
                state@,
                sender@,
                views(addresses@),
            ),
            ExecuteMsg::AddDenom { denoms } => outcome(r) == add_denom_model(
                state@,
                sender@,
                views(denoms@),
            ),
            ExecuteMsg::RemoveDenom { denoms } => outcome(r) == remove_denom_model(
                state@,
                sender@,
                views(denoms@),
            ),
        },
{
    match msg {
        ExecuteMsg::Burn {  } => execute_burn(&state, sender, contract_address, funds),
        ExecuteMsg::Mint { address, denom } => execute_mint(&state, sender, &address, &denom),
        ExecuteMsg::TransferAdmin { denom, new_address } => execute_transfer_admin(
            state,
            sender,
            denom,
            new_address,
        ),
        ExecuteMsg::AddWhitelist { addresses } => execute_add_whitelist(state, sender, &addresses),
        ExecuteMsg::RemoveWhitelist { addresses } => execute_remove_whitelist(
            state,
            sender,
            &addresses,
        ),
        ExecuteMsg::AddDenom { denoms } => execute_add_denom(state, sender, &denoms),
        ExecuteMsg::RemoveDenom { denoms } => execute_remove_denom(state, sender, &denoms),
    }
}

} // verus!
