use crate::error::ContractError;
use crate::lists::{contains_str, views};
use crate::msg::{Coin, CoinView, Instruction, InstructionView, TokenMsg, TokenMsgView};
use crate::state::Config;
use vstd::prelude::*;

verus! {

/// The namespace of every denomination the token factory creates.
pub open spec fn factory_prefix() -> Seq<char> {
    seq!['f', 'a', 'c', 't', 'o', 'r', 'y', '/']
}

/// Whether `d` is named in the token factory's namespace.
pub open spec fn is_factory_denom(d: Seq<char>) -> bool {
    factory_prefix().is_prefix_of(d)
}

/// Relies on `str::starts_with` with a `&str` pattern: true exactly when
/// `prefix` is a leading part of `s`.
#[verifier::external_body]
fn starts_with(s: &str, prefix: &str) -> (r: bool)
    ensures
        r == prefix@.is_prefix_of(s@),
{
    s.starts_with(prefix)
}

/// Whether `d` begins with `factory/`.
pub fn has_factory_prefix(d: &String) -> (r: bool)
    ensures
        r == is_factory_denom(d@),
{
    let prefix = "factory/";
    proof {
        reveal_strlit("factory/");
    }
    assert(prefix@ =~= factory_prefix());
    starts_with(d.as_str(), prefix)
}

/// Holds of the coins whose denomination `denoms` holds.
pub open spec fn is_managed(denoms: Seq<Seq<char>>) -> spec_fn(CoinView) -> bool {
    |c: CoinView| denoms.contains(c.0)
}

/// Holds of the coins whose denomination `denoms` does not hold.
pub open spec fn is_unmanaged(denoms: Seq<Seq<char>>) -> spec_fn(CoinView) -> bool {
    |c: CoinView| !denoms.contains(c.0)
}

/// The funds, in order, of a denomination that the contract administers.
pub open spec fn managed(denoms: Seq<Seq<char>>, funds: Seq<CoinView>) -> Seq<CoinView> {
    funds.filter(is_managed(denoms))
}

/// The funds, in order, of any other denomination.
pub open spec fn unmanaged(denoms: Seq<Seq<char>>, funds: Seq<CoinView>) -> Seq<CoinView> {
    funds.filter(is_unmanaged(denoms))
}

/// The factory instruction that mints a coin to `recipient`.
pub open spec fn mint_of(recipient: Seq<char>) -> spec_fn(CoinView) -> InstructionView {
    |c: CoinView|
        InstructionView::Token(
            TokenMsgView::MintTokens { denom: c.0, amount: c.1, mint_to_address: recipient },
        )
}

/// The factory instruction that burns a coin held by `holder`.
pub open spec fn burn_of(holder: Seq<char>) -> spec_fn(CoinView) -> InstructionView {
    |c: CoinView|
        InstructionView::Token(
            TokenMsgView::BurnTokens { denom: c.0, amount: c.1, burn_from_address: holder },
        )
}

/// Succeeds exactly when `sender` is the manager.
pub fn is_contract_manager(state: &Config, sender: &String) -> (r: Result<(), ContractError>)
    ensures
        r is Ok <==> sender@ == state.manager@,
        r is Err ==> r == Err::<(), ContractError>(ContractError::Unauthorized),
{
    if state.manager == *sender {
        Ok(())
    } else {
        Err(ContractError::Unauthorized)
    }
}

/// Succeeds exactly when `sender` is on the mint whitelist.
pub fn is_whitelisted(state: &Config, sender: &String) -> (r: Result<(), ContractError>)
    ensures
        r is Ok <==> state@.allowed_mint_addresses.contains(sender@),
        r is Err ==> r == Err::<(), ContractError>(ContractError::Unauthorized),
{
    if contains_str(&state.allowed_mint_addresses, sender) {
        Ok(())
    } else {
        Err(ContractError::Unauthorized)
    }
}

/// A copy of a coin.
pub fn copy_coin(c: &Coin) -> (r: Coin)
    ensures
        r@ == c@,
{
    Coin { denom: c.denom.clone(), amount: c.amount }
}

/// One mint instruction to `address` for each coin, in order.
pub fn mint_factory_token_messages(address: &String, coins: &Vec<Coin>) -> (r: Vec<Instruction>)
    ensures
        views(r@) == views(coins@).map_values(mint_of(address@)),
{
    let mut out: Vec<Instruction> = Vec::new();
    let mut i: usize = 0;
    while i < coins.len()
        invariant
            i <= coins.len(),
            views(out@) == views(coins@).subrange(0, i as int).map_values(mint_of(address@)),
        decreases coins.len() - i,
    {
        let ghost before = views(out@);
        out.push(
            Instruction::Token(
                TokenMsg::MintTokens {
                    denom: coins[i].denom.clone(),
                    amount: coins[i].amount,
                    mint_to_address: address.clone(),
                },
            ),
        );
        proof {
            let cs = views(coins@);
            assert(cs.subrange(0, i as int + 1) =~= cs.subrange(0, i as int).push(cs[i as int]));
            assert(cs.subrange(0, i as int + 1).map_values(mint_of(address@)) =~= before.push(
                mint_of(address@)(cs[i as int]),
            ));
            assert(views(out@) =~= before.push(mint_of(address@)(cs[i as int])));
        }
        i = i + 1;
    }
    assert(views(coins@).subrange(0, coins.len() as int) =~= views(coins@));
    out
}

/// Splits funds, keeping their order, into those of a denomination in
/// `denoms` and the rest.
pub fn partition_funds(denoms: &Vec<String>, funds: &Vec<Coin>) -> (r: (Vec<Coin>, Vec<Coin>))
    ensures
        views(r.0@) == managed(views(denoms@), views(funds@)),
        views(r.1@) == unmanaged(views(denoms@), views(funds@)),
{
    let ghost d = views(denoms@);
    let ghost all = views(funds@);
    let mut inside: Vec<Coin> = Vec::new();
    let mut outside: Vec<Coin> = Vec::new();
    proof {
        reveal(Seq::filter);
        assert(all.subrange(0, 0).filter(is_managed(d)) =~= Seq::<CoinView>::empty());
        assert(all.subrange(0, 0).filter(is_unmanaged(d)) =~= Seq::<CoinView>::empty());
    }
    let mut i: usize = 0;
    while i < funds.len()
        invariant
            i <= funds.len(),
            d == views(denoms@),
            all == views(funds@),
            views(inside@) == managed(d, all.subrange(0, i as int)),
            views(outside@) == unmanaged(d, all.subrange(0, i as int)),
        decreases funds.len() - i,
    {
        let ghost before_in = views(inside@);
        let ghost before_out = views(outside@);
        proof {
            assert(all.subrange(0, i as int + 1) =~= all.subrange(0, i as int).push(
                funds@[i as int]@,
            ));
            all.subrange(0, i as int).lemma_filter_push(funds@[i as int]@, is_managed(d));
            all.subrange(0, i as int).lemma_filter_push(funds@[i as int]@, is_unmanaged(d));
        }
        let c = copy_coin(&funds[i]);
        if contains_str(denoms, &funds[i].denom) {
            inside.push(c);
            assert(views(inside@) =~= before_in.push(funds@[i as int]@));
        } else {
            outside.push(c);
            assert(views(outside@) =~= before_out.push(funds@[i as int]@));
        }
        i = i + 1;
    }
    assert(all.subrange(0, funds.len() as int) =~= all);
    (inside, outside)
}

} // verus!
