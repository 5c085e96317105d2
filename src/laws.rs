//! What holds of the operations over all inputs.
use crate::contract::{
    add_denom_model, add_whitelist_model, burn_model, mint_model, remove_denom_model,
    remove_whitelist_model, transfer_admin_model, with_denoms,
};
use crate::error::ContractError;
use crate::helpers::{is_managed, is_unmanaged, managed, unmanaged};
use crate::lists::{
    lemma_minus_no_duplicates, lemma_minus_of_absent, lemma_minus_one, lemma_union_contents,
    lemma_union_no_duplicates, lemma_union_of_held, minus_list, union_list,
};
use crate::msg::{CoinView, InstructionView, ResponseView, TokenMsgView};
use crate::state::ConfigView;
use vstd::prelude::*;
use vstd::seq_lib::to_multiset_build;

verus! {

/// Adding the same entries a second time changes nothing: the union is
/// idempotent.
pub proof fn add_is_idempotent(list: Seq<Seq<char>>, new: Seq<Seq<char>>)
    ensures
        union_list(union_list(list, new), new) == union_list(list, new),
{
    lemma_union_contents(list, new);
    lemma_union_of_held(union_list(list, new), new);
}

/// A second AddWhitelist of the same addresses stores what the first stored.
pub proof fn add_whitelist_twice(c: ConfigView, sender: Seq<char>, addresses: Seq<Seq<char>>)
    requires
        sender == c.manager,
    ensures
        add_whitelist_model(c, sender, addresses) matches Ok(first) && first.save matches Some(
            next,
        ) && add_whitelist_model(next, sender, addresses) == add_whitelist_model(
            c,
            sender,
            addresses,
        ),
{
    add_is_idempotent(c.allowed_mint_addresses, addresses);
}

/// A second AddDenom of the same denominations stores what the first stored.
pub proof fn add_denom_twice(c: ConfigView, sender: Seq<char>, denoms: Seq<Seq<char>>)
    requires
        sender == c.manager,
    ensures
        add_denom_model(c, sender, denoms) matches Ok(first) && first.save matches Some(next)
            && add_denom_model(next, sender, denoms) == add_denom_model(c, sender, denoms),
{
    add_is_idempotent(c.denoms, denoms);
}

/// Removing entries that the list does not hold leaves it as it is.
pub proof fn remove_absent_is_no_op(list: Seq<Seq<char>>, gone: Seq<Seq<char>>)
    requires
        forall|x: Seq<char>| gone.contains(x) ==> !list.contains(x),
    ensures
        minus_list(list, gone) == list,
{
    lemma_minus_of_absent(list, gone);
}

/// RemoveWhitelist of addresses that are not on the whitelist stores the
/// configuration unchanged.
pub proof fn remove_absent_addresses(c: ConfigView, sender: Seq<char>, addresses: Seq<Seq<char>>)
    requires
        sender == c.manager,
        forall|x: Seq<char>| addresses.contains(x) ==> !c.allowed_mint_addresses.contains(x),
    ensures
        remove_whitelist_model(c, sender, addresses) == Ok::<ResponseView, ContractError>(
            ResponseView { save: Some(c), messages: Seq::empty() },
        ),
{
    remove_absent_is_no_op(c.allowed_mint_addresses, addresses);
}

/// RemoveDenom of denominations that are not tracked stores the configuration
/// unchanged.
pub proof fn remove_absent_denoms(c: ConfigView, sender: Seq<char>, denoms: Seq<Seq<char>>)
    requires
        sender == c.manager,
        forall|x: Seq<char>| denoms.contains(x) ==> !c.denoms.contains(x),
    ensures
        remove_denom_model(c, sender, denoms) == Ok::<ResponseView, ContractError>(
            ResponseView { save: Some(c), messages: Seq::empty() },
        ),
{
    remove_absent_is_no_op(c.denoms, denoms);
}

/// Any caller but the manager is refused every manager-only operation, which
/// then stores nothing and sends nothing.
pub proof fn manager_only_refuses_others(
    c: ConfigView,
    sender: Seq<char>,
    list: Seq<Seq<char>>,
    denom: Seq<char>,
    new_admin: Seq<char>,
)
    requires
        sender != c.manager,
    ensures
        add_whitelist_model(c, sender, list) == Err::<ResponseView, ContractError>(
            ContractError::Unauthorized,
        ),
        remove_whitelist_model(c, sender, list) == Err::<ResponseView, ContractError>(
            ContractError::Unauthorized,
        ),
        add_denom_model(c, sender, list) == Err::<ResponseView, ContractError>(
            ContractError::Unauthorized,
        ),
        remove_denom_model(c, sender, list) == Err::<ResponseView, ContractError>(
            ContractError::Unauthorized,
        ),
        transfer_admin_model(c, sender, denom, new_admin) == Err::<ResponseView, ContractError>(
            ContractError::Unauthorized,
        ),
{
}

/// A caller off the whitelist is refused Mint, which then sends nothing.
pub proof fn mint_refuses_others(
    c: ConfigView,
    sender: Seq<char>,
    recipient: Seq<char>,
    coins: Seq<CoinView>,
)
    requires
        !c.allowed_mint_addresses.contains(sender),
    ensures
        mint_model(c, sender, recipient, coins) == Err::<ResponseView, ContractError>(
            ContractError::Unauthorized,
        ),
{
}

/// Burn with no funds attached is always refused.
pub proof fn burn_needs_funds(c: ConfigView, sender: Seq<char>, contract: Seq<char>)
    ensures
        burn_model(c, sender, contract, Seq::empty()) == Err::<ResponseView, ContractError>(
            ContractError::InvalidFunds,
        ),
{
}

/// The two parts of a burn's funds are disjoint, the first holding the coins
/// of tracked denominations and the second the others, and together, as
/// multisets, they are the attached funds exactly.
pub proof fn burn_partition_is_exact(denoms: Seq<Seq<char>>, funds: Seq<CoinView>)
    ensures
        forall|k: int|
            0 <= k < managed(denoms, funds).len() ==> denoms.contains(
                #[trigger] managed(denoms, funds)[k].0,
            ),
        forall|k: int|
            0 <= k < unmanaged(denoms, funds).len() ==> !denoms.contains(
                #[trigger] unmanaged(denoms, funds)[k].0,
            ),
        managed(denoms, funds).to_multiset().add(unmanaged(denoms, funds).to_multiset())
            == funds.to_multiset(),
    decreases funds.len(),
{
    assert forall|k: int| 0 <= k < managed(denoms, funds).len() implies denoms.contains(
        #[trigger] managed(denoms, funds)[k].0,
    ) by {
        funds.lemma_filter_pred(is_managed(denoms), k);
    }
    assert forall|k: int| 0 <= k < unmanaged(denoms, funds).len() implies !denoms.contains(
        #[trigger] unmanaged(denoms, funds)[k].0,
    ) by {
        funds.lemma_filter_pred(is_unmanaged(denoms), k);
    }
    if funds.len() == 0 {
        reveal(Seq::filter);
        assert(managed(denoms, funds) =~= Seq::<CoinView>::empty());
        assert(unmanaged(denoms, funds) =~= Seq::<CoinView>::empty());
        assert(managed(denoms, funds).to_multiset().add(unmanaged(denoms, funds).to_multiset())
            =~= funds.to_multiset()) by {
            broadcast use vstd::seq_lib::group_to_multiset_ensures;
            broadcast use vstd::multiset::group_multiset_axioms;

        }
    } else {
        let rest = funds.drop_last();
        let x = funds.last();
        burn_partition_is_exact(denoms, rest);
        assert(rest.push(x) =~= funds);
        rest.lemma_filter_push(x, is_managed(denoms));
        rest.lemma_filter_push(x, is_unmanaged(denoms));
        to_multiset_build(rest, x);
        to_multiset_build(managed(denoms, rest), x);
        to_multiset_build(unmanaged(denoms, rest), x);
        broadcast use vstd::multiset::group_multiset_axioms;

        assert(managed(denoms, funds).to_multiset().add(unmanaged(denoms, funds).to_multiset())
            =~= funds.to_multiset());
    }
}

/// TransferAdmin of a tracked denomination stores the configuration with
/// exactly that denomination taken out and all else as it was.
pub proof fn transfer_admin_drops_tracked(
    c: ConfigView,
    sender: Seq<char>,
    i: int,
    new_admin: Seq<char>,
)
    requires
        sender == c.manager,
        c.wf(),
        0 <= i < c.denoms.len(),
    ensures
        transfer_admin_model(c, sender, c.denoms[i], new_admin) == Ok::<ResponseView, ContractError>(
            ResponseView {
                save: Some(with_denoms(c, c.denoms.remove(i))),
                messages: seq![
                    InstructionView::Token(
                        TokenMsgView::ChangeAdmin { denom: c.denoms[i], new_admin_address: new_admin },
                    ),
                ],
            },
        ),
{
    lemma_minus_one(c.denoms, i);
}

/// TransferAdmin of a denomination that is not tracked stores nothing.
pub proof fn transfer_admin_keeps_untracked(
    c: ConfigView,
    sender: Seq<char>,
    denom: Seq<char>,
    new_admin: Seq<char>,
)
    requires
        sender == c.manager,
        !c.denoms.contains(denom),
    ensures
        transfer_admin_model(c, sender, denom, new_admin) == Ok::<ResponseView, ContractError>(
            ResponseView {
                save: None,
                messages: seq![
                    InstructionView::Token(
                        TokenMsgView::ChangeAdmin { denom: denom, new_admin_address: new_admin },
                    ),
                ],
            },
        ),
{
}

/// Every configuration an operation stores holds no entry twice, given that
/// the one it started from held none twice.
pub proof fn operations_keep_config_valid(
    c: ConfigView,
    sender: Seq<char>,
    list: Seq<Seq<char>>,
    denom: Seq<char>,
    new_admin: Seq<char>,
)
    requires
        c.wf(),
    ensures
        add_whitelist_model(c, sender, list) matches Ok(r) ==> r.save matches Some(n) && n.wf(),
        remove_whitelist_model(c, sender, list) matches Ok(r) ==> r.save matches Some(n)
            && n.wf(),
        add_denom_model(c, sender, list) matches Ok(r) ==> r.save matches Some(n) && n.wf(),
        remove_denom_model(c, sender, list) matches Ok(r) ==> r.save matches Some(n) && n.wf(),
        transfer_admin_model(c, sender, denom, new_admin) matches Ok(r) ==> (r.save matches Some(
            n,
        ) ==> n.wf()),
{
    lemma_union_no_duplicates(c.allowed_mint_addresses, list);
    lemma_minus_no_duplicates(c.allowed_mint_addresses, list);
    lemma_union_no_duplicates(c.denoms, list);
    lemma_minus_no_duplicates(c.denoms, list);
    lemma_minus_no_duplicates(c.denoms, seq![denom]);
}

} // verus!
