use vstd::prelude::*;

use crate::error::ContractError;
use crate::msg::{Response, RewardsMsg};
use crate::state::{
    lemma_remove_addr_absent, lemma_remove_addr_distinct, remove_addr, OwnerSet,
};

verus! {

/// Emits one set-reward-address message aimed at `rewards_address`, once the
/// caller has been authorized against the owner set; the owner set itself is
/// never changed.
pub fn update_rewards_address(
    owners: &OwnerSet,
    sender: &String,
    sender_valid: bool,
    rewards_address: String,
) -> (r: Result<Response, ContractError>)
    ensures
        r is Ok <==> sender_valid && owners@.contains(sender@),
        !sender_valid ==> r == Err::<Response, ContractError>(ContractError::InvalidAddress),
        sender_valid && !owners@.contains(sender@) ==> r == Err::<Response, ContractError>(
            ContractError::Unauthorized,
        ),
        r is Ok ==> ({
            let resp = r->Ok_0;
            &&& resp.messages@.len() == 1
            &&& resp.messages@[0].is_update_rewards_address(rewards_address@)
            &&& resp.attributes@.len() == 1
            &&& resp.attributes@[0].is_pair("method"@, "update_rewards_address"@)
        }),
{
    if !sender_valid {
        return Err(ContractError::InvalidAddress);
    }
    if !owners.contains(sender) {
        return Err(ContractError::Unauthorized);
    }
    let mut res = Response::for_method("update_rewards_address");
    res.push_message(RewardsMsg::UpdateRewardsAddress { address: rewards_address });
    Ok(res)
}

/// Emits one withdraw-all-accrued-rewards message (a zero limit asks the
/// host for every record), once the caller has been authorized against the
/// owner set; the owner set itself is never changed.
pub fn withdraw_rewards(owners: &OwnerSet, sender: &String, sender_valid: bool) -> (r: Result<
    Response,
    ContractError,
>)
    ensures
        r is Ok <==> sender_valid && owners@.contains(sender@),
        !sender_valid ==> r == Err::<Response, ContractError>(ContractError::InvalidAddress),
        sender_valid && !owners@.contains(sender@) ==> r == Err::<Response, ContractError>(
            ContractError::Unauthorized,
        ),
        r is Ok ==> ({
            let resp = r->Ok_0;
            &&& resp.messages@.len() == 1
            &&& resp.messages@[0].is_withdraw_rewards(0)
            &&& resp.attributes@.len() == 1
            &&& resp.attributes@[0].is_pair("method"@, "withdraw_rewards"@)
        }),
{
    if !sender_valid {
        return Err(ContractError::InvalidAddress);
    }
    if !owners.contains(sender) {
        return Err(ContractError::Unauthorized);
    }
    let mut res = Response::for_method("withdraw_rewards");
    res.push_message(RewardsMsg::WithdrawRewards { limit: 0 });
    Ok(res)
}

/// Appends `new_owner` to the owner set once the caller has been authorized;
/// adding an address that is already a member succeeds and changes nothing.
pub fn add_owner(
    owners: &mut OwnerSet,
    sender: &String,
    sender_valid: bool,
    new_owner: String,
    new_owner_valid: bool,
) -> (r: Result<Response, ContractError>)
    requires
        old(owners).wf(),
    ensures
        final(owners).wf(),
        r is Ok <==> sender_valid && new_owner_valid && old(owners)@.contains(sender@),
        !(sender_valid && new_owner_valid) ==> r == Err::<Response, ContractError>(
            ContractError::InvalidAddress,
        ) && final(owners)@ == old(owners)@,
        sender_valid && new_owner_valid && !old(owners)@.contains(sender@) ==> r == Err::<
            Response,
            ContractError,
        >(ContractError::Unauthorized) && final(owners)@ == old(owners)@,
        r is Ok && old(owners)@.contains(new_owner@) ==> final(owners)@ == old(owners)@,
        r is Ok && !old(owners)@.contains(new_owner@) ==> final(owners)@ == old(owners)@.push(
            new_owner@,
        ),
        r is Ok ==> r->Ok_0.is_method_only("add_owner"@),
{
    if !sender_valid || !new_owner_valid {
        return Err(ContractError::InvalidAddress);
    }
    if !owners.contains(sender) {
        return Err(ContractError::Unauthorized);
    }
    owners.insert(new_owner);
    Ok(Response::for_method("add_owner"))
}

/// Removes every owner-set entry matching `old_owner` once the caller has
/// been authorized; removing a non-member succeeds and changes nothing, and
/// a removal that would leave the set empty is refused outright.
pub fn remove_owner(
    owners: &mut OwnerSet,
    sender: &String,
    sender_valid: bool,
    old_owner: &String,
    old_owner_valid: bool,
) -> (r: Result<Response, ContractError>)
    requires
        old(owners).wf(),
    ensures
        final(owners).wf(),
        r is Ok <==> sender_valid && old_owner_valid && old(owners)@.contains(sender@)
            && remove_addr(old(owners)@, old_owner@).len() > 0,
        !(sender_valid && old_owner_valid) ==> r == Err::<Response, ContractError>(
            ContractError::InvalidAddress,
        ) && final(owners)@ == old(owners)@,
        sender_valid && old_owner_valid && !old(owners)@.contains(sender@) ==> r == Err::<
            Response,
            ContractError,
        >(ContractError::Unauthorized) && final(owners)@ == old(owners)@,
        sender_valid && old_owner_valid && old(owners)@.contains(sender@)
            && remove_addr(old(owners)@, old_owner@).len() == 0 ==> r == Err::<
            Response,
            ContractError,
        >(ContractError::NoOwner) && final(owners)@ == old(owners)@,
        r is Ok ==> final(owners)@ == remove_addr(old(owners)@, old_owner@),
        sender_valid && old_owner_valid && old(owners)@.contains(sender@)
            && !old(owners)@.contains(old_owner@) ==> r is Ok && final(owners)@ == old(owners)@,
        r is Ok ==> r->Ok_0.is_method_only("remove_owner"@),
{
    if !sender_valid || !old_owner_valid {
        return Err(ContractError::InvalidAddress);
    }
    if !owners.contains(sender) {
        return Err(ContractError::Unauthorized);
    }
    proof {
        if !owners@.contains(old_owner@) {
            lemma_remove_addr_absent(owners@, old_owner@);
        }
        lemma_remove_addr_distinct(owners@, old_owner@);
    }
    let kept = owners.without(old_owner);
    if kept.is_empty() {
        return Err(ContractError::NoOwner);
    }
    owners.owners = kept;
    Ok(Response::for_method("remove_owner"))
}

} // verus!
