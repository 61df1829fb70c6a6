use vstd::prelude::*;

use crate::error::ContractError;
use crate::msg::{Attribute, Response};
use crate::state::{OpenAuctions, OwnerSet};

verus! {

/// Establishes the seed state of the contract: the validated deploying
/// address becomes the only owner, and the open-auctions collection starts
/// empty. Recording the module's name/version tag for upgrade checks is a
/// host-side storage effect outside this core.
pub fn instantiate(deployer: String, deployer_valid: bool) -> (r: Result<
    (OwnerSet, OpenAuctions, Response),
    ContractError,
>)
    ensures
        r is Ok <==> deployer_valid,
        !deployer_valid ==> r == Err::<(OwnerSet, OpenAuctions, Response), ContractError>(
            ContractError::InvalidAddress,
        ),
        r is Ok ==> r->Ok_0.0@ =~= seq![deployer@],
        r is Ok ==> r->Ok_0.0.wf(),
        r is Ok ==> r->Ok_0.1@ == Seq::<u64>::empty(),
        r is Ok ==> ({
            let resp = r->Ok_0.2;
            &&& resp.messages@.len() == 0
            &&& resp.attributes@.len() == 2
            &&& resp.attributes@[0].is_pair("action"@, "Instantiating Action House"@)
            &&& resp.attributes@[1].is_pair("Owner"@, deployer@)
        }),
{
    if !deployer_valid {
        return Err(ContractError::InvalidAddress);
    }
    let owner_tag = deployer.clone();
    let owners = OwnerSet::with_first_owner(deployer);
    let auctions = OpenAuctions::empty();
    let mut attributes: Vec<Attribute> = Vec::new();
    attributes.push(
        Attribute {
            key: String::from_str("action"),
            value: String::from_str("Instantiating Action House"),
        },
    );
    attributes.push(Attribute { key: String::from_str("Owner"), value: owner_tag });
    let resp = Response { messages: Vec::new(), attributes };
    Ok((owners, auctions, resp))
}

} // verus!
