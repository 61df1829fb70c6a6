use auction_house::balance::{Coin, RewardsRecord};
use auction_house::contract::instantiate;
use auction_house::error::ContractError;
use auction_house::exec::{add_owner, remove_owner, update_rewards_address, withdraw_rewards};
use auction_house::msg::RewardsMsg;
use auction_house::query::{open_auctions, outstanding_rewards};
use auction_house::state::{OpenAuctions, OwnerSet};

fn owner_names(set: &OwnerSet) -> Vec<String> {
    set.owners.clone()
}

fn seeded(deployer: &str) -> (OwnerSet, OpenAuctions) {
    let (owners, auctions, _resp) = instantiate(deployer.to_string(), true).unwrap();
    (owners, auctions)
}

#[test]
fn instantiate_seeds_single_owner_and_empty_auctions() {
    let (owners, auctions, resp) = instantiate("deployer".to_string(), true).unwrap();
    assert_eq!(owner_names(&owners), vec!["deployer".to_string()]);
    assert!(auctions.records.is_empty());
    assert!(resp.messages.is_empty());
    assert_eq!(resp.attributes.len(), 2);
    assert_eq!(resp.attributes[0].key, "action");
    assert_eq!(resp.attributes[0].value, "Instantiating Action House");
    assert_eq!(resp.attributes[1].key, "Owner");
    assert_eq!(resp.attributes[1].value, "deployer");
}

#[test]
fn instantiate_rejects_invalid_deployer() {
    let r = instantiate("not an address".to_string(), false);
    assert_eq!(r.unwrap_err(), ContractError::InvalidAddress);
}

#[test]
fn add_owner_appends_new_member() {
    let (mut owners, _) = seeded("d");
    let resp = add_owner(&mut owners, &"d".to_string(), true, "a".to_string(), true).unwrap();
    assert_eq!(owner_names(&owners), vec!["d".to_string(), "a".to_string()]);
    assert!(resp.messages.is_empty());
    assert_eq!(resp.attributes.len(), 1);
    assert_eq!(resp.attributes[0].key, "method");
    assert_eq!(resp.attributes[0].value, "add_owner");
}

#[test]
fn add_owner_is_idempotent() {
    let (mut owners, _) = seeded("d");
    add_owner(&mut owners, &"d".to_string(), true, "a".to_string(), true).unwrap();
    let before = owner_names(&owners);
    let r = add_owner(&mut owners, &"d".to_string(), true, "a".to_string(), true);
    assert!(r.is_ok());
    assert_eq!(owner_names(&owners), before);
}

#[test]
fn add_owner_rejects_invalid_addresses() {
    let (mut owners, _) = seeded("d");
    let r = add_owner(&mut owners, &"d".to_string(), false, "a".to_string(), true);
    assert_eq!(r.unwrap_err(), ContractError::InvalidAddress);
    let r = add_owner(&mut owners, &"d".to_string(), true, "??".to_string(), false);
    assert_eq!(r.unwrap_err(), ContractError::InvalidAddress);
    assert_eq!(owner_names(&owners), vec!["d".to_string()]);
}

#[test]
fn unauthorized_caller_changes_nothing_anywhere() {
    let (mut owners, _) = seeded("d");
    let intruder = "mallory".to_string();

    let r = add_owner(&mut owners, &intruder, true, "a".to_string(), true);
    assert_eq!(r.unwrap_err(), ContractError::Unauthorized);
    assert_eq!(owner_names(&owners), vec!["d".to_string()]);

    let r = remove_owner(&mut owners, &intruder, true, &"d".to_string(), true);
    assert_eq!(r.unwrap_err(), ContractError::Unauthorized);
    assert_eq!(owner_names(&owners), vec!["d".to_string()]);

    let r = update_rewards_address(&owners, &intruder, true, "r".to_string());
    assert_eq!(r.unwrap_err(), ContractError::Unauthorized);

    let r = withdraw_rewards(&owners, &intruder, true);
    assert_eq!(r.unwrap_err(), ContractError::Unauthorized);
}

#[test]
fn remove_owner_of_non_member_is_a_no_op() {
    let (mut owners, _) = seeded("d");
    add_owner(&mut owners, &"d".to_string(), true, "a".to_string(), true).unwrap();
    let before = owner_names(&owners);
    let r = remove_owner(&mut owners, &"d".to_string(), true, &"ghost-owner".to_string(), true);
    assert!(r.is_ok());
    assert_eq!(owner_names(&owners), before);
}

#[test]
fn remove_owner_refuses_to_empty_the_set() {
    let (mut owners, _) = seeded("d");
    let r = remove_owner(&mut owners, &"d".to_string(), true, &"d".to_string(), true);
    assert_eq!(r.unwrap_err(), ContractError::NoOwner);
    assert_eq!(owner_names(&owners), vec!["d".to_string()]);
}

#[test]
fn owner_set_stays_non_empty_across_mutations() {
    let (mut owners, _) = seeded("d");
    add_owner(&mut owners, &"d".to_string(), true, "a".to_string(), true).unwrap();
    add_owner(&mut owners, &"a".to_string(), true, "b".to_string(), true).unwrap();
    remove_owner(&mut owners, &"b".to_string(), true, &"a".to_string(), true).unwrap();
    remove_owner(&mut owners, &"b".to_string(), true, &"d".to_string(), true).unwrap();
    let r = remove_owner(&mut owners, &"b".to_string(), true, &"b".to_string(), true);
    assert_eq!(r.unwrap_err(), ContractError::NoOwner);
    assert!(!owners.owners.is_empty());
    assert_eq!(owner_names(&owners), vec!["b".to_string()]);
}

#[test]
fn ownership_handover_scenario() {
    let (mut owners, _) = seeded("D");
    let resp = add_owner(&mut owners, &"D".to_string(), true, "A".to_string(), true).unwrap();
    assert!(resp.messages.is_empty());
    assert_eq!(owner_names(&owners), vec!["D".to_string(), "A".to_string()]);

    // A is a member by now, so A may remove D.
    let r = remove_owner(&mut owners, &"A".to_string(), true, &"D".to_string(), true);
    assert!(r.is_ok());
    assert_eq!(owner_names(&owners), vec!["A".to_string()]);

    // Removing the last owner is refused and changes nothing.
    let r = remove_owner(&mut owners, &"A".to_string(), true, &"A".to_string(), true);
    assert_eq!(r.unwrap_err(), ContractError::NoOwner);
    assert_eq!(owner_names(&owners), vec!["A".to_string()]);
}

#[test]
fn update_rewards_address_emits_one_message() {
    let (owners, _) = seeded("D");
    let resp = update_rewards_address(&owners, &"D".to_string(), true, "R".to_string()).unwrap();
    assert_eq!(
        resp.messages,
        vec![RewardsMsg::UpdateRewardsAddress { address: "R".to_string() }]
    );
    assert_eq!(resp.attributes.len(), 1);
    assert_eq!(resp.attributes[0].key, "method");
    assert_eq!(resp.attributes[0].value, "update_rewards_address");
    // The owner set is untouched.
    assert_eq!(owner_names(&owners), vec!["D".to_string()]);
}

#[test]
fn withdraw_rewards_emits_one_unbounded_message() {
    let (owners, _) = seeded("D");
    let resp = withdraw_rewards(&owners, &"D".to_string(), true).unwrap();
    assert_eq!(resp.messages, vec![RewardsMsg::WithdrawRewards { limit: 0 }]);
    assert_eq!(resp.attributes.len(), 1);
    assert_eq!(resp.attributes[0].key, "method");
    assert_eq!(resp.attributes[0].value, "withdraw_rewards");
}

#[test]
fn open_auctions_returns_collection_verbatim() {
    let auctions = OpenAuctions { records: vec![7, 3, 7] };
    let resp = open_auctions(&auctions);
    assert_eq!(resp.auctions.records, vec![7, 3, 7]);
}

#[test]
fn outstanding_rewards_merges_denominations() {
    let records = vec![
        RewardsRecord { rewards: vec![Coin { denom: "uarch".to_string(), amount: 5 }] },
        RewardsRecord { rewards: vec![Coin { denom: "uarch".to_string(), amount: 3 }] },
    ];
    let resp = outstanding_rewards(&records, Some(2));
    assert_eq!(resp.rewards_balance, vec![Coin { denom: "uarch".to_string(), amount: 8 }]);
    assert_eq!(resp.total_records, 2);
}

#[test]
fn outstanding_rewards_drops_zero_amounts_and_sorts() {
    let records = vec![RewardsRecord {
        rewards: vec![
            Coin { denom: "uarch".to_string(), amount: 123 },
            Coin { denom: "aarch".to_string(), amount: 0 },
            Coin { denom: "barch".to_string(), amount: 9 },
        ],
    }];
    let resp = outstanding_rewards(&records, Some(1));
    assert_eq!(
        resp.rewards_balance,
        vec![
            Coin { denom: "barch".to_string(), amount: 9 },
            Coin { denom: "uarch".to_string(), amount: 123 },
        ]
    );
    assert_eq!(resp.total_records, 1);
}

#[test]
fn outstanding_rewards_with_no_records_is_empty() {
    let records: Vec<RewardsRecord> = Vec::new();
    let resp = outstanding_rewards(&records, None);
    assert!(resp.rewards_balance.is_empty());
    assert_eq!(resp.total_records, 0);
}
