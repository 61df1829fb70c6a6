use vstd::prelude::*;

use crate::balance::Coin;
use crate::state::OpenAuctions;

verus! {

/// An outbound message for the host chain to execute.
#[derive(Debug, Clone, PartialEq)]
pub enum RewardsMsg {
    /// Set the address that accrued rewards are paid out to.
    UpdateRewardsAddress { address: String },
    /// Withdraw accrued rewards; a limit of zero asks for all of them.
    WithdrawRewards { limit: u64 },
}

impl RewardsMsg {
    /// A set-reward-address message aimed at `target`.
    pub open spec fn is_update_rewards_address(&self, target: Seq<char>) -> bool {
        match *self {
            RewardsMsg::UpdateRewardsAddress { address } => address@ == target,
            _ => false,
        }
    }

    /// A withdraw-rewards message with the given limit.
    pub open spec fn is_withdraw_rewards(&self, lim: u64) -> bool {
        match *self {
            RewardsMsg::WithdrawRewards { limit } => limit == lim,
            _ => false,
        }
    }
}

/// One key/value attribute tag carried on a response, for observability.
#[derive(Debug, Clone, PartialEq)]
pub struct Attribute {
    pub key: String,
    pub value: String,
}

impl Attribute {
    /// The attribute reads `k`: `v`.
    pub open spec fn is_pair(&self, k: Seq<char>, v: Seq<char>) -> bool {
        self.key@ == k && self.value@ == v
    }
}

/// What a state-changing operation hands back to the host: the outbound
/// messages to dispatch and the attribute tags to record.
#[derive(Debug, Clone, PartialEq)]
pub struct Response {
    pub messages: Vec<RewardsMsg>,
    pub attributes: Vec<Attribute>,
}

impl Response {
    /// No outbound message, and a single `method` attribute naming the
    /// operation.
    pub open spec fn is_method_only(&self, method: Seq<char>) -> bool {
        &&& self.messages@.len() == 0
        &&& self.attributes@.len() == 1
        &&& self.attributes@[0].is_pair("method"@, method)
    }

    /// A response carrying no message and one `method` attribute.
    pub fn for_method(method: &str) -> (r: Response)
        ensures
            r.is_method_only(method@),
    {
        let mut attributes: Vec<Attribute> = Vec::new();
        attributes.push(Attribute { key: String::from_str("method"), value: String::from_str(method) });
        Response { messages: Vec::new(), attributes }
    }

    /// Append one outbound message.
    pub fn push_message(&mut self, msg: RewardsMsg)
        ensures
            final(self).messages@ == old(self).messages@.push(msg),
            final(self).attributes@ == old(self).attributes@,
    {
        self.messages.push(msg);
    }
}

/// The open or unclaimed auctions, returned verbatim.
pub struct OpenAuctionsResp {
    pub auctions: OpenAuctions,
}

/// The rewards still owed by the chain: the normalized balance and how many
/// reward records the host reported in total.
#[derive(Debug, Clone, PartialEq)]
pub struct OutstandingRewardsResponse {
    pub rewards_balance: Vec<Coin>,
    pub total_records: u64,
}

} // verus!
