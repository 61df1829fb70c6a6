use vstd::prelude::*;

use crate::balance::{
    clone_coin, coins_view, denom_total, flat_rewards, normalize_coins, normalized,
    normalized_of, Coin, RewardsRecord,
};
use crate::msg::{OpenAuctionsResp, OutstandingRewardsResponse};
use crate::state::OpenAuctions;

verus! {

/// Returns the persisted open-auctions collection verbatim; a public read,
/// no authorization required.
pub fn open_auctions(auctions: &OpenAuctions) -> (r: OpenAuctionsResp)
    ensures
        r.auctions@ == auctions@,
{
    let records = auctions.records.clone();
    proof {
        assert(records@ =~= auctions.records@);
    }
    OpenAuctionsResp { auctions: OpenAuctions { records } }
}

/// Flattens the reward entries of all host-reported records into a single
/// balance, normalizes it through the external balance utility, and reports
/// the host's total record count (zero when the host reported none); a
/// public read, no authorization required.
pub fn outstanding_rewards(records: &Vec<RewardsRecord>, pagination_total: Option<u64>) -> (r:
    OutstandingRewardsResponse)
    requires
        forall|d: Seq<char>| denom_total(flat_rewards(records@), d) <= u128::MAX as int,
    ensures
        coins_view(r.rewards_balance@) == normalized_of(flat_rewards(records@)),
        normalized(coins_view(r.rewards_balance@)),
        forall|d: Seq<char>|
            denom_total(coins_view(r.rewards_balance@), d) == denom_total(
                flat_rewards(records@),
                d,
            ),
        r.total_records == (match pagination_total {
            Some(t) => t,
            None => 0u64,
        }),
{
    let mut coins: Vec<Coin> = Vec::new();
    let mut i: usize = 0;
    while i < records.len()
        invariant
            i <= records@.len(),
            coins_view(coins@) =~= flat_rewards(records@.take(i as int)),
        decreases records@.len() - i,
    {
        let mut j: usize = 0;
        while j < records[i].rewards.len()
            invariant
                i < records@.len(),
                j <= records@[i as int].rewards@.len(),
                coins_view(coins@) =~= flat_rewards(records@.take(i as int)) + coins_view(
                    records@[i as int].rewards@.take(j as int),
                ),
            decreases records@[i as int].rewards@.len() - j,
        {
            let ghost before = coins@;
            coins.push(clone_coin(&records[i].rewards[j]));
            proof {
                let rew = records@[i as int].rewards@;
                assert(coins_view(rew.take(j as int + 1)) =~= coins_view(rew.take(j as int)).push(
                    rew[j as int]@,
                ));
                assert(coins_view(coins@) =~= coins_view(before).push(rew[j as int]@));
            }
            j += 1;
        }
        proof {
            let t1 = records@.take(i as int + 1);
            assert(t1.drop_last() =~= records@.take(i as int));
            assert(t1.last() == records@[i as int]);
            assert(coins_view(records@[i as int].rewards@.take(
                records@[i as int].rewards@.len() as int,
            )) =~= coins_view(records@[i as int].rewards@));
            assert(flat_rewards(t1) == flat_rewards(t1.drop_last()) + coins_view(
                t1.last().rewards@,
            ));
        }
        i += 1;
    }
    proof {
        assert(records@.take(records@.len() as int) =~= records@);
    }
    let rewards_balance = normalize_coins(coins);
    let total_records: u64 = match pagination_total {
        Some(t) => t,
        None => 0,
    };
    OutstandingRewardsResponse { rewards_balance, total_records }
}

} // verus!
