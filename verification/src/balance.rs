use vstd::prelude::*;

verus! {

/// A coin: an amount of one denomination.
#[derive(Debug, Clone, PartialEq)]
pub struct Coin {
    pub denom: String,
    pub amount: u128,
}

impl View for Coin {
    type V = (Seq<char>, u128);

    open spec fn view(&self) -> (Seq<char>, u128) {
        (self.denom@, self.amount)
    }
}

/// One rewards record as reported by the host: the coins it carries.
#[derive(Debug, Clone, PartialEq)]
pub struct RewardsRecord {
    pub rewards: Vec<Coin>,
}

/// The coins of a coin vector, each as a denomination/amount pair.
pub open spec fn coins_view(v: Seq<Coin>) -> Seq<(Seq<char>, u128)> {
    Seq::new(v.len(), |i: int| v[i]@)
}

/// The total amount carried for denomination `d`.
pub open spec fn denom_total(s: Seq<(Seq<char>, u128)>, d: Seq<char>) -> int
    decreases s.len(),
{
    if s.len() == 0 {
        0
    } else {
        denom_total(s.drop_last(), d) + if s.last().0 == d {
            s.last().1 as int
        } else {
            0
        }
    }
}

/// No entry of amount zero, and no denomination listed twice.
pub open spec fn normalized(s: Seq<(Seq<char>, u128)>) -> bool {
    &&& forall|i: int| 0 <= i < s.len() ==> s[i].1 != 0
    &&& forall|i: int, j: int| 0 <= i < j < s.len() ==> s[i].0 != s[j].0
}

/// All reward coins of all records, flattened in order.
pub open spec fn flat_rewards(rs: Seq<RewardsRecord>) -> Seq<(Seq<char>, u128)>
    decreases rs.len(),
{
    if rs.len() == 0 {
        Seq::empty()
    } else {
        flat_rewards(rs.drop_last()) + coins_view(rs.last().rewards@)
    }
}

/// What the external balance utility returns for a list of coins: the same
/// balance with equal denominations merged and zero amounts dropped; it
/// depends on the coins alone.
pub uninterp spec fn normalized_of(s: Seq<(Seq<char>, u128)>) -> Seq<(Seq<char>, u128)>;

/// Relies on cw_utils::NativeBalance::normalize: it drops zero amounts,
/// reorders the coins, and merges entries of equal denomination by adding
/// their amounts, so every per-denomination total is kept; the result
/// depends on the coins alone. Its additions panic on overflow, which the
/// precondition rules out.
#[verifier::external_body]
pub(crate) fn normalize_coins(coins: Vec<Coin>) -> (r: Vec<Coin>)
    requires
        forall|d: Seq<char>| denom_total(coins_view(coins@), d) <= u128::MAX as int,
    ensures
        coins_view(r@) == normalized_of(coins_view(coins@)),
        normalized(coins_view(r@)),
        forall|d: Seq<char>|
            denom_total(coins_view(r@), d) == denom_total(coins_view(coins@), d),
{
    let native: Vec<cosmwasm_std::Coin> = coins
        .into_iter()
        .map(|c| cosmwasm_std::Coin { denom: c.denom, amount: cosmwasm_std::Uint128::new(c.amount) })
        .collect();
    let mut bal = cw_utils::NativeBalance(native);
    bal.normalize();
    bal.into_vec()
        .into_iter()
        .map(|c| Coin { denom: c.denom, amount: c.amount.u128() })
        .collect()
}

/// A field-for-field copy of one coin.
pub fn clone_coin(c: &Coin) -> (r: Coin)
    ensures
        r@ == c@,
{
    Coin { denom: c.denom.clone(), amount: c.amount }
}

} // verus!
