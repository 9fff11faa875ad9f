//! The engine's global guarantees, stated and proved once over the spec
//! functions that every operation's contract is written in.

use crate::helper::CAL_BASE;
use crate::helper::ERA_RATES_LEN_LIMIT;
use crate::states::spec_lsd_amount;
use crate::states::spec_rate_change;
use crate::states::spec_staking_amount;
use crate::states::EraRate;
use vstd::arithmetic::div_mod::lemma_div_pos_is_pos;
use vstd::arithmetic::div_mod::lemma_fundamental_div_mod;
use vstd::arithmetic::div_mod::lemma_mod_pos_bound;
use vstd::prelude::*;

verus! {

/// Round-trip guarantee: staking `amount` mints
/// `spec_lsd_amount(amount, rate)` derivative tokens, and redeeming exactly
/// those tokens at the same rate (no reward accrued in between) is owed
/// `spec_staking_amount` of them back — never more than `amount`, and short
/// of it by at most one rate unit (`rate / CAL_BASE`, rounded up), the loss
/// fixed-point truncation can cost.
pub proof fn lemma_stake_unstake_round_trip(amount: u64, rate: u64)
    requires
        rate > 0,
    ensures
        spec_staking_amount(spec_lsd_amount(amount as int, rate as int), rate as int) <= amount,
        amount - spec_staking_amount(spec_lsd_amount(amount as int, rate as int), rate as int)
            <= (rate + CAL_BASE - 1) / (CAL_BASE as int),
{
    let b = CAL_BASE as int;
    let a = amount as int;
    let r = rate as int;
    let d = a * b;
    let l = d / r;
    lemma_fundamental_div_mod(d, r);
    lemma_mod_pos_bound(d, r);
    lemma_div_pos_is_pos(d, r);
    assert(l * r == r * l && l * r >= 0) by (nonlinear_arith)
        requires
            l >= 0,
            r > 0,
    ;
    let p = l * r;
    let s = p / b;
    lemma_fundamental_div_mod(p, b);
    lemma_mod_pos_bound(p, b);
    lemma_div_pos_is_pos(p, b);
    // b * s lies within (a*b - r - b, a*b], so s <= a and a - s is at most
    // (r + b - 2) / b, which the stated ceiling bound covers.
    let c = (r + b - 1) / b;
    lemma_fundamental_div_mod(r + b - 1, b);
    lemma_mod_pos_bound(r + b - 1, b);
    assert(spec_lsd_amount(a, r) == l);
    assert(spec_staking_amount(l, r) == s);
}

/// The exchange rate stays positive. Reconcile-active rejects a computed
/// zero rate outright (its contract guarantees a positive committed rate
/// under every configuration), and every other operation leaves the rate
/// untouched, as its contract states. This lemma shows the rate-change
/// limit is a second, independent line of defense: whenever a limit below
/// `CAL_BASE` (100%) is configured, any new rate whose change from a
/// positive old rate passes the limit check is itself positive — a rate of
/// zero would be a full-magnitude change, above any such limit.
pub proof fn lemma_rate_stays_positive(old_rate: u64, new_rate: u64, rate_change_limit: u64)
    requires
        old_rate > 0,
        0 < rate_change_limit < CAL_BASE,
        spec_rate_change(old_rate as int, new_rate as int) <= rate_change_limit,
    ensures
        new_rate > 0,
{
    let b = CAL_BASE as int;
    let r = old_rate as int;
    if new_rate == 0 {
        assert(spec_rate_change(r, 0) == r * b / r);
        assert(r * b / r == b) by (nonlinear_arith)
            requires
                r > 0,
                b > 0,
        ;
    }
}

/// Eviction order of the rate history: pushing onto a full history and
/// removing the front — what reconcile-active commits — keeps the bound,
/// appends the new observation at the back, and shifts every remaining
/// observation down by one, so the oldest entry is the one that leaves.
pub proof fn lemma_era_rates_evict_oldest(history: Seq<EraRate>, entry: EraRate)
    requires
        history.len() == ERA_RATES_LEN_LIMIT,
    ensures
        history.push(entry).remove(0).len() == ERA_RATES_LEN_LIMIT,
        history.push(entry).remove(0).last() == entry,
        forall|i: int|
            0 <= i < history.len() - 1 ==> history.push(entry).remove(0)[i] == history[i + 1],
{
    let updated = history.push(entry).remove(0);
    assert(updated.len() == ERA_RATES_LEN_LIMIT);
    assert(updated.last() == entry);
}

} // verus!
