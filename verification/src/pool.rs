//! The per-pool ledger and the constant-product pricing engine.
//!
//! A pool holds real reserves (backed by transferable balances) and virtual
//! reserves (accounting-only anchors fixed at creation). Swaps are priced by
//! `output = output_reserve * input / (input_reserve + input)`, with a
//! deliberate asymmetry: the virtual base reserve anchors neither direction
//! of the formula, while the virtual quote reserve anchors both. A symmetric
//! constant-product implementation would diverge from this price path.

use vstd::prelude::*;
use vstd::arithmetic::div_mod::{
    lemma_div_is_ordered, lemma_div_multiples_vanish, lemma_div_pos_is_pos,
    lemma_fundamental_div_mod, lemma_mod_bound, lemma_multiply_divide_le,
};
use vstd::arithmetic::mul::{
    lemma_mul_inequality, lemma_mul_is_commutative, lemma_mul_is_distributive_add,
    lemma_mul_upper_bound,
};
use crate::identity::AccountId;

verus! {

/// What one swap pays out: the floor of
/// `output_reserve * input_amount / (input_reserve + input_amount)`.
pub open spec fn spec_output_amount(
    input_amount: int,
    input_reserve: int,
    output_reserve: int,
) -> int {
    (output_reserve * input_amount) / (input_reserve + input_amount)
}

/// The payout is nonnegative and never exceeds the output reserve, so a swap
/// can always be settled out of the reserve it draws on.
pub proof fn lemma_output_amount_bounds(
    input_amount: int,
    input_reserve: int,
    output_reserve: int,
)
    requires
        0 <= input_amount,
        0 <= input_reserve,
        0 <= output_reserve,
        input_reserve + input_amount > 0,
    ensures
        0 <= spec_output_amount(input_amount, input_reserve, output_reserve),
        spec_output_amount(input_amount, input_reserve, output_reserve) <= output_reserve,
{
    let d = input_reserve + input_amount;
    lemma_div_pos_is_pos(output_reserve * input_amount, d);
    lemma_mul_inequality(input_amount, d, output_reserve);
    lemma_mul_is_commutative(output_reserve, input_amount);
    lemma_mul_is_commutative(d, output_reserve);
    lemma_multiply_divide_le(output_reserve * input_amount, d, output_reserve);
}

/// Pricing monotonicity: with the reserves fixed, a larger input never yields
/// a smaller payout.
pub proof fn lemma_output_amount_monotone(
    amount1: int,
    amount2: int,
    input_reserve: int,
    output_reserve: int,
)
    requires
        0 <= amount1 <= amount2,
        0 <= input_reserve,
        0 <= output_reserve,
        input_reserve + amount1 > 0,
    ensures
        spec_output_amount(amount1, input_reserve, output_reserve)
            <= spec_output_amount(amount2, input_reserve, output_reserve),
{
    let d1 = input_reserve + amount1;
    let d2 = input_reserve + amount2;
    let q1 = (output_reserve * amount1) / d1;
    lemma_output_amount_bounds(amount1, input_reserve, output_reserve);
    // d1 * q1 <= output_reserve * amount1, by the division identity.
    lemma_fundamental_div_mod(output_reserve * amount1, d1);
    lemma_mod_bound(output_reserve * amount1, d1);
    // q1 * d2 == q1 * d1 + q1 * (amount2 - amount1)
    lemma_mul_is_distributive_add(q1, d1, amount2 - amount1);
    lemma_mul_is_commutative(q1, d1);
    // q1 * (amount2 - amount1) <= output_reserve * (amount2 - amount1)
    lemma_mul_inequality(q1, output_reserve, amount2 - amount1);
    lemma_mul_is_commutative(q1, amount2 - amount1);
    lemma_mul_is_commutative(output_reserve, amount2 - amount1);
    // output_reserve * amount1 + output_reserve * (amount2 - amount1)
    //     == output_reserve * amount2
    lemma_mul_is_distributive_add(output_reserve, amount1, amount2 - amount1);
    assert(q1 * d2 <= output_reserve * amount2);
    // q1 <= (output_reserve * amount2) / d2
    lemma_mul_is_commutative(d2, q1);
    lemma_div_multiples_vanish(q1, d2);
    lemma_div_is_ordered(d2 * q1, output_reserve * amount2, d2);
}

/// Floor of `output_reserve * input_amount / (input_reserve + input_amount)`,
/// computed in 128-bit intermediates so the 64-bit factors cannot overflow.
pub fn calculate_output_amount(input_amount: u64, input_reserve: u64, output_reserve: u64) -> (r:
    u64)
    requires
        input_reserve + input_amount > 0,
    ensures
        r == spec_output_amount(input_amount as int, input_reserve as int, output_reserve as int),
        r <= output_reserve,
{
    proof {
        lemma_mul_upper_bound(
            output_reserve as int,
            u64::MAX as int,
            input_amount as int,
            u64::MAX as int,
        );
        lemma_output_amount_bounds(
            input_amount as int,
            input_reserve as int,
            output_reserve as int,
        );
    }
    let wide: u128 = (output_reserve as u128) * (input_amount as u128);
    let denominator: u128 = (input_reserve as u128) + (input_amount as u128);
    let output_amount: u128 = wide / denominator;
    output_amount as u64
}

/// The ledger of one pool: one record per (base asset, quote asset) pair.
#[derive(Clone, Copy, Debug, PartialEq, Eq, Structural)]
pub struct PoolState {
    /// The pool's creator; informational only.
    pub owner: AccountId,
    /// `real_base_reserves * (virt_quote_reserves + real_quote_reserves)` at
    /// creation time; documentary, never re-validated after a trade.
    pub konst: u128,
    /// The base asset traded out of this pool.
    pub base_mint: AccountId,
    /// Accounting-only base balance, fixed at creation, never traded.
    pub virt_base_reserves: u64,
    /// Base balance actually available to be paid out to buyers.
    pub real_base_reserves: u64,
    /// The quote asset this pool collects; always the native asset.
    pub quote_mint: AccountId,
    /// Accounting-only quote anchor, fixed at creation, never traded.
    pub virt_quote_reserves: u64,
    /// Quote balance actually collected from buyers / paid to sellers.
    pub real_quote_reserves: u64,
    /// False while the pool is active; true once it has graduated.
    pub complete: bool,
}

impl PoolState {
    /// Total quote reserve anchoring the curve: virtual plus real.
    pub open spec fn spec_total_quote_reserves(self) -> int {
        self.virt_quote_reserves + self.real_quote_reserves
    }

    /// Prices a buy: pays base out against `quote_amount` paid in. The quote
    /// input is added to the real quote reserves and the base payout is taken
    /// from the real base reserves; virtual reserves never move.
    pub fn compute_receivable_amount_on_buy(&mut self, quote_amount: u64) -> (base_amount: u64)
        requires
            old(self).virt_quote_reserves + old(self).real_quote_reserves + quote_amount
                <= u64::MAX,
            old(self).virt_quote_reserves + old(self).real_quote_reserves + quote_amount > 0,
        ensures
            base_amount == spec_output_amount(
                quote_amount as int,
                old(self).spec_total_quote_reserves(),
                old(self).real_base_reserves as int,
            ),
            base_amount <= old(self).real_base_reserves,
            final(self).real_base_reserves == old(self).real_base_reserves - base_amount,
            final(self).real_quote_reserves == old(self).real_quote_reserves + quote_amount,
            final(self).owner == old(self).owner,
            final(self).konst == old(self).konst,
            final(self).base_mint == old(self).base_mint,
            final(self).quote_mint == old(self).quote_mint,
            final(self).virt_base_reserves == old(self).virt_base_reserves,
            final(self).virt_quote_reserves == old(self).virt_quote_reserves,
            final(self).complete == old(self).complete,
    {
        let input_reserve: u64 = self.virt_quote_reserves + self.real_quote_reserves;
        let base_amount: u64 = calculate_output_amount(
            quote_amount,
            input_reserve,
            self.real_base_reserves,
        );
        self.real_base_reserves = self.real_base_reserves - base_amount;
        self.real_quote_reserves = self.real_quote_reserves + quote_amount;
        base_amount
    }

    /// Prices a sell: pays quote out against `base_amount` paid in. The base
    /// input is added to the real base reserves and the quote payout is taken
    /// from the real quote reserves; virtual reserves never move. The payout
    /// is bounded by the total (virtual plus real) quote reserve, so the real
    /// quote reserve alone must be able to cover it.
    pub fn compute_receivable_amount_on_sell(&mut self, base_amount: u64) -> (quote_amount: u64)
        requires
            old(self).virt_quote_reserves + old(self).real_quote_reserves <= u64::MAX,
            old(self).real_base_reserves + base_amount <= u64::MAX,
            old(self).real_base_reserves + base_amount > 0,
            spec_output_amount(
                base_amount as int,
                old(self).real_base_reserves as int,
                old(self).spec_total_quote_reserves(),
            ) <= old(self).real_quote_reserves,
        ensures
            quote_amount == spec_output_amount(
                base_amount as int,
                old(self).real_base_reserves as int,
                old(self).spec_total_quote_reserves(),
            ),
            quote_amount <= old(self).real_quote_reserves,
            final(self).real_base_reserves == old(self).real_base_reserves + base_amount,
            final(self).real_quote_reserves == old(self).real_quote_reserves - quote_amount,
            final(self).owner == old(self).owner,
            final(self).konst == old(self).konst,
            final(self).base_mint == old(self).base_mint,
            final(self).quote_mint == old(self).quote_mint,
            final(self).virt_base_reserves == old(self).virt_base_reserves,
            final(self).virt_quote_reserves == old(self).virt_quote_reserves,
            final(self).complete == old(self).complete,
    {
        let output_reserve: u64 = self.virt_quote_reserves + self.real_quote_reserves;
        let quote_amount: u64 = calculate_output_amount(
            base_amount,
            self.real_base_reserves,
            output_reserve,
        );
        self.real_base_reserves = self.real_base_reserves + base_amount;
        self.real_quote_reserves = self.real_quote_reserves - quote_amount;
        quote_amount
    }
}

} // verus!
