//! Properties of the pallet that span its calls.

use vstd::prelude::*;
use crate::fixed::{
    lemma_permill_bounded, lemma_permill_mul_bounded, lemma_permill_mul_rounding, Permill,
    PERMILL_ACCURACY,
};
use crate::fixed::{checked_rational_mul_div, FIXED_ACCURACY};
use crate::pallet::{
    adjusted_total, less_max_reward, liquid_after_reward_spec, liquid_to_mint_spec, mint_check, saturating_add_balance,
    staking_exchange_rate, Amount, ArithmeticError, Balance, DispatchError, Error, Pallet,
};

verus! {

/// An adjustment moves the total by exactly the given difference: it succeeds where the
/// adjusted total is a `Balance`, and otherwise overflows (for a positive difference) or
/// underflows.
pub proof fn law_adjust_by_difference(total: Balance, by: Amount)
    ensures
        0 <= total + by <= u128::MAX ==> adjusted_total(total, by) == Ok::<Balance, DispatchError>(
            (total + by) as u128,
        ),
        total + by > u128::MAX ==> adjusted_total(total, by) == Err::<Balance, DispatchError>(
            DispatchError::Arithmetic(ArithmeticError::Overflow),
        ),
        total + by < 0 ==> adjusted_total(total, by) == Err::<Balance, DispatchError>(
            DispatchError::Arithmetic(ArithmeticError::Underflow),
        ),
{
}

/// An adjustment that succeeds is undone by the adjustment by the negated amount.
pub proof fn law_adjust_round_trip(total: Balance, by: Amount)
    requires
        by != i128::MIN,
        adjusted_total(total, by) is Ok,
    ensures
        adjusted_total(adjusted_total(total, by)->Ok_0, (-by) as i128) == Ok::<
            Balance,
            DispatchError,
        >(total),
{
}

/// Two adjustments that succeed amount to one adjustment by their sum, where that sum
/// is an `Amount`.
pub proof fn law_adjust_composes(total: Balance, a: Amount, b: Amount)
    requires
        adjusted_total(total, a) is Ok,
        adjusted_total(adjusted_total(total, a)->Ok_0, b) is Ok,
        i128::MIN <= a + b <= i128::MAX,
    ensures
        adjusted_total(total, (a + b) as i128) == adjusted_total(adjusted_total(total, a)->Ok_0, b),
{
}

/// An adjustment by zero leaves the total as it is.
pub proof fn law_adjust_by_zero(total: Balance)
    ensures
        adjusted_total(total, 0) == Ok::<Balance, DispatchError>(total),
{
}

/// A mint that passes its checks adds exactly its amount to the total of staking
/// currency, keeps that total within the mint cap, and is above the minimum threshold
/// plus the mint fee.
pub proof fn law_mint_within_cap(pallet: Pallet, amount: Balance)
    requires
        mint_check(pallet, amount) is Ok,
    ensures
        mint_check(pallet, amount)->Ok_0 == pallet.total_staking_currency + amount,
        mint_check(pallet, amount)->Ok_0 <= pallet.staking_currency_mint_cap,
        amount > saturating_add_balance(pallet.config.minimum_mint_threshold, pallet.config.mint_fee),
        amount > pallet.config.mint_fee,
{
}

/// A mint above the threshold whose new total fits but exceeds the cap is refused with
/// `ExceededStakingCurrencyMintCap`.
pub proof fn law_mint_refused_over_cap(pallet: Pallet, amount: Balance)
    requires
        amount > saturating_add_balance(pallet.config.minimum_mint_threshold, pallet.config.mint_fee),
        pallet.total_staking_currency + amount <= u128::MAX,
        pallet.total_staking_currency + amount > pallet.staking_currency_mint_cap,
    ensures
        mint_check(pallet, amount) == Err::<Balance, DispatchError>(
            DispatchError::Module(Error::ExceededStakingCurrencyMintCap),
        ),
{
}

/// The deduction of the maximum reward per era keeps the minted amount between zero and
/// what it was: nothing is deducted at zero, everything at one whole.
pub proof fn law_reward_deduction_bounded(m: Balance, max_reward: Permill)
    ensures
        0 <= less_max_reward(m as int, max_reward) <= m,
        max_reward.spec_parts() == 0 ==> less_max_reward(m as int, max_reward) == m,
        max_reward.spec_parts() == PERMILL_ACCURACY ==> less_max_reward(m as int, max_reward) == 0,
{
    lemma_permill_bounded(max_reward);
    let p = max_reward.spec_parts() as int;
    lemma_permill_mul_bounded(p, m as int);
    if p == 0 {
        assert((m as int) * 0 == 0);
    }
    if p == PERMILL_ACCURACY {
        assert((m as int) * 1_000_000 % 1_000_000 == 0 && (m as int) * 1_000_000 / 1_000_000 == m)
            by (nonlinear_arith);
    }
}

/// The maximum reward per era is deducted as a fraction of the minted amount: for every
/// minted amount `m` and every fraction `p` (in parts per million), the liquid amount `l`
/// is at most `m`, and the deduction `m - l` is `m * p / 10^6` rounded to the nearest
/// integer (an exact half rounding down). A minted amount that overflowed is an error.
pub proof fn law_reward_is_rounded_fraction(minted: Option<Balance>, max_reward: Permill)
    ensures
        minted is None ==> liquid_after_reward_spec(minted, max_reward) == Err::<Balance, DispatchError>(
            DispatchError::Arithmetic(ArithmeticError::Overflow),
        ),
        minted matches Some(m) ==> liquid_after_reward_spec(minted, max_reward) matches Ok(l) && l <= m
            && -500_000 < m * max_reward.spec_parts() - (m - l) * 1_000_000 <= 500_000,
{
    lemma_permill_bounded(max_reward);
    if let Some(m) = minted {
        lemma_permill_mul_bounded(max_reward.spec_parts() as int, m as int);
        lemma_permill_mul_rounding(max_reward.spec_parts() as int, m as int);
    }
}

/// A mint that passes its checks goes on without panicking: the staking amount is above
/// the mint fee, and the amount to mint is either an overflow error, exactly where the
/// staking amount less the fee times the exchange rate does not fit, or that product less
/// the maximum reward, which is never more than the product and is the product times the
/// reward fraction, rounded to the nearest integer.
pub proof fn law_mint_outcomes(pallet: Pallet, amount: Balance, liquid_total: Balance)
    requires
        mint_check(pallet, amount) is Ok,
    ensures
        amount > pallet.config.mint_fee,
        ({
            let rate = staking_exchange_rate(
                liquid_total,
                pallet.total_staking_currency,
                pallet.config.default_exchange_rate,
            );
            let product = checked_rational_mul_div(
                rate.inner as int,
                (amount - pallet.config.mint_fee) as int,
                FIXED_ACCURACY as int,
            );
            match liquid_to_mint_spec(pallet, amount, liquid_total) {
                Err(e) => e == DispatchError::Arithmetic(ArithmeticError::Overflow) && product is None,
                Ok(l) => product matches Some(m) && l <= m && -500_000 < m
                    * pallet.config.max_reward_per_era.spec_parts() - (m - l) * 1_000_000 <= 500_000,
            }
        }),
{
    let rate = staking_exchange_rate(
        liquid_total,
        pallet.total_staking_currency,
        pallet.config.default_exchange_rate,
    );
    let product = checked_rational_mul_div(
        rate.inner as int,
        (amount - pallet.config.mint_fee) as int,
        FIXED_ACCURACY as int,
    );
    lemma_permill_bounded(pallet.config.max_reward_per_era);
    if let Some(m) = product {
        lemma_permill_mul_bounded(pallet.config.max_reward_per_era.spec_parts() as int, m as int);
        lemma_permill_mul_rounding(pallet.config.max_reward_per_era.spec_parts() as int, m as int);
    }
}

} // verus!
