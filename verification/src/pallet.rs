//! The Homa Lite pallet: its storage, its errors and events, and its calls.
//!
//! The pallet's storage is held by `Pallet`; the constants that a runtime
//! configures are held by `Config`. A mint talks to the currencies and to the
//! relay chain between its decisions; those steps are taken by the caller, and
//! the decisions around them are the three verified steps `mint_begin`,
//! `mint_quote` and `mint_finish`.

use vstd::prelude::*;
use crate::fixed::{
    checked_rational_mul_div, lemma_rational_mul_div_bounds, mul_div_floor, permill_mul_spec,
    ExchangeRate, Permill, FIXED_ACCURACY,
};

verus! {

/// An amount of a currency.
pub type Balance = u128;

/// A signed amount of a currency.
pub type Amount = i128;

/// The weight of a call.
pub type Weight = u64;

/// The origin of a call.
#[derive(Clone, Copy, Debug, PartialEq, Eq)]
pub enum Origin<A> {
    /// The root origin.
    Root,
    /// A call signed by an account.
    Signed(A),
    /// An unsigned call (`RawOrigin::None`).
    Unsigned,
}

/// The errors of the pallet itself.
#[derive(Clone, Copy, Debug, PartialEq, Eq, Structural)]
pub enum Error {
    /// The total amount for the Staking currency must be more than zero.
    InvalidTotalStakingCurrency,
    /// The mint amount is below the minimum threshold allowed.
    MintAmountBelowMinimumThreshold,
    /// The amount of Staking currency used has exceeded the cap allowed.
    ExceededStakingCurrencyMintCap,
}

/// Arithmetic errors that a call reports.
#[derive(Clone, Copy, Debug, PartialEq, Eq, Structural)]
pub enum ArithmeticError {
    Underflow,
    Overflow,
    DivisionByZero,
}

/// Why a call failed.
#[derive(Clone, Copy, Debug, PartialEq, Eq, Structural)]
pub enum DispatchError {
    /// The call's origin is not allowed to make it.
    BadOrigin,
    /// An arithmetic operation failed.
    Arithmetic(ArithmeticError),
    /// One of the pallet's own errors.
    Module(Error),
}

/// The events that the pallet deposits.
#[derive(Clone, Copy, Debug, PartialEq, Eq)]
pub enum Event<A> {
    /// The user has requested some Staking currency to be used to mint Liquid Currency.
    /// \[user, amount_staked, amount_minted\]
    Minted(A, Balance, Balance),
    /// The total amount of the staking currency on the relaychain has been
    /// set.\[total_staking_currency\]
    TotalStakingCurrencySet(Balance),
    /// The mint cap for Staking currency is updated.\[new_cap\]
    StakingCurrencyMintCapUpdated(Balance),
    /// A new weight for XCM transfers has been set.\[new_weight\]
    XcmDestWeightSet(Weight),
}

/// The constants that a runtime configures the pallet with.
#[derive(Clone, Copy, Debug)]
pub struct Config {
    /// The minimal amount of Staking currency to be locked.
    pub minimum_mint_threshold: Balance,
    /// The fixed cost of transaction fee for XCM transfers.
    pub mint_fee: Balance,
    /// The maximum rewards that are earned on the relaychain.
    pub max_reward_per_era: Permill,
    /// The default exchange rate for liquid currency to staking currency.
    pub default_exchange_rate: ExchangeRate,
}

/// The pallet: its configuration and its storage.
#[derive(Clone, Copy, Debug)]
pub struct Pallet {
    /// The constants that the pallet was configured with.
    pub config: Config,
    /// The total amount of the staking currency on the relaychain.
    /// This info is used to calculate the exchange rate between Staking and Liquid currencies.
    pub total_staking_currency: Balance,
    /// The cap on the total amount of staking currency allowed to mint Liquid currency.
    pub staking_currency_mint_cap: Balance,
    /// The extra weight for cross-chain XCM transfers.
    pub xcm_dest_weight: Weight,
}

/// A mint request that passed the checks made before the user's funds are looked at.
#[derive(Clone, Copy, Debug, PartialEq, Eq)]
pub struct MintRequest<A> {
    /// The account that mints.
    pub who: A,
    /// The amount of Staking currency to be exchanged.
    pub amount: Balance,
    /// The total amount of staking currency once this mint is done.
    pub new_total_staked: Balance,
}

/// A mint whose amounts are fixed: what is to be sent to the relay chain, what is
/// to be minted, and what the pallet's storage becomes.
#[derive(Clone, Copy, Debug, PartialEq, Eq)]
pub struct MintOrder<A> {
    /// The account that mints.
    pub who: A,
    /// The amount of Staking currency to be transferred to the relay chain.
    pub amount: Balance,
    /// The total amount of staking currency once this mint is done.
    pub new_total_staked: Balance,
    /// The amount of Liquid currency to be minted into the account.
    pub liquid_to_mint: Balance,
    /// The weight to be paid for the cross-chain transfer.
    pub xcm_dest_weight: Weight,
}

/// What `ensure_signed` gives for an origin.
pub open spec fn signed_account<A>(origin: Origin<A>) -> Result<A, DispatchError> {
    match origin {
        Origin::Signed(who) => Ok(who),
        _ => Err(DispatchError::BadOrigin),
    }
}

/// Ensures that the origin is a signed account, and returns that account.
pub fn ensure_signed<A>(origin: Origin<A>) -> (r: Result<A, DispatchError>)
    ensures
        r == signed_account(origin),
{
    match origin {
        Origin::Signed(who) => Ok(who),
        _ => Err(DispatchError::BadOrigin),
    }
}

/// The exchange rate between the liquid and the staking currency: the ratio of their
/// totals, or the configured default where that ratio is not defined or does not fit.
pub open spec fn staking_exchange_rate(
    liquid_total: Balance,
    staking_total: Balance,
    default: ExchangeRate,
) -> ExchangeRate {
    if staking_total == 0 {
        default
    } else {
        match checked_rational_mul_div(liquid_total as int, FIXED_ACCURACY as int, staking_total as int) {
            Some(inner) => ExchangeRate { inner },
            None => default,
        }
    }
}

/// `a + b`, saturated at the largest `Balance`.
pub open spec fn saturating_add_balance(a: Balance, b: Balance) -> Balance {
    if a + b > u128::MAX {
        u128::MAX
    } else {
        (a + b) as u128
    }
}

/// The outcome of the checks that a mint of `amount` makes before the user's funds are
/// looked at: the new total of staking currency, or the error.
pub open spec fn mint_check(pallet: Pallet, amount: Balance) -> Result<Balance, DispatchError> {
    if amount <= saturating_add_balance(pallet.config.minimum_mint_threshold, pallet.config.mint_fee) {
        Err(DispatchError::Module(Error::MintAmountBelowMinimumThreshold))
    } else if pallet.total_staking_currency + amount > u128::MAX {
        Err(DispatchError::Arithmetic(ArithmeticError::Overflow))
    } else if pallet.total_staking_currency + amount > pallet.staking_currency_mint_cap {
        Err(DispatchError::Module(Error::ExceededStakingCurrencyMintCap))
    } else {
        Ok((pallet.total_staking_currency + amount) as u128)
    }
}

/// The amount of liquid currency that is minted out of `minted` before the reward
/// deduction: `minted` less the fraction `max_reward` of it.
pub open spec fn liquid_after_reward_spec(minted: Option<Balance>, max_reward: Permill) -> Result<
    Balance,
    DispatchError,
> {
    match minted {
        None => Err(DispatchError::Arithmetic(ArithmeticError::Overflow)),
        Some(m) => Ok((m - permill_mul_spec(max_reward.spec_parts() as int, m as int)) as u128),
    }
}

/// `m` less the fraction `max_reward` of it.
pub open spec fn less_max_reward(m: int, max_reward: Permill) -> int {
    m - permill_mul_spec(max_reward.spec_parts() as int, m)
}

/// The amount of liquid currency that a mint of `amount` staking currency yields, given
/// the total issuance of the liquid currency.
pub open spec fn liquid_to_mint_spec(pallet: Pallet, amount: Balance, liquid_total: Balance) -> Result<
    Balance,
    DispatchError,
> {
    let rate = staking_exchange_rate(
        liquid_total,
        pallet.total_staking_currency,
        pallet.config.default_exchange_rate,
    );
    liquid_after_reward_spec(
        checked_rational_mul_div(
            rate.inner as int,
            (amount - pallet.config.mint_fee) as int,
            FIXED_ACCURACY as int,
        ),
        pallet.config.max_reward_per_era,
    )
}

/// The magnitude by which an adjustment of `by` moves the total: `|by|`.
pub open spec fn adjustment_magnitude(by: Amount) -> int {
    if by < 0 {
        -by
    } else {
        by as int
    }
}

/// The total of staking currency after an adjustment by `by`, or the error: a positive
/// `by` adds, any other subtracts.
pub open spec fn adjusted_total(total: Balance, by: Amount) -> Result<Balance, DispatchError> {
    let m = adjustment_magnitude(by);
    if by > 0 {
        if total + m > u128::MAX {
            Err(DispatchError::Arithmetic(ArithmeticError::Overflow))
        } else {
            Ok((total + m) as u128)
        }
    } else {
        if total - m < 0 {
            Err(DispatchError::Arithmetic(ArithmeticError::Underflow))
        } else {
            Ok((total - m) as u128)
        }
    }
}

/// `minted` less the fraction `max_reward` of it, or an overflow error where the
/// multiplication by the exchange rate gave nothing.
pub fn liquid_after_reward(minted: Option<Balance>, max_reward: Permill) -> (r: Result<
    Balance,
    DispatchError,
>)
    ensures
        r == liquid_after_reward_spec(minted, max_reward),
        r matches Ok(v) ==> minted matches Some(m) && v <= m && v == less_max_reward(
            m as int,
            max_reward,
        ),
        // The deduction `m - v` is `m * max_reward` rounded to the nearest integer.
        minted matches Some(m) ==> (r matches Ok(v) && -500_000 < m * max_reward.spec_parts() - (m
            - v) * 1_000_000 <= 500_000),
        minted is None ==> r == Err::<Balance, DispatchError>(
            DispatchError::Arithmetic(ArithmeticError::Overflow),
        ),
{
    match minted {
        None => Err(DispatchError::Arithmetic(ArithmeticError::Overflow)),
        Some(m) => {
            let reward = max_reward.mul_int(m);
            Ok(m - reward)
        },
    }
}

impl Pallet {
    /// A pallet with the given configuration and empty storage.
    pub fn new(config: Config) -> (r: Pallet)
        ensures
            r.config == config,
            r.total_staking_currency == 0,
            r.staking_currency_mint_cap == 0,
            r.xcm_dest_weight == 0,
    {
        Pallet { config, total_staking_currency: 0, staking_currency_mint_cap: 0, xcm_dest_weight: 0 }
    }

    /// The total amount of the staking currency on the relaychain.
    pub fn total_staking_currency(&self) -> (r: Balance)
        ensures
            r == self.total_staking_currency,
    {
        self.total_staking_currency
    }

    /// The cap on the total amount of staking currency allowed to mint Liquid currency.
    pub fn staking_currency_mint_cap(&self) -> (r: Balance)
        ensures
            r == self.staking_currency_mint_cap,
    {
        self.staking_currency_mint_cap
    }

    /// The extra weight for cross-chain XCM transfers.
    pub fn xcm_dest_weight(&self) -> (r: Weight)
        ensures
            r == self.xcm_dest_weight,
    {
        self.xcm_dest_weight
    }

    /// The exchange rate from staking to liquid currency, given the total issuance of
    /// the liquid currency: `liquid_total_issuance / total_staking_currency`, or the
    /// configured default where the staking total is zero or the ratio does not fit.
    pub fn get_staking_exchange_rate(&self, liquid_total_issuance: Balance) -> (r: ExchangeRate)
        ensures
            r == staking_exchange_rate(
                liquid_total_issuance,
                self.total_staking_currency,
                self.config.default_exchange_rate,
            ),
            self.total_staking_currency == 0 ==> r == self.config.default_exchange_rate,
            self.total_staking_currency != 0 && liquid_total_issuance * FIXED_ACCURACY <= u128::MAX
                ==> r.inner == mul_div_floor(
                liquid_total_issuance as int,
                FIXED_ACCURACY as int,
                self.total_staking_currency as int,
            ),
            self.total_staking_currency != 0 && mul_div_floor(
                liquid_total_issuance as int,
                FIXED_ACCURACY as int,
                self.total_staking_currency as int,
            ) > u128::MAX ==> r == self.config.default_exchange_rate,
            self.total_staking_currency != 0 && mul_div_floor(
                liquid_total_issuance as int,
                FIXED_ACCURACY as int,
                self.total_staking_currency as int,
            ) < u128::MAX ==> mul_div_floor(
                liquid_total_issuance as int,
                FIXED_ACCURACY as int,
                self.total_staking_currency as int,
            ) <= r.inner <= mul_div_floor(
                liquid_total_issuance as int,
                FIXED_ACCURACY as int,
                self.total_staking_currency as int,
            ) + 1,
    {
        let staking_total = self.total_staking_currency;
        match ExchangeRate::checked_from_rational(liquid_total_issuance, staking_total) {
            Some(rate) => rate,
            None => self.config.default_exchange_rate,
        }
    }

    /// The first step of a mint of `amount` staking currency: the origin must be a signed
    /// account, the amount must be above the minimum threshold plus the mint fee, and the
    /// new total of staking currency must fit and stay within the mint cap. Nothing changes.
    ///
    /// On success the caller ensures that `who` can withdraw `amount` of the staking
    /// currency, and then takes the next step, `mint_quote`.
    pub fn mint_begin<A>(&self, origin: Origin<A>, amount: Balance) -> (r: Result<
        MintRequest<A>,
        DispatchError,
    >)
        ensures
            match signed_account(origin) {
                Err(e) => r == Err::<MintRequest<A>, DispatchError>(e),
                Ok(who) => match mint_check(*self, amount) {
                    Err(e) => r == Err::<MintRequest<A>, DispatchError>(e),
                    Ok(t) => r == Ok::<MintRequest<A>, DispatchError>(
                        MintRequest { who, amount, new_total_staked: t },
                    ),
                },
            },
            r matches Ok(req) ==> req.amount > self.config.mint_fee && req.new_total_staked
                <= self.staking_currency_mint_cap,
    {
        let who = match ensure_signed(origin) {
            Ok(who) => who,
            Err(e) => {
                return Err(e);
            },
        };
        // The amount must be above the minimum once the mint fee is deducted.
        let threshold = self.config.minimum_mint_threshold.saturating_add(self.config.mint_fee);
        if amount <= threshold {
            return Err(DispatchError::Module(Error::MintAmountBelowMinimumThreshold));
        }
        // The total amount staked must not exceed the cap.
        let new_total_staked = match self.total_staking_currency.checked_add(amount) {
            Some(t) => t,
            None => {
                return Err(DispatchError::Arithmetic(ArithmeticError::Overflow));
            },
        };
        if new_total_staked > self.staking_currency_mint_cap {
            return Err(DispatchError::Module(Error::ExceededStakingCurrencyMintCap));
        }
        Ok(MintRequest { who, amount, new_total_staked })
    }

    /// The second step of a mint: the amount of liquid currency that the request yields,
    /// given the total issuance of the liquid currency. That is the staking amount less the
    /// mint fee, times the current exchange rate, less the maximum reward per era of it.
    /// Nothing changes.
    ///
    /// On success the caller transfers `amount` of the staking currency of `who` to the
    /// relay chain with `xcm_dest_weight`, deposits `liquid_to_mint` of the liquid currency
    /// into `who`'s account, and then takes the last step, `mint_finish`.
    pub fn mint_quote<A>(&self, request: MintRequest<A>, liquid_total_issuance: Balance) -> (r:
        Result<MintOrder<A>, DispatchError>)
        requires
            request.amount > self.config.mint_fee,
        ensures
            match liquid_to_mint_spec(*self, request.amount, liquid_total_issuance) {
                Err(e) => r == Err::<MintOrder<A>, DispatchError>(e),
                Ok(liquid) => r == Ok::<MintOrder<A>, DispatchError>(
                    MintOrder {
                        who: request.who,
                        amount: request.amount,
                        new_total_staked: request.new_total_staked,
                        liquid_to_mint: liquid,
                        xcm_dest_weight: self.xcm_dest_weight,
                    },
                ),
            },
            // The mint fails exactly where the staking amount less the fee, times the
            // exchange rate, does not fit in a `Balance`.
            ({
                let rate = staking_exchange_rate(
                    liquid_total_issuance,
                    self.total_staking_currency,
                    self.config.default_exchange_rate,
                );
                let product = mul_div_floor(
                    rate.inner as int,
                    (request.amount - self.config.mint_fee) as int,
                    FIXED_ACCURACY as int,
                );
                &&& product > u128::MAX ==> r == Err::<MintOrder<A>, DispatchError>(
                    DispatchError::Arithmetic(ArithmeticError::Overflow),
                )
                &&& product < u128::MAX ==> r is Ok
            }),
            // Without overflow: the liquid amount is ((amount - fee) * liquid_total /
            // staking_total) less the maximum reward of it, each step rounded down.
            self.total_staking_currency != 0 && liquid_total_issuance * FIXED_ACCURACY
                <= u128::MAX && mul_div_floor(
                liquid_total_issuance as int,
                FIXED_ACCURACY as int,
                self.total_staking_currency as int,
            ) * (request.amount - self.config.mint_fee) <= u128::MAX ==> (r matches Ok(order)
                && order.liquid_to_mint == less_max_reward(
                mul_div_floor(
                    mul_div_floor(
                        liquid_total_issuance as int,
                        FIXED_ACCURACY as int,
                        self.total_staking_currency as int,
                    ),
                    (request.amount - self.config.mint_fee) as int,
                    FIXED_ACCURACY as int,
                ),
                self.config.max_reward_per_era,
            )),
            // With no staking currency yet, the default exchange rate is used.
            self.total_staking_currency == 0 && self.config.default_exchange_rate.inner * (
            request.amount - self.config.mint_fee) <= u128::MAX ==> (r matches Ok(order)
                && order.liquid_to_mint == less_max_reward(
                mul_div_floor(
                    self.config.default_exchange_rate.inner as int,
                    (request.amount - self.config.mint_fee) as int,
                    FIXED_ACCURACY as int,
                ),
                self.config.max_reward_per_era,
            )),
    {
        let exchange_rate = self.get_staking_exchange_rate(liquid_total_issuance);
        let minted = exchange_rate.checked_mul_int(request.amount - self.config.mint_fee);
        let liquid_to_mint = match liquid_after_reward(minted, self.config.max_reward_per_era) {
            Ok(l) => l,
            Err(e) => {
                return Err(e);
            },
        };
        Ok(
            MintOrder {
                who: request.who,
                amount: request.amount,
                new_total_staked: request.new_total_staked,
                liquid_to_mint,
                xcm_dest_weight: self.xcm_dest_weight,
            },
        )
    }

    /// The last step of a mint, once the transfer and the deposit are done: the total of
    /// staking currency becomes the order's new total, and the `Minted` event is returned.
    pub fn mint_finish<A>(&mut self, order: MintOrder<A>) -> (r: Event<A>)
        ensures
            final(self).total_staking_currency == order.new_total_staked,
            final(self).staking_currency_mint_cap == old(self).staking_currency_mint_cap,
            final(self).xcm_dest_weight == old(self).xcm_dest_weight,
            final(self).config == old(self).config,
            r == Event::Minted(order.who, order.amount, order.liquid_to_mint),
    {
        self.total_staking_currency = order.new_total_staked;
        Event::Minted(order.who, order.amount, order.liquid_to_mint)
    }

    /// Sets the total amount of the Staking currency that are currently on the relaychain.
    /// Requires the governance origin; the total must not be zero.
    pub fn set_total_staking_currency<A>(
        &mut self,
        governance_origin: bool,
        staking_total: Balance,
    ) -> (r: Result<Event<A>, DispatchError>)
        ensures
            !governance_origin ==> r == Err::<Event<A>, DispatchError>(DispatchError::BadOrigin),
            governance_origin && staking_total == 0 ==> r == Err::<Event<A>, DispatchError>(
                DispatchError::Module(Error::InvalidTotalStakingCurrency),
            ),
            governance_origin && staking_total != 0 ==> r == Ok::<Event<A>, DispatchError>(
                Event::TotalStakingCurrencySet(staking_total),
            ),
            r is Ok ==> final(self).total_staking_currency == staking_total,
            r is Err ==> final(self).total_staking_currency == old(self).total_staking_currency,
            final(self).staking_currency_mint_cap == old(self).staking_currency_mint_cap,
            final(self).xcm_dest_weight == old(self).xcm_dest_weight,
            final(self).config == old(self).config,
    {
        if !governance_origin {
            return Err(DispatchError::BadOrigin);
        }
        if staking_total == 0 {
            return Err(DispatchError::Module(Error::InvalidTotalStakingCurrency));
        }
        self.total_staking_currency = staking_total;
        Ok(Event::TotalStakingCurrencySet(staking_total))
    }

    /// Adjusts the total amount of the Staking currency by `by_amount`: a positive amount
    /// is added, any other has its magnitude subtracted.
    /// Requires the governance origin.
    pub fn adjust_total_staking_currency<A>(&mut self, governance_origin: bool, by_amount: Amount) -> (r:
        Result<Event<A>, DispatchError>)
        ensures
            !governance_origin ==> r == Err::<Event<A>, DispatchError>(DispatchError::BadOrigin),
            governance_origin ==> match adjusted_total(old(self).total_staking_currency, by_amount) {
                Err(e) => r == Err::<Event<A>, DispatchError>(e),
                Ok(t) => r == Ok::<Event<A>, DispatchError>(Event::TotalStakingCurrencySet(t)),
            },
            r is Ok ==> Ok::<Balance, DispatchError>(final(self).total_staking_currency)
                == adjusted_total(old(self).total_staking_currency, by_amount),
            r is Err ==> final(self).total_staking_currency == old(self).total_staking_currency,
            final(self).staking_currency_mint_cap == old(self).staking_currency_mint_cap,
            final(self).xcm_dest_weight == old(self).xcm_dest_weight,
            final(self).config == old(self).config,
    {
        if !governance_origin {
            return Err(DispatchError::BadOrigin);
        }
        let current_staking_total = self.total_staking_currency;
        // The magnitude of the adjustment, as a balance; that of the smallest `Amount`,
        // `2^127`, fits in a `Balance`.
        let by_balance: u128 = if by_amount < 0 {
            (-(by_amount + 1)) as u128 + 1
        } else {
            by_amount as u128
        };
        let new_total = if by_amount > 0 {
            match current_staking_total.checked_add(by_balance) {
                Some(t) => t,
                None => {
                    return Err(DispatchError::Arithmetic(ArithmeticError::Overflow));
                },
            }
        } else {
            match current_staking_total.checked_sub(by_balance) {
                Some(t) => t,
                None => {
                    return Err(DispatchError::Arithmetic(ArithmeticError::Underflow));
                },
            }
        };
        self.total_staking_currency = new_total;
        Ok(Event::TotalStakingCurrencySet(new_total))
    }

    /// Updates the cap for how much Staking currency can be used to Mint liquid currency.
    /// Requires the governance origin.
    pub fn set_minting_cap<A>(&mut self, governance_origin: bool, new_cap: Balance) -> (r: Result<
        Event<A>,
        DispatchError,
    >)
        ensures
            !governance_origin ==> r == Err::<Event<A>, DispatchError>(DispatchError::BadOrigin),
            governance_origin ==> r == Ok::<Event<A>, DispatchError>(
                Event::StakingCurrencyMintCapUpdated(new_cap),
            ),
            final(self).staking_currency_mint_cap == (if governance_origin {
                new_cap
            } else {
                old(self).staking_currency_mint_cap
            }),
            final(self).total_staking_currency == old(self).total_staking_currency,
            final(self).xcm_dest_weight == old(self).xcm_dest_weight,
            final(self).config == old(self).config,
    {
        if !governance_origin {
            return Err(DispatchError::BadOrigin);
        }
        self.staking_currency_mint_cap = new_cap;
        Ok(Event::StakingCurrencyMintCapUpdated(new_cap))
    }

    /// Sets the xcm_dest_weight for XCM transfers. Requires the governance origin.
    pub fn set_xcm_dest_weight<A>(&mut self, governance_origin: bool, xcm_dest_weight: Weight) -> (r:
        Result<Event<A>, DispatchError>)
        ensures
            !governance_origin ==> r == Err::<Event<A>, DispatchError>(DispatchError::BadOrigin),
            governance_origin ==> r == Ok::<Event<A>, DispatchError>(
                Event::XcmDestWeightSet(xcm_dest_weight),
            ),
            final(self).xcm_dest_weight == (if governance_origin {
                xcm_dest_weight
            } else {
                old(self).xcm_dest_weight
            }),
            final(self).total_staking_currency == old(self).total_staking_currency,
            final(self).staking_currency_mint_cap == old(self).staking_currency_mint_cap,
            final(self).config == old(self).config,
    {
        if !governance_origin {
            return Err(DispatchError::BadOrigin);
        }
        self.xcm_dest_weight = xcm_dest_weight;
        Ok(Event::XcmDestWeightSet(xcm_dest_weight))
    }
}

/// The provider of the exchange rate from the liquid to the staking currency.
pub struct LiquidExchangeProvider;

impl LiquidExchangeProvider {
    /// The exchange rate from liquid to staking currency: the reciprocal of the pallet's
    /// staking exchange rate, or zero where that rate is zero.
    pub fn get_exchange_rate(pallet: &Pallet, liquid_total_issuance: Balance) -> (r: ExchangeRate)
        ensures
            ({
                let rate = staking_exchange_rate(
                    liquid_total_issuance,
                    pallet.total_staking_currency,
                    pallet.config.default_exchange_rate,
                );
                &&& rate.inner == 0 ==> r.inner == 0
                &&& rate.inner != 0 ==> r.inner == mul_div_floor(
                    FIXED_ACCURACY as int,
                    FIXED_ACCURACY as int,
                    rate.inner as int,
                )
            }),
    {
        match pallet.get_staking_exchange_rate(liquid_total_issuance).reciprocal() {
            Some(rate) => rate,
            None => ExchangeRate { inner: 0 },
        }
    }
}

} // verus!
