use module_homa_lite::fixed::{ExchangeRate, Permill, FIXED_ACCURACY};
use module_homa_lite::pallet::{
    ensure_signed, liquid_after_reward, ArithmeticError, Config, DispatchError, Error, Event,
    LiquidExchangeProvider, MintRequest, Origin, Pallet,
};

const ALICE: u64 = 1;

fn config() -> Config {
    Config {
        minimum_mint_threshold: 1_000_000_000,
        mint_fee: 1_000_000,
        max_reward_per_era: Permill::from_parts(1_000),
        default_exchange_rate: ExchangeRate::from_inner(FIXED_ACCURACY / 10),
    }
}

fn pallet_with(total: u128, cap: u128) -> Pallet {
    let mut p = Pallet::new(config());
    p.total_staking_currency = total;
    p.staking_currency_mint_cap = cap;
    p
}

/// Runs the three steps of a mint, as a runtime whose transfers and deposits succeed does.
fn mint(p: &mut Pallet, origin: Origin<u64>, amount: u128, liquid_total: u128) -> Result<Event<u64>, DispatchError> {
    let request = p.mint_begin(origin, amount)?;
    let order = p.mint_quote(request, liquid_total)?;
    Ok(p.mint_finish(order))
}

#[test]
fn new_pallet_has_empty_storage() {
    let p = Pallet::new(config());
    assert_eq!(p.total_staking_currency(), 0);
    assert_eq!(p.staking_currency_mint_cap(), 0);
    assert_eq!(p.xcm_dest_weight(), 0);
}

#[test]
fn ensure_signed_accepts_only_signed_origins() {
    assert_eq!(ensure_signed(Origin::Signed(ALICE)), Ok(ALICE));
    assert_eq!(ensure_signed::<u64>(Origin::Root), Err(DispatchError::BadOrigin));
    assert_eq!(ensure_signed::<u64>(Origin::Unsigned), Err(DispatchError::BadOrigin));
}

#[test]
fn exchange_rate_is_ratio_of_totals() {
    let p = pallet_with(1_000_000_000_000, 0);
    let rate = p.get_staking_exchange_rate(5_000_000_000_000);
    assert_eq!(rate.into_inner(), 5 * FIXED_ACCURACY);
    let rate = p.get_staking_exchange_rate(1);
    assert_eq!(rate.into_inner(), 1_000_000);
}

#[test]
fn exchange_rate_defaults_without_staking_currency() {
    let p = pallet_with(0, 0);
    assert_eq!(p.get_staking_exchange_rate(5_000), ExchangeRate::from_inner(FIXED_ACCURACY / 10));
}

#[test]
fn exchange_rate_defaults_when_ratio_does_not_fit() {
    let p = pallet_with(1, 0);
    assert_eq!(p.get_staking_exchange_rate(u128::MAX), ExchangeRate::from_inner(FIXED_ACCURACY / 10));
}

#[test]
fn checked_from_rational_values() {
    assert_eq!(ExchangeRate::checked_from_rational(1, 3), Some(ExchangeRate::from_inner(333_333_333_333_333_333)));
    assert_eq!(ExchangeRate::checked_from_rational(5, 0), None);
    assert_eq!(ExchangeRate::checked_from_rational(0, 7), Some(ExchangeRate::from_inner(0)));
}

#[test]
fn checked_mul_int_values() {
    let half = ExchangeRate::from_inner(FIXED_ACCURACY / 2);
    assert_eq!(half.checked_mul_int(10), Some(5));
    assert_eq!(half.checked_mul_int(7), Some(3));
    let three_tenths = ExchangeRate::from_inner(3 * FIXED_ACCURACY / 10);
    assert_eq!(
        three_tenths.checked_mul_int(u128::MAX),
        Some(102_084_710_076_281_539_039_012_382_229_530_463_436)
    );
    let two = ExchangeRate::from_inner(2 * FIXED_ACCURACY);
    assert_eq!(two.checked_mul_int(u128::MAX), None);
}

#[test]
fn reciprocal_values() {
    assert_eq!(ExchangeRate::from_inner(3 * FIXED_ACCURACY).reciprocal(), Some(ExchangeRate::from_inner(333_333_333_333_333_333)));
    assert_eq!(ExchangeRate::from_inner(7 * FIXED_ACCURACY / 10).reciprocal(), Some(ExchangeRate::from_inner(1_428_571_428_571_428_571)));
    assert_eq!(ExchangeRate::from_inner(0).reciprocal(), None);
}

#[test]
fn permill_rounds_to_nearest_with_half_down() {
    assert_eq!(Permill::from_parts(500_000).mul_int(3), 1);
    assert_eq!(Permill::from_parts(600_000).mul_int(5), 3);
    assert_eq!(Permill::from_parts(1_000).mul_int(1_000_000_000), 1_000_000);
    assert_eq!(Permill::from_parts(1_000_000).mul_int(u128::MAX), u128::MAX);
    assert_eq!(Permill::from_parts(0).mul_int(u128::MAX), 0);
}

#[test]
fn permill_saturates_at_one_whole() {
    assert_eq!(Permill::from_parts(2_000_000).deconstruct(), 1_000_000);
    assert_eq!(Permill::from_parts(42).deconstruct(), 42);
}

#[test]
fn liquid_after_reward_values() {
    let p = Permill::from_parts(1_000);
    assert_eq!(liquid_after_reward(Some(1_000_000_000), p), Ok(999_000_000));
    assert_eq!(liquid_after_reward(None, p), Err(DispatchError::Arithmetic(ArithmeticError::Overflow)));
}

#[test]
fn mint_with_default_rate() {
    let mut p = pallet_with(0, 1_000_000_000_000_000);
    let ev = mint(&mut p, Origin::Signed(ALICE), 10_001_000_000, 0);
    assert_eq!(ev, Ok(Event::Minted(ALICE, 10_001_000_000, 999_000_000)));
    assert_eq!(p.total_staking_currency(), 10_001_000_000);
}

#[test]
fn mint_with_ratio_of_totals() {
    let mut p = pallet_with(1_000_000_000_000, 1_000_000_000_000_000);
    let ev = mint(&mut p, Origin::Signed(ALICE), 10_001_000_000, 5_000_000_000_000);
    assert_eq!(ev, Ok(Event::Minted(ALICE, 10_001_000_000, 49_950_000_000)));
    assert_eq!(p.total_staking_currency(), 1_010_001_000_000);
}

#[test]
fn mint_steps_fix_what_is_sent() {
    let mut p = pallet_with(0, 1_000_000_000_000_000);
    assert!(p.set_xcm_dest_weight::<u64>(true, 77).is_ok());
    let request = p.mint_begin(Origin::Signed(ALICE), 10_001_000_000).unwrap();
    assert_eq!(request, MintRequest { who: ALICE, amount: 10_001_000_000, new_total_staked: 10_001_000_000 });
    let order = p.mint_quote(request, 0).unwrap();
    assert_eq!(order.amount, 10_001_000_000);
    assert_eq!(order.liquid_to_mint, 999_000_000);
    assert_eq!(order.xcm_dest_weight, 77);
    assert_eq!(p.total_staking_currency(), 0);
    p.mint_finish(order);
    assert_eq!(p.total_staking_currency(), 10_001_000_000);
}

#[test]
fn mint_requires_signed_origin() {
    let mut p = pallet_with(0, 1_000_000_000_000_000);
    assert_eq!(mint(&mut p, Origin::Root, 10_001_000_000, 0), Err(DispatchError::BadOrigin));
    assert_eq!(mint(&mut p, Origin::Unsigned, 10_001_000_000, 0), Err(DispatchError::BadOrigin));
}

#[test]
fn mint_below_threshold_fails() {
    let mut p = pallet_with(0, 1_000_000_000_000_000);
    let below = Err(DispatchError::Module(Error::MintAmountBelowMinimumThreshold));
    assert_eq!(mint(&mut p, Origin::Signed(ALICE), 1_001_000_000, 0), below);
    assert_eq!(mint(&mut p, Origin::Signed(ALICE), 0, 0), below);
    assert!(mint(&mut p, Origin::Signed(ALICE), 1_001_000_001, 0).is_ok());
}

#[test]
fn mint_threshold_saturates() {
    let mut c = config();
    c.minimum_mint_threshold = u128::MAX;
    let mut p = Pallet::new(c);
    p.staking_currency_mint_cap = u128::MAX;
    assert_eq!(
        mint(&mut p, Origin::Signed(ALICE), u128::MAX, 0),
        Err(DispatchError::Module(Error::MintAmountBelowMinimumThreshold))
    );
}

#[test]
fn mint_over_cap_fails() {
    let mut p = pallet_with(0, 10_000_000_000);
    assert_eq!(
        mint(&mut p, Origin::Signed(ALICE), 10_001_000_000, 0),
        Err(DispatchError::Module(Error::ExceededStakingCurrencyMintCap))
    );
    assert_eq!(p.total_staking_currency(), 0);
    assert!(p.set_minting_cap::<u64>(true, 10_001_000_000).is_ok());
    assert!(mint(&mut p, Origin::Signed(ALICE), 10_001_000_000, 0).is_ok());
}

#[test]
fn mint_total_overflow_fails() {
    let mut p = pallet_with(u128::MAX - 5, u128::MAX);
    assert_eq!(
        mint(&mut p, Origin::Signed(ALICE), 10_001_000_000, 0),
        Err(DispatchError::Arithmetic(ArithmeticError::Overflow))
    );
}

#[test]
fn mint_liquid_overflow_fails() {
    let mut c = config();
    c.default_exchange_rate = ExchangeRate::from_inner(u128::MAX);
    let mut p = Pallet::new(c);
    p.staking_currency_mint_cap = u128::MAX;
    let req = p.mint_begin(Origin::Signed(ALICE), u128::MAX / 2).unwrap();
    assert_eq!(p.mint_quote(req, 0), Err(DispatchError::Arithmetic(ArithmeticError::Overflow)));
}

#[test]
fn set_total_staking_currency_works() {
    let mut p = pallet_with(0, 0);
    assert_eq!(p.set_total_staking_currency::<u64>(true, 100), Ok(Event::TotalStakingCurrencySet(100)));
    assert_eq!(p.total_staking_currency(), 100);
    assert_eq!(
        p.set_total_staking_currency::<u64>(true, 0),
        Err(DispatchError::Module(Error::InvalidTotalStakingCurrency))
    );
    assert_eq!(p.set_total_staking_currency::<u64>(false, 5), Err(DispatchError::BadOrigin));
    assert_eq!(p.total_staking_currency(), 100);
}

#[test]
fn adjust_total_staking_currency_works() {
    let mut p = pallet_with(1_000, 0);
    assert_eq!(p.adjust_total_staking_currency::<u64>(true, 500), Ok(Event::TotalStakingCurrencySet(1_500)));
    assert_eq!(p.adjust_total_staking_currency::<u64>(true, -500), Ok(Event::TotalStakingCurrencySet(1_000)));
    assert_eq!(p.adjust_total_staking_currency::<u64>(true, 0), Ok(Event::TotalStakingCurrencySet(1_000)));
    assert_eq!(
        p.adjust_total_staking_currency::<u64>(true, -1_001),
        Err(DispatchError::Arithmetic(ArithmeticError::Underflow))
    );
    assert_eq!(p.total_staking_currency(), 1_000);
    assert_eq!(p.adjust_total_staking_currency::<u64>(false, 5), Err(DispatchError::BadOrigin));
    assert_eq!(p.total_staking_currency(), 1_000);
}

#[test]
fn adjust_total_staking_currency_overflow_fails() {
    let mut p = pallet_with(u128::MAX - 1, 0);
    assert_eq!(
        p.adjust_total_staking_currency::<u64>(true, 2),
        Err(DispatchError::Arithmetic(ArithmeticError::Overflow))
    );
    assert_eq!(p.total_staking_currency(), u128::MAX - 1);
}

#[test]
fn adjust_by_smallest_amount_subtracts_its_magnitude() {
    let mut p = pallet_with(u128::MAX, 0);
    let expected = u128::MAX - (1u128 << 127);
    assert_eq!(p.adjust_total_staking_currency::<u64>(true, i128::MIN), Ok(Event::TotalStakingCurrencySet(expected)));
    assert_eq!(p.total_staking_currency(), expected);
    let mut q = pallet_with(1u128 << 127, 0);
    assert_eq!(q.adjust_total_staking_currency::<u64>(true, i128::MIN), Ok(Event::TotalStakingCurrencySet(0)));
    let mut r = pallet_with((1u128 << 127) - 1, 0);
    assert_eq!(
        r.adjust_total_staking_currency::<u64>(true, i128::MIN),
        Err(DispatchError::Arithmetic(ArithmeticError::Underflow))
    );
    assert_eq!(r.total_staking_currency(), (1u128 << 127) - 1);
}

#[test]
fn checked_mul_int_rounds_to_nearest_past_u128_product() {
    let a = ExchangeRate::from_inner(333_333_333_333_333_333);
    assert_eq!(a.checked_mul_int(u128::MAX), Some(113_427_455_640_312_821_041_030_746_836_943_249_331));
    let b = ExchangeRate::from_inner(666_666_666_666_666_667);
    assert_eq!(b.checked_mul_int(u128::MAX), Some(226_854_911_280_625_642_422_343_860_594_824_962_124));
}

#[test]
fn exchange_rate_rounds_to_nearest_past_u128_product() {
    let p = pallet_with(7_000_000_001, 0);
    assert_eq!(
        p.get_staking_exchange_rate(1_000_000_000_000_000_000_000).into_inner(),
        142_857_142_836_734_693_880_466_472_303
    );
}

#[test]
fn set_minting_cap_and_xcm_weight_work() {
    let mut p = pallet_with(0, 0);
    assert_eq!(p.set_minting_cap::<u64>(true, 42), Ok(Event::StakingCurrencyMintCapUpdated(42)));
    assert_eq!(p.staking_currency_mint_cap(), 42);
    assert_eq!(p.set_minting_cap::<u64>(false, 7), Err(DispatchError::BadOrigin));
    assert_eq!(p.staking_currency_mint_cap(), 42);
    assert_eq!(p.set_xcm_dest_weight::<u64>(true, 9), Ok(Event::XcmDestWeightSet(9)));
    assert_eq!(p.xcm_dest_weight(), 9);
    assert_eq!(p.set_xcm_dest_weight::<u64>(false, 1), Err(DispatchError::BadOrigin));
    assert_eq!(p.xcm_dest_weight(), 9);
}

#[test]
fn liquid_exchange_provider_is_reciprocal() {
    let p = pallet_with(1_000_000_000_000, 0);
    let r = LiquidExchangeProvider::get_exchange_rate(&p, 5_000_000_000_000);
    assert_eq!(r, ExchangeRate::from_inner(FIXED_ACCURACY / 5));
    let p0 = pallet_with(0, 0);
    assert_eq!(LiquidExchangeProvider::get_exchange_rate(&p0, 0), ExchangeRate::from_inner(10 * FIXED_ACCURACY));
    let p1 = pallet_with(1_000, 0);
    assert_eq!(LiquidExchangeProvider::get_exchange_rate(&p1, 0), ExchangeRate::from_inner(0));
}
