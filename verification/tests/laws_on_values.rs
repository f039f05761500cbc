use module_homa_lite::fixed::{ExchangeRate, Permill, FIXED_ACCURACY};
use module_homa_lite::pallet::{Config, DispatchError, Error, Event, Origin, Pallet};

fn pallet() -> Pallet {
    let mut p = Pallet::new(Config {
        minimum_mint_threshold: 10,
        mint_fee: 1,
        max_reward_per_era: Permill::from_parts(0),
        default_exchange_rate: ExchangeRate::from_inner(FIXED_ACCURACY),
    });
    p.staking_currency_mint_cap = 1_000;
    p
}

#[test]
fn adjust_round_trip_restores_total() {
    let mut p = pallet();
    p.total_staking_currency = 123;
    assert!(p.adjust_total_staking_currency::<u64>(true, 77).is_ok());
    assert!(p.adjust_total_staking_currency::<u64>(true, -77).is_ok());
    assert_eq!(p.total_staking_currency(), 123);
}

#[test]
fn adjust_round_trip_with_negative_amount() {
    let mut p = pallet();
    p.total_staking_currency = 123;
    assert!(p.adjust_total_staking_currency::<u64>(true, -100).is_ok());
    assert!(p.adjust_total_staking_currency::<u64>(true, 100).is_ok());
    assert_eq!(p.total_staking_currency(), 123);
}

#[test]
fn two_adjustments_compose() {
    let mut p = pallet();
    p.total_staking_currency = 500;
    assert!(p.adjust_total_staking_currency::<u64>(true, 300).is_ok());
    assert!(p.adjust_total_staking_currency::<u64>(true, -700).is_ok());
    let mut q = pallet();
    q.total_staking_currency = 500;
    assert!(q.adjust_total_staking_currency::<u64>(true, -400).is_ok());
    assert_eq!(p.total_staking_currency(), q.total_staking_currency());
}

#[test]
fn successful_mints_stay_within_cap() {
    let mut p = pallet();
    let mut minted = 0u128;
    for _ in 0..200 {
        let before = p.total_staking_currency();
        match p.mint_begin(Origin::Signed(1u64), 100) {
            Ok(req) => {
                let order = p.mint_quote(req, 0).unwrap();
                p.mint_finish(order);
                minted += 100;
                assert_eq!(p.total_staking_currency(), before + 100);
            }
            Err(e) => {
                assert_eq!(e, DispatchError::Module(Error::ExceededStakingCurrencyMintCap));
                assert_eq!(p.total_staking_currency(), before);
            }
        }
        assert!(p.total_staking_currency() <= p.staking_currency_mint_cap());
    }
    assert_eq!(minted, 1_000);
}

#[test]
fn zero_reward_mints_full_amount_less_fee() {
    let mut p = pallet();
    let req = p.mint_begin(Origin::Signed(1u64), 100).unwrap();
    let order = p.mint_quote(req, 0).unwrap();
    assert_eq!(p.mint_finish(order), Event::Minted(1, 100, 99));
}

#[test]
fn full_reward_mints_nothing() {
    let mut p = pallet();
    p.config.max_reward_per_era = Permill::from_parts(1_000_000);
    let req = p.mint_begin(Origin::Signed(1u64), 100).unwrap();
    assert_eq!(p.mint_quote(req, 0).unwrap().liquid_to_mint, 0);
}
