# module-homa-lite

Homa Lite mints a liquid staking currency against a staking currency that is
locked on the relay chain. This crate is its verified core.

- `src/fixed.rs`: exchange rates (18-decimal fixed point) and per-million
  fractions, computed by `sp_arithmetic` through trusted wrappers.
- `src/pallet.rs`: the pallet's storage, errors and events; the exchange rate;
  the three steps of a mint; the governance calls; the liquid exchange provider.
- `src/precompile.rs`: routing of EVM precompile addresses.
- `src/weights.rs`: the benchmarked weights of the calls.
- `src/laws.rs`: properties that span the calls.
- `app/lib.rs`: runs the calls against a runtime that provides currencies,
  cross-chain transfers and the governance origin.
