//! The routing of EVM precompile addresses: besides the standard Ethereum
//! precompiles, four precompiles of the runtime sit at consecutive addresses from
//! a configured start, each address being `H160::from_low_u64_be` of its number.

use vstd::prelude::*;

verus! {

/// A 20-byte EVM address.
pub type Address = [u8; 20];

/// The number that a sequence of bytes spells in big-endian order.
pub open spec fn big_endian_value(bytes: Seq<u8>) -> nat
    decreases bytes.len(),
{
    if bytes.len() == 0 {
        0
    } else {
        big_endian_value(bytes.drop_last()) * 256 + bytes.last() as nat
    }
}

/// The address is `H160::from_low_u64_be(v)`: twelve zero bytes followed by the eight
/// big-endian bytes of `v`.
pub open spec fn is_low_u64_address(address: Seq<u8>, v: int) -> bool {
    &&& address.len() == 20
    &&& forall|i: int| 0 <= i < 12 ==> address[i] == 0
    &&& big_endian_value(address.subrange(12, 20)) == v
}

/// Where a call to an address goes, once the standard Ethereum precompiles have
/// declined it.
#[derive(Clone, Copy, Debug, PartialEq, Eq, Structural)]
pub enum PrecompileRoute {
    /// The caller is not allowed to call the runtime's precompiles.
    NoPermission,
    MultiCurrency,
    Nft,
    StateRent,
    Oracle,
    /// No precompile sits at the address.
    NotFound,
}

/// The routing that `AllPrecompiles` makes for a call to `address` by a caller, given
/// whether the address is one of the runtime's precompile addresses and whether the
/// caller is allowed to call them.
pub open spec fn precompile_route(
    start: u64,
    address: Seq<u8>,
    is_acala_precompile: bool,
    caller_allowed: bool,
) -> PrecompileRoute {
    if is_acala_precompile && !caller_allowed {
        PrecompileRoute::NoPermission
    } else if is_low_u64_address(address, start as int) {
        PrecompileRoute::MultiCurrency
    } else if is_low_u64_address(address, start + 1) {
        PrecompileRoute::Nft
    } else if is_low_u64_address(address, start + 2) {
        PrecompileRoute::StateRent
    } else if is_low_u64_address(address, start + 3) {
        PrecompileRoute::Oracle
    } else {
        PrecompileRoute::NotFound
    }
}

/// The runtime's precompiles sit at `H160::from_low_u64_be` of `start`, `start + 1`,
/// `start + 2` and `start + 3`, in the order MultiCurrency, NFT, StateRent, Oracle; any
/// other address has none, and a caller without permission is refused at the runtime's
/// precompile addresses.
pub proof fn law_precompile_routes(start: u64, address: Seq<u8>, is_acala_precompile: bool, caller_allowed: bool)
    ensures
        is_acala_precompile && !caller_allowed ==> precompile_route(
            start,
            address,
            is_acala_precompile,
            caller_allowed,
        ) == PrecompileRoute::NoPermission,
        !(is_acala_precompile && !caller_allowed) ==> {
            let r = precompile_route(start, address, is_acala_precompile, caller_allowed);
            &&& is_low_u64_address(address, start as int) ==> r == PrecompileRoute::MultiCurrency
            &&& is_low_u64_address(address, start + 1) ==> r == PrecompileRoute::Nft
            &&& is_low_u64_address(address, start + 2) ==> r == PrecompileRoute::StateRent
            &&& is_low_u64_address(address, start + 3) ==> r == PrecompileRoute::Oracle
            &&& (forall|k: int|
                0 <= k < 4 ==> !#[trigger] is_low_u64_address(address, start + k)) ==> r
                == PrecompileRoute::NotFound
        },
{
    if !(is_acala_precompile && !caller_allowed) {
        if forall|k: int| 0 <= k < 4 ==> !#[trigger] is_low_u64_address(address, start + k) {
            assert(!is_low_u64_address(address, start + 0));
            assert(!is_low_u64_address(address, start + 1));
            assert(!is_low_u64_address(address, start + 2));
            assert(!is_low_u64_address(address, start + 3));
        }
    }
}

/// Eight bytes spell a number below `256^8`.
proof fn lemma_big_endian_bound(bytes: Seq<u8>)
    ensures
        big_endian_value(bytes) < vstd::arithmetic::power::pow(256, bytes.len()),
    decreases bytes.len(),
{
    vstd::arithmetic::power::lemma_pow_positive(256, bytes.len());
    if bytes.len() > 0 {
        lemma_big_endian_bound(bytes.drop_last());
        vstd::arithmetic::power::lemma_pow_adds(256, (bytes.len() - 1) as nat, 1);
        vstd::arithmetic::power::lemma_pow1(256);
        let p = vstd::arithmetic::power::pow(256, (bytes.len() - 1) as nat);
        let v = big_endian_value(bytes.drop_last());
        let b = bytes.last() as int;
        assert(v * 256 + b < p * 256) by (nonlinear_arith)
            requires
                v < p,
                0 <= b < 256,
        ;
    }
}

/// The number that an address holds as `H160::from_low_u64_be`, or `None` when its
/// first twelve bytes are not all zero.
pub fn low_u64_of(address: &Address) -> (r: Option<u64>)
    ensures
        r is Some <==> (forall|i: int| 0 <= i < 12 ==> address@[i] == 0),
        r matches Some(v) ==> v == big_endian_value(address@.subrange(12, 20)),
{
    let mut i: usize = 0;
    while i < 12
        invariant
            i <= 12,
            forall|j: int| 0 <= j < i ==> address@[j] == 0,
        decreases 12 - i,
    {
        if address[i] != 0 {
            return None;
        }
        i = i + 1;
    }
    let mut value: u64 = 0;
    let mut k: usize = 12;
    while k < 20
        invariant
            12 <= k <= 20,
            value == big_endian_value(address@.subrange(12, k as int)),
            forall|j: int| 0 <= j < 12 ==> address@[j] == 0,
        decreases 20 - k,
    {
        proof {
            let s = address@.subrange(12, k + 1);
            assert(s.drop_last() =~= address@.subrange(12, k as int));
            lemma_big_endian_bound(s);
            vstd::arithmetic::power::lemma_pow_increases(256, s.len(), 8);
            assert(vstd::arithmetic::power::pow(256, 8) == 0x1_0000_0000_0000_0000) by {
                vstd::arithmetic::power::lemma_pow1(256);
                vstd::arithmetic::power::lemma_pow_adds(256, 1, 1);
                assert(vstd::arithmetic::power::pow(256, 2) == 0x1_0000);
                vstd::arithmetic::power::lemma_pow_adds(256, 2, 2);
                assert(vstd::arithmetic::power::pow(256, 4) == 0x1_0000_0000);
                vstd::arithmetic::power::lemma_pow_adds(256, 4, 4);
            }
        }
        value = value * 256 + address[k] as u64;
        k = k + 1;
    }
    Some(value)
}

/// The runtime's precompiles: MultiCurrency, NFT, StateRent and Oracle, at
/// `address_start` and the three addresses after it.
#[derive(Clone, Copy, Debug, PartialEq, Eq, Structural)]
pub struct AllPrecompiles {
    /// The number of the first precompile address.
    pub address_start: u64,
}

impl AllPrecompiles {
    /// Where a call to `address` goes once the standard Ethereum precompiles have declined
    /// it: a caller that is not allowed to call the runtime's precompiles is refused at any
    /// of the runtime's precompile addresses, and otherwise the address picks the precompile.
    pub fn route(&self, address: &Address, is_acala_precompile: bool, caller_allowed: bool) -> (r:
        PrecompileRoute)
        ensures
            r == precompile_route(self.address_start, address@, is_acala_precompile, caller_allowed),
            is_acala_precompile && !caller_allowed ==> r == PrecompileRoute::NoPermission,
            !(is_acala_precompile && !caller_allowed) ==> {
                &&& is_low_u64_address(address@, self.address_start as int) ==> r
                    == PrecompileRoute::MultiCurrency
                &&& is_low_u64_address(address@, self.address_start + 1) ==> r
                    == PrecompileRoute::Nft
                &&& is_low_u64_address(address@, self.address_start + 2) ==> r
                    == PrecompileRoute::StateRent
                &&& is_low_u64_address(address@, self.address_start + 3) ==> r
                    == PrecompileRoute::Oracle
                &&& (forall|k: int|
                    0 <= k < 4 ==> !#[trigger] is_low_u64_address(
                        address@,
                        self.address_start + k,
                    )) ==> r == PrecompileRoute::NotFound
            },
    {
        proof {
            law_precompile_routes(self.address_start, address@, is_acala_precompile, caller_allowed);
        }
        if is_acala_precompile && !caller_allowed {
            return PrecompileRoute::NoPermission;
        }
        let start = self.address_start as u128;
        match low_u64_of(address) {
            None => PrecompileRoute::NotFound,
            Some(v) => {
                let v = v as u128;
                if v == start {
                    PrecompileRoute::MultiCurrency
                } else if v == start + 1 {
                    PrecompileRoute::Nft
                } else if v == start + 2 {
                    PrecompileRoute::StateRent
                } else if v == start + 3 {
                    PrecompileRoute::Oracle
                } else {
                    PrecompileRoute::NotFound
                }
            },
        }
    }
}

} // verus!
