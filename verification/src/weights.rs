//! The weights charged for the pallet's calls, as benchmarked for the Karura runtime.
//!
//! A weight is a fixed base plus the cost of the database reads and writes that the
//! call makes, each priced by the runtime's `RuntimeDbWeight`; every sum and product
//! saturates at the largest `Weight`.

use vstd::prelude::*;
use crate::pallet::Weight;

verus! {

/// `a + b`, saturated at the largest `Weight`.
pub open spec fn saturating_add_weight(a: Weight, b: Weight) -> Weight {
    if a + b > u64::MAX {
        u64::MAX
    } else {
        (a + b) as u64
    }
}

/// `a * b`, saturated at the largest `Weight`.
pub open spec fn saturating_mul_weight(a: Weight, b: Weight) -> Weight {
    if a * b > u64::MAX {
        u64::MAX
    } else {
        (a * b) as u64
    }
}

/// The weight of one database read and of one database write.
#[derive(Clone, Copy, Debug, PartialEq, Eq, Structural)]
pub struct RuntimeDbWeight {
    pub read: Weight,
    pub write: Weight,
}

/// The weight of a call with base weight `base` that makes `reads` reads and `writes`
/// writes.
pub open spec fn call_weight(db: RuntimeDbWeight, base: Weight, reads: Weight, writes: Weight) -> Weight {
    saturating_add_weight(
        saturating_add_weight(base, saturating_mul_weight(db.read, reads)),
        saturating_mul_weight(db.write, writes),
    )
}

/// `a * b`, saturated at the largest `Weight`.
fn saturating_mul(a: Weight, b: Weight) -> (r: Weight)
    ensures
        r == saturating_mul_weight(a, b),
        a * b <= u64::MAX ==> r == a * b,
        a * b > u64::MAX ==> r == u64::MAX,
{
    match a.checked_mul(b) {
        Some(p) => p,
        None => u64::MAX,
    }
}

impl RuntimeDbWeight {
    /// The weight of `r` reads.
    pub fn reads(&self, r: Weight) -> (w: Weight)
        ensures
            w == saturating_mul_weight(self.read, r),
            self.read * r <= u64::MAX ==> w == self.read * r,
            self.read * r > u64::MAX ==> w == u64::MAX,
    {
        saturating_mul(self.read, r)
    }

    /// The weight of `w` writes.
    pub fn writes(&self, w: Weight) -> (r: Weight)
        ensures
            r == saturating_mul_weight(self.write, w),
            self.write * w <= u64::MAX ==> r == self.write * w,
            self.write * w > u64::MAX ==> r == u64::MAX,
    {
        saturating_mul(self.write, w)
    }
}

/// The benchmarked weights of the pallet's calls for a runtime with the given database
/// weights.
#[derive(Clone, Copy, Debug, PartialEq, Eq, Structural)]
pub struct WeightInfo {
    pub db_weight: RuntimeDbWeight,
}

/// The weight of a call is its base weight plus the read weight times the number of
/// reads plus the write weight times the number of writes, saturated at the largest
/// `Weight`.
pub proof fn law_call_weight_formula(db: RuntimeDbWeight, base: Weight, reads: Weight, writes: Weight)
    ensures
        base + db.read * reads + db.write * writes <= u64::MAX ==> call_weight(db, base, reads, writes)
            == base + db.read * reads + db.write * writes,
        base + db.read * reads + db.write * writes > u64::MAX ==> call_weight(db, base, reads, writes)
            == u64::MAX,
{
    assert(0 <= db.read * reads && 0 <= db.write * writes) by (nonlinear_arith);
}

impl WeightInfo {
    /// No reads and no writes cost nothing.
    proof fn lemma_no_reads(db: RuntimeDbWeight, base: Weight, writes: Weight)
        ensures
            call_weight(db, base, 0, writes) == saturating_add_weight(
                base,
                saturating_mul_weight(db.write, writes),
            ),
    {
        assert(db.read * 0 == 0);
    }

    pub fn on_idle(&self) -> (w: Weight)
        ensures
            w == 0,
    {
        0
    }

    pub fn mint(&self) -> (w: Weight)
        ensures
            w == call_weight(self.db_weight, 129_000_000, 14, 7),
            129_000_000 + self.db_weight.read * 14 + self.db_weight.write * 7 <= u64::MAX
                ==> w == 129_000_000 + self.db_weight.read * 14 + self.db_weight.write * 7,
            129_000_000 + self.db_weight.read * 14 + self.db_weight.write * 7 > u64::MAX
                ==> w == u64::MAX,
    {
        129_000_000u64.saturating_add(self.db_weight.reads(14)).saturating_add(
            self.db_weight.writes(7),
        )
    }

    pub fn mint_for_requests(&self) -> (w: Weight)
        ensures
            w == call_weight(self.db_weight, 332_000_000, 30, 21),
            332_000_000 + self.db_weight.read * 30 + self.db_weight.write * 21 <= u64::MAX
                ==> w == 332_000_000 + self.db_weight.read * 30 + self.db_weight.write * 21,
            332_000_000 + self.db_weight.read * 30 + self.db_weight.write * 21 > u64::MAX
                ==> w == u64::MAX,
    {
        332_000_000u64.saturating_add(self.db_weight.reads(30)).saturating_add(
            self.db_weight.writes(21),
        )
    }

    pub fn set_total_staking_currency(&self) -> (w: Weight)
        ensures
            w == call_weight(self.db_weight, 10_000_000, 0, 1),
            10_000_000 + self.db_weight.read * 0 + self.db_weight.write * 1 <= u64::MAX
                ==> w == 10_000_000 + self.db_weight.read * 0 + self.db_weight.write * 1,
            10_000_000 + self.db_weight.read * 0 + self.db_weight.write * 1 > u64::MAX
                ==> w == u64::MAX,
    {
        proof {
            Self::lemma_no_reads(self.db_weight, 10_000_000, 1);
        }
        10_000_000u64.saturating_add(self.db_weight.writes(1))
    }

    pub fn adjust_total_staking_currency(&self) -> (w: Weight)
        ensures
            w == call_weight(self.db_weight, 12_000_000, 1, 1),
            12_000_000 + self.db_weight.read * 1 + self.db_weight.write * 1 <= u64::MAX
                ==> w == 12_000_000 + self.db_weight.read * 1 + self.db_weight.write * 1,
            12_000_000 + self.db_weight.read * 1 + self.db_weight.write * 1 > u64::MAX
                ==> w == u64::MAX,
    {
        12_000_000u64.saturating_add(self.db_weight.reads(1)).saturating_add(
            self.db_weight.writes(1),
        )
    }

    pub fn set_minting_cap(&self) -> (w: Weight)
        ensures
            w == call_weight(self.db_weight, 10_000_000, 0, 1),
            10_000_000 + self.db_weight.read * 0 + self.db_weight.write * 1 <= u64::MAX
                ==> w == 10_000_000 + self.db_weight.read * 0 + self.db_weight.write * 1,
            10_000_000 + self.db_weight.read * 0 + self.db_weight.write * 1 > u64::MAX
                ==> w == u64::MAX,
    {
        proof {
            Self::lemma_no_reads(self.db_weight, 10_000_000, 1);
        }
        10_000_000u64.saturating_add(self.db_weight.writes(1))
    }

    pub fn set_xcm_base_weight(&self) -> (w: Weight)
        ensures
            w == call_weight(self.db_weight, 10_000_000, 0, 1),
            10_000_000 + self.db_weight.read * 0 + self.db_weight.write * 1 <= u64::MAX
                ==> w == 10_000_000 + self.db_weight.read * 0 + self.db_weight.write * 1,
            10_000_000 + self.db_weight.read * 0 + self.db_weight.write * 1 > u64::MAX
                ==> w == u64::MAX,
    {
        proof {
            Self::lemma_no_reads(self.db_weight, 10_000_000, 1);
        }
        10_000_000u64.saturating_add(self.db_weight.writes(1))
    }

    pub fn request_redeem(&self) -> (w: Weight)
        ensures
            w == call_weight(self.db_weight, 69_000_000, 6, 3),
            69_000_000 + self.db_weight.read * 6 + self.db_weight.write * 3 <= u64::MAX
                ==> w == 69_000_000 + self.db_weight.read * 6 + self.db_weight.write * 3,
            69_000_000 + self.db_weight.read * 6 + self.db_weight.write * 3 > u64::MAX
                ==> w == u64::MAX,
    {
        69_000_000u64.saturating_add(self.db_weight.reads(6)).saturating_add(
            self.db_weight.writes(3),
        )
    }

    pub fn schedule_unbond(&self) -> (w: Weight)
        ensures
            w == call_weight(self.db_weight, 12_000_000, 1, 1),
            12_000_000 + self.db_weight.read * 1 + self.db_weight.write * 1 <= u64::MAX
                ==> w == 12_000_000 + self.db_weight.read * 1 + self.db_weight.write * 1,
            12_000_000 + self.db_weight.read * 1 + self.db_weight.write * 1 > u64::MAX
                ==> w == u64::MAX,
    {
        12_000_000u64.saturating_add(self.db_weight.reads(1)).saturating_add(
            self.db_weight.writes(1),
        )
    }

    pub fn replace_schedule_unbond(&self) -> (w: Weight)
        ensures
            w == call_weight(self.db_weight, 10_000_000, 0, 1),
            10_000_000 + self.db_weight.read * 0 + self.db_weight.write * 1 <= u64::MAX
                ==> w == 10_000_000 + self.db_weight.read * 0 + self.db_weight.write * 1,
            10_000_000 + self.db_weight.read * 0 + self.db_weight.write * 1 > u64::MAX
                ==> w == u64::MAX,
    {
        proof {
            Self::lemma_no_reads(self.db_weight, 10_000_000, 1);
        }
        10_000_000u64.saturating_add(self.db_weight.writes(1))
    }
}

} // verus!
