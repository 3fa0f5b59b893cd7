//! Fee-split arithmetic shared by every workflow that releases funds.

use vstd::prelude::*;

verus! {

/// Basis points in a whole.
pub const BPS_DENOMINATOR: u64 = 10000;

/// The hard ceiling on any platform fee rate (5%).
pub const MAX_FEE_BPS: u16 = 500;

/// The fee taken from a pool: `floor(pool * fee_bps / 10000)`.
pub open spec fn fee_of(pool: nat, fee_bps: nat) -> nat {
    (pool * fee_bps / BPS_DENOMINATOR as nat) as nat
}

/// What is left of the pool once the fee is taken.
pub open spec fn net_of(pool: nat, fee_bps: nat) -> int {
    pool - fee_of(pool, fee_bps)
}

/// Whether `pool * fee_bps` fits in 64 bits, as the checked product demands.
pub open spec fn fee_product_fits(pool: nat, fee_bps: nat) -> bool {
    pool * fee_bps <= u64::MAX
}

/// A pool divided between the platform and the payee.
#[derive(Clone, Copy, Debug, PartialEq, Eq)]
pub struct Split {
    pub fee: u64,
    pub net: u64,
}

/// Arithmetic failure: a product or sum left the 64-bit range.
#[derive(Clone, Copy, Debug, PartialEq, Eq)]
pub enum ArithmeticError {
    Overflow,
}

/// Splits `pool` into the platform fee and the net payout. The product is
/// checked: when it overflows the split fails instead of wrapping.
pub fn fee_split(pool: u64, fee_bps: u16) -> (r: Result<Split, ArithmeticError>)
    requires
        fee_bps <= MAX_FEE_BPS,
    ensures
        r is Ok <==> fee_product_fits(pool as nat, fee_bps as nat),
        r matches Ok(s) ==> s.fee == fee_of(pool as nat, fee_bps as nat) && s.net == net_of(
            pool as nat,
            fee_bps as nat,
        ),
{
    match pool.checked_mul(fee_bps as u64) {
        Some(product) => {
            let fee = product / BPS_DENOMINATOR;
            proof {
                lemma_fee_within_pool(pool as nat, fee_bps as nat);
            }
            Ok(Split { fee, net: pool - fee })
        },
        None => Err(ArithmeticError::Overflow),
    }
}

/// The pool of a two-party instance: both equal stakes together.
pub fn two_party_pool(stake: u64) -> (r: Result<u64, ArithmeticError>)
    ensures
        r is Ok <==> 2 * stake <= u64::MAX,
        r matches Ok(p) ==> p == 2 * stake,
{
    match stake.checked_add(stake) {
        Some(p) => Ok(p),
        None => Err(ArithmeticError::Overflow),
    }
}

/// For a rate up to the whole, the fee never exceeds the pool.
pub proof fn lemma_fee_within_pool(pool: nat, fee_bps: nat)
    requires
        fee_bps <= BPS_DENOMINATOR,
    ensures
        fee_of(pool, fee_bps) <= pool,
{
    assert(pool * fee_bps <= pool * 10000) by (nonlinear_arith)
        requires
            fee_bps <= 10000,
    ;
    assert(pool * fee_bps / 10000 <= pool * 10000 / 10000) by (nonlinear_arith)
        requires
            pool * fee_bps <= pool * 10000,
    ;
    assert(pool * 10000 / 10000 == pool) by (nonlinear_arith);
}

/// Rounding neither creates nor destroys value: for every pool and every
/// rate under the ceiling, fee and net add up to the pool, and the fee is
/// the floor of `pool * rate / 10000`.
pub proof fn lemma_split_conserves_pool(pool: u64, fee_bps: u16)
    requires
        fee_bps <= MAX_FEE_BPS,
    ensures
        fee_of(pool as nat, fee_bps as nat) + net_of(pool as nat, fee_bps as nat) == pool,
        fee_of(pool as nat, fee_bps as nat) == (pool as nat * fee_bps as nat) / 10000,
        0 <= net_of(pool as nat, fee_bps as nat) <= pool,
{
    lemma_fee_within_pool(pool as nat, fee_bps as nat);
}

} // verus!
