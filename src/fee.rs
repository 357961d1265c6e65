//! The platform's cut of a settled payment.
use vstd::prelude::*;

use crate::constants::GLOBAL_FEE_PERCENTAGE;
use crate::errors::ErrorCodes;

verus! {

/// The platform fee on a gross amount: `floor(gross * 5 / 100)`.
pub open spec fn fee_of(gross: int) -> int {
    gross * GLOBAL_FEE_PERCENTAGE / 100
}

/// What the beneficiary receives of a gross amount.
pub open spec fn net_of(gross: int) -> int {
    gross - fee_of(gross)
}

/// The intermediate product `gross * 5` fits in 64 bits.
pub open spec fn fee_fits(gross: u64) -> bool {
    gross * GLOBAL_FEE_PERCENTAGE <= u64::MAX
}

/// Splits a gross amount into `(fee, net)`; fails with `MathOverflow` exactly
/// when `gross * 5` overflows 64 bits.
pub fn split_payment(gross: u64) -> (r: Result<(u64, u64), ErrorCodes>)
    ensures
        match r {
            Ok((fee, net)) => fee_fits(gross) && fee == fee_of(gross as int) && net == net_of(
                gross as int,
            ),
            Err(e) => !fee_fits(gross) && e == ErrorCodes::MathOverflow,
        },
{
    let scaled = match gross.checked_mul(GLOBAL_FEE_PERCENTAGE) {
        Some(v) => v,
        None => {
            return Err(ErrorCodes::MathOverflow);
        },
    };
    let fee: u64 = scaled / 100;
    proof {
        lemma_fee_split(gross);
    }
    Ok((fee, gross - fee))
}

/// The fee and the net amount add up to the gross amount, and the fee never
/// exceeds it.
pub proof fn lemma_fee_split(gross: u64)
    ensures
        fee_of(gross as int) + net_of(gross as int) == gross,
        0 <= fee_of(gross as int) <= gross,
        0 <= net_of(gross as int) <= gross,
{
    assert(0 <= (gross as int) * 5 / 100 <= gross) by (nonlinear_arith);
}

} // verus!
