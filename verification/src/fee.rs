//! Fee estimation for legacy pay-to-key-hash transactions, and the funds
//! resolution rule that folds dust-sized change into the fee.

use crate::errors::WalletError;
use vstd::prelude::*;

verus! {

/// Fixed overhead of a legacy transaction in bytes.
pub const LEGACY_BASE_TX_SIZE: u64 = 10;

/// Estimated size of one signed pay-to-key-hash input.
pub const LEGACY_P2PKH_INPUT_SIZE: u64 = 148;

/// Estimated size of one output.
pub const LEGACY_OUTPUT_SIZE: u64 = 34;

/// Outputs below this value are not relayed; such change is folded into the
/// fee instead.
pub const LEGACY_P2PKH_DUST_LIMIT: u64 = 546;

/// The integer fee for a transaction of `inputs` inputs and `outputs`
/// outputs at `fee_per_kb` base units per 1000 bytes, rounded up; `Overflow`
/// when the size or the fee leaves the 64-bit range.
pub open spec fn estimated_fee(inputs: nat, outputs: nat, fee_per_kb: nat) -> Result<
    u64,
    WalletError,
> {
    let size = 10 + inputs * 148 + outputs * 34;
    if size > u64::MAX {
        Err(WalletError::Overflow)
    } else if size * fee_per_kb + 999 > u64::MAX {
        Err(WalletError::Overflow)
    } else {
        Ok((((size * fee_per_kb) + 999) / 1000) as u64)
    }
}

/// Estimates the fee from the legacy sizing model:
/// `10 + inputs * 148 + outputs * 34` bytes at `fee_per_kb` per 1000 bytes,
/// rounded up to the next base unit.
pub fn estimate_legacy_tx_fee(inputs: usize, outputs: usize, fee_per_kb: u64) -> (r: Result<
    u64,
    WalletError,
>)
    ensures
        r == estimated_fee(inputs as nat, outputs as nat, fee_per_kb as nat),
{
    let input_part = match (inputs as u64).checked_mul(LEGACY_P2PKH_INPUT_SIZE) {
        Some(v) => v,
        None => {
            return Err(WalletError::Overflow);
        },
    };
    let output_part = match (outputs as u64).checked_mul(LEGACY_OUTPUT_SIZE) {
        Some(v) => v,
        None => {
            return Err(WalletError::Overflow);
        },
    };
    let size = match LEGACY_BASE_TX_SIZE.checked_add(input_part) {
        Some(v) => match v.checked_add(output_part) {
            Some(w) => w,
            None => {
                return Err(WalletError::Overflow);
            },
        },
        None => {
            return Err(WalletError::Overflow);
        },
    };
    let numerator = match size.checked_mul(fee_per_kb) {
        Some(v) => match v.checked_add(999) {
            Some(w) => w,
            None => {
                return Err(WalletError::Overflow);
            },
        },
        None => {
            return Err(WalletError::Overflow);
        },
    };
    Ok(numerator / 1000)
}

/// The change amount and final fee of a build, or the error it must report.
///
/// `target` is the sum of the non-change outputs. When the inputs cannot
/// cover `target + fee` the build owes `InsufficientFunds`; when the
/// remainder is positive but below the dust limit it is folded into the fee
/// and the change is zero.
pub open spec fn resolved_funds(total_input: u64, target: u64, fee: u64) -> Result<
    (u64, u64),
    WalletError,
> {
    if target + fee > u64::MAX {
        Err(WalletError::Overflow)
    } else if target + fee > total_input {
        Err(
            WalletError::InsufficientFunds {
                available: total_input,
                required: (target + fee) as u64,
            },
        )
    } else {
        let change = (total_input - target - fee) as u64;
        if 0 < change < 546 {
            Ok((0u64, (fee + change) as u64))
        } else {
            Ok((change, fee))
        }
    }
}

/// Resolves the change output and final fee under the dust rule.
pub fn resolve_funds(total_input: u64, target: u64, fee: u64) -> (r: Result<
    (u64, u64),
    WalletError,
>)
    ensures
        r == resolved_funds(total_input, target, fee),
{
    let required = match target.checked_add(fee) {
        Some(v) => v,
        None => {
            return Err(WalletError::Overflow);
        },
    };
    if required > total_input {
        return Err(
            WalletError::InsufficientFunds { available: total_input, required },
        );
    }
    let change = total_input - required;
    if change > 0 && change < LEGACY_P2PKH_DUST_LIMIT {
        Ok((0, fee + change))
    } else {
        Ok((change, fee))
    }
}

/// Funds rule: whenever the outputs plus the fee exceed the inputs, the
/// build fails with `InsufficientFunds` carrying the exact shortfall.
pub proof fn lemma_insufficient_funds(total_input: u64, target: u64, fee: u64)
    requires
        target + fee <= u64::MAX,
        target + fee > total_input,
    ensures
        resolved_funds(total_input, target, fee) == Err::<(u64, u64), WalletError>(
            WalletError::InsufficientFunds {
                available: total_input,
                required: (target + fee) as u64,
            },
        ),
{
}

/// Dust rule: a remainder of 1 to 545 base units yields no change and is
/// added to the fee; a remainder of 546 or more becomes the change output
/// with the fee unchanged.
pub proof fn lemma_dust_folding(total_input: u64, target: u64, fee: u64)
    requires
        target + fee <= total_input,
    ensures
        ({
            let remainder = total_input - target - fee;
            &&& (0 < remainder < 546 ==> resolved_funds(total_input, target, fee) == Ok::<
                (u64, u64),
                WalletError,
            >((0u64, (fee + remainder) as u64)))
            &&& (remainder >= 546 ==> resolved_funds(total_input, target, fee) == Ok::<
                (u64, u64),
                WalletError,
            >((remainder as u64, fee)))
            &&& (remainder == 0 ==> resolved_funds(total_input, target, fee) == Ok::<
                (u64, u64),
                WalletError,
            >((0u64, fee)))
        }),
{
}

} // verus!
