//! Fee computation: the sponsor's markup over a base fee, in native units or
//! in a token's minor units. Every step is overflow-checked; overflow is
//! reported, never wrapped.

use vstd::prelude::*;

use crate::config::PaymasterConfig;
use crate::types::PaymasterError;
use crate::types::Pubkey;

verus! {

/// Rates are in basis points: this many parts make the whole.
pub const RATE_SCALE: u64 = 10000;

/// Minor units per token major unit: the token keeps six decimal places.
pub const TOKEN_MINOR_UNITS: u64 = 1000000;

/// The sponsor's markup on `base_fee`: the rate applied in basis points,
/// rounded down.
pub open spec fn spec_service_fee(base_fee: int, fee_rate: int) -> int {
    (base_fee * fee_rate) / (RATE_SCALE as int)
}

/// What the native path charges: the base fee plus the markup.
pub open spec fn spec_native_total(base_fee: int, fee_rate: int) -> int {
    base_fee + spec_service_fee(base_fee, fee_rate)
}

/// Whether the native-path computation leaves the 64-bit range at some step.
pub open spec fn native_total_overflows(base_fee: int, fee_rate: int) -> bool {
    ||| base_fee * fee_rate > u64::MAX
    ||| spec_native_total(base_fee, fee_rate) > u64::MAX
}

/// What the token path charges, in token minor units: the native total put
/// through the exchange rate (basis points, rounded down once, there) and
/// then scaled to minor units. The rounding happens at the rate division
/// only, never at the scaling.
pub open spec fn spec_token_total(base_fee: int, fee_rate: int, exchange_rate: int) -> int {
    (spec_native_total(base_fee, fee_rate) * exchange_rate / (RATE_SCALE as int)) * (
    TOKEN_MINOR_UNITS as int)
}

/// Whether the token-path computation leaves the 64-bit range at some step.
pub open spec fn token_total_overflows(base_fee: int, fee_rate: int, exchange_rate: int) -> bool {
    ||| native_total_overflows(base_fee, fee_rate)
    ||| spec_native_total(base_fee, fee_rate) * exchange_rate > u64::MAX
    ||| spec_token_total(base_fee, fee_rate, exchange_rate) > u64::MAX
}

/// The total owed on the native path: `base_fee` plus
/// `floor(base_fee * fee_rate / 10000)`. Succeeds exactly when no step of
/// that computation leaves the 64-bit range; otherwise reports
/// `ArithmeticOverflow` rather than wrapping.
pub fn compute_native_total(base_fee: u64, fee_rate: u64) -> (r: Result<u64, PaymasterError>)
    ensures
        r is Ok <==> !native_total_overflows(base_fee as int, fee_rate as int),
        r is Ok ==> r->Ok_0 == spec_native_total(base_fee as int, fee_rate as int),
        r is Err ==> r->Err_0 == PaymasterError::ArithmeticOverflow,
{
    match base_fee.checked_mul(fee_rate) {
        None => Err(PaymasterError::ArithmeticOverflow),
        Some(product) => {
            let service_fee: u64 = product / RATE_SCALE;
            match base_fee.checked_add(service_fee) {
                None => Err(PaymasterError::ArithmeticOverflow),
                Some(total) => Ok(total),
            }
        },
    }
}

/// The total owed on the token path, in minor units of `token`:
/// `floor(native_total * exchange_rate / 10000) * 1_000_000`. Rejects a
/// `token` outside the configured supported set before anything is computed;
/// after that, succeeds exactly when no step leaves the 64-bit range.
pub fn compute_token_total(
    config: &PaymasterConfig,
    token: &Pubkey,
    base_fee: u64,
    exchange_rate: u64,
) -> (r: Result<u64, PaymasterError>)
    ensures
        !config.supported_tokens@.contains(*token) ==> r == Err::<u64, PaymasterError>(
            PaymasterError::UnsupportedToken,
        ),
        config.supported_tokens@.contains(*token) ==> (r is Ok <==> !token_total_overflows(
            base_fee as int,
            config.service_fee_rate as int,
            exchange_rate as int,
        )),
        r is Ok ==> r->Ok_0 == spec_token_total(
            base_fee as int,
            config.service_fee_rate as int,
            exchange_rate as int,
        ),
        config.supported_tokens@.contains(*token) && r is Err ==> r->Err_0
            == PaymasterError::ArithmeticOverflow,
{
    if !config.is_supported(token) {
        return Err(PaymasterError::UnsupportedToken);
    }
    let total_native = match compute_native_total(base_fee, config.service_fee_rate) {
        Err(e) => {
            return Err(e);
        },
        Ok(t) => t,
    };
    match total_native.checked_mul(exchange_rate) {
        None => Err(PaymasterError::ArithmeticOverflow),
        Some(scaled) => {
            let rated: u64 = scaled / RATE_SCALE;
            match rated.checked_mul(TOKEN_MINOR_UNITS) {
                None => Err(PaymasterError::ArithmeticOverflow),
                Some(total) => Ok(total),
            }
        },
    }
}

} // verus!
