//! The settlement paths: authorize the request, compute the total, and move
//! it from the payer to the sponsor's collection account — or fail at the
//! first refused check with every balance untouched.

use vstd::prelude::*;

use crate::config::ConfigStore;
use crate::config::PaymasterConfig;
use crate::fees::compute_native_total;
use crate::fees::compute_token_total;
use crate::fees::native_total_overflows;
use crate::fees::spec_native_total;
use crate::fees::spec_token_total;
use crate::fees::token_total_overflows;
use crate::types::PaymasterError;
use crate::types::Pubkey;

verus! {

/// Succeeds exactly when the supplied authority is the configured one; any
/// other identity is refused with `InvalidAuthority`. No side effects.
pub fn verify_authority(config: &PaymasterConfig, supplied: &Pubkey) -> (r: Result<
    (),
    PaymasterError,
>)
    ensures
        r is Ok <==> *supplied == config.authority,
        r is Err ==> r->Err_0 == PaymasterError::InvalidAuthority,
{
    if *supplied == config.authority {
        Ok(())
    } else {
        Err(PaymasterError::InvalidAuthority)
    }
}

/// The accounts the native settlement path reads and writes: the payer's
/// native balance, the sponsor collection account's native balance, and the
/// caller-supplied authority account.
#[derive(Clone, Copy, Debug, PartialEq, Eq, Structural)]
pub struct SolPay {
    /// The payer's native balance.
    pub user_lamports: u64,
    /// The sponsor collection account's native balance.
    pub paymaster_recv_lamports: u64,
    /// The authority account supplied with the request.
    pub authority: Pubkey,
}

/// The accounts the token settlement path reads and writes: the token being
/// offered, the payer's and the sponsor's token-account balances, and the
/// caller-supplied authority account.
#[derive(Clone, Copy, Debug, PartialEq, Eq, Structural)]
pub struct UsdtPay {
    /// The token the payer offers to settle in.
    pub usdt_mint: Pubkey,
    /// The payer's balance on the token ledger, in minor units.
    pub user_usdt: u64,
    /// The sponsor collection account's balance on the token ledger.
    pub paymaster_usdt: u64,
    /// The authority account supplied with the request.
    pub authority: Pubkey,
}

/// What the native path decides for a given store, request and base fee:
/// the first failing check's error, or the total to be transferred.
pub open spec fn spec_sol_pay(store: ConfigStore, ctx: SolPay, base_fee: int) -> Result<
    int,
    PaymasterError,
> {
    if store.config is None {
        Err(PaymasterError::ConfigNotInitialized)
    } else {
        let config = store.config->Some_0;
        if ctx.authority != config.authority {
            Err(PaymasterError::InvalidAuthority)
        } else if native_total_overflows(base_fee, config.service_fee_rate as int) {
            Err(PaymasterError::ArithmeticOverflow)
        } else if (ctx.user_lamports as int) < spec_native_total(
            base_fee,
            config.service_fee_rate as int,
        ) {
            Err(PaymasterError::InsufficientFunds)
        } else {
            Ok(spec_native_total(base_fee, config.service_fee_rate as int))
        }
    }
}

/// What the token path decides for a given store, request, base fee and
/// exchange rate: the first failing check's error, or the total in token
/// minor units to be transferred. The token ledger's own balance check is
/// the last step, after every check this engine makes itself.
pub open spec fn spec_usdt_pay(
    store: ConfigStore,
    ctx: UsdtPay,
    base_fee: int,
    sol_usdt_rate: int,
) -> Result<int, PaymasterError> {
    if store.config is None {
        Err(PaymasterError::ConfigNotInitialized)
    } else {
        let config = store.config->Some_0;
        if ctx.authority != config.authority {
            Err(PaymasterError::InvalidAuthority)
        } else if !config.supported_tokens@.contains(ctx.usdt_mint) {
            Err(PaymasterError::UnsupportedToken)
        } else if token_total_overflows(base_fee, config.service_fee_rate as int, sol_usdt_rate) {
            Err(PaymasterError::ArithmeticOverflow)
        } else if (ctx.user_usdt as int) < spec_token_total(
            base_fee,
            config.service_fee_rate as int,
            sol_usdt_rate,
        ) {
            Err(PaymasterError::InsufficientFunds)
        } else {
            Ok(spec_token_total(base_fee, config.service_fee_rate as int, sol_usdt_rate))
        }
    }
}

/// The value-transfer primitive as the host ledger presents it to this
/// engine: atomically moves `amount` from one balance to the other, or
/// refuses an insufficient source and changes nothing.
fn ledger_transfer(from: &mut u64, to: &mut u64, amount: u64) -> (r: Result<(), PaymasterError>)
    requires
        *old(from) + *old(to) <= u64::MAX,
    ensures
        r is Ok <==> amount <= *old(from),
        r is Ok ==> *final(from) == *old(from) - amount && *final(to) == *old(to) + amount,
        r is Err ==> *final(from) == *old(from) && *final(to) == *old(to) && r->Err_0
            == PaymasterError::InsufficientFunds,
{
    if amount > *from {
        return Err(PaymasterError::InsufficientFunds);
    }
    *from = *from - amount;
    *to = *to + amount;
    Ok(())
}

/// Native settlement: authorize, compute the total, check the payer's
/// balance, then transfer exactly the total from payer to collection
/// account. On any failure the balances are left exactly as they were.
pub fn sol_pay(store: &ConfigStore, ctx: &mut SolPay, base_fee: u64) -> (r: Result<
    (),
    PaymasterError,
>)
    requires
        old(ctx).user_lamports + old(ctx).paymaster_recv_lamports <= u64::MAX,
    ensures
        (r is Ok) == (spec_sol_pay(*store, *old(ctx), base_fee as int) is Ok),
        r is Err ==> r->Err_0 == spec_sol_pay(*store, *old(ctx), base_fee as int)->Err_0
            && *final(ctx) == *old(ctx),
        r is Ok ==> {
            &&& final(ctx).user_lamports == old(ctx).user_lamports - spec_sol_pay(
                *store,
                *old(ctx),
                base_fee as int,
            )->Ok_0
            &&& final(ctx).paymaster_recv_lamports == old(ctx).paymaster_recv_lamports
                + spec_sol_pay(*store, *old(ctx), base_fee as int)->Ok_0
            &&& final(ctx).authority == old(ctx).authority
        },
{
    let config = match &store.config {
        None => {
            return Err(PaymasterError::ConfigNotInitialized);
        },
        Some(c) => c,
    };
    if let Err(e) = verify_authority(config, &ctx.authority) {
        return Err(e);
    }
    let total_fee = match compute_native_total(base_fee, config.service_fee_rate) {
        Err(e) => {
            return Err(e);
        },
        Ok(t) => t,
    };
    if ctx.user_lamports < total_fee {
        return Err(PaymasterError::InsufficientFunds);
    }
    ledger_transfer(&mut ctx.user_lamports, &mut ctx.paymaster_recv_lamports, total_fee)
}

/// Token settlement: authorize, refuse an unsupported token, compute the
/// total in token minor units, then hand the transfer to the token ledger,
/// whose own insufficiency check is the one balance check on this path. On
/// any failure the balances are left exactly as they were.
pub fn usdt_pay(store: &ConfigStore, ctx: &mut UsdtPay, base_fee: u64, sol_usdt_rate: u64) -> (r:
    Result<(), PaymasterError>)
    requires
        old(ctx).user_usdt + old(ctx).paymaster_usdt <= u64::MAX,
    ensures
        (r is Ok) == (spec_usdt_pay(*store, *old(ctx), base_fee as int, sol_usdt_rate as int)
            is Ok),
        r is Err ==> r->Err_0 == spec_usdt_pay(
            *store,
            *old(ctx),
            base_fee as int,
            sol_usdt_rate as int,
        )->Err_0 && *final(ctx) == *old(ctx),
        r is Ok ==> {
            &&& final(ctx).user_usdt == old(ctx).user_usdt - spec_usdt_pay(
                *store,
                *old(ctx),
                base_fee as int,
                sol_usdt_rate as int,
            )->Ok_0
            &&& final(ctx).paymaster_usdt == old(ctx).paymaster_usdt + spec_usdt_pay(
                *store,
                *old(ctx),
                base_fee as int,
                sol_usdt_rate as int,
            )->Ok_0
            &&& final(ctx).usdt_mint == old(ctx).usdt_mint
            &&& final(ctx).authority == old(ctx).authority
        },
{
    let config = match &store.config {
        None => {
            return Err(PaymasterError::ConfigNotInitialized);
        },
        Some(c) => c,
    };
    if let Err(e) = verify_authority(config, &ctx.authority) {
        return Err(e);
    }
    let total_fee_usdt = match compute_token_total(
        config,
        &ctx.usdt_mint,
        base_fee,
        sol_usdt_rate,
    ) {
        Err(e) => {
            return Err(e);
        },
        Ok(t) => t,
    };
    ledger_transfer(&mut ctx.user_usdt, &mut ctx.paymaster_usdt, total_fee_usdt)
}

} // verus!
