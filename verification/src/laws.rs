//! Laws of the settlement paths, stated over the same spec functions the
//! paths' own contracts use.

use vstd::prelude::*;

use crate::config::ConfigStore;
use crate::fees::native_total_overflows;
use crate::fees::spec_native_total;
use crate::pay::spec_sol_pay;
use crate::pay::spec_usdt_pay;
use crate::pay::SolPay;
use crate::pay::UsdtPay;
use crate::types::PaymasterError;

verus! {

/// Law: a supplied authority differing from the configured one is refused
/// with `InvalidAuthority` on either settlement path, whatever the other
/// inputs are.
pub proof fn lemma_authority_guards_both_paths(
    store: ConfigStore,
    sol: SolPay,
    usdt: UsdtPay,
    base_fee: int,
    sol_usdt_rate: int,
)
    requires
        store.config is Some,
        sol.authority != store.config->Some_0.authority,
        usdt.authority != store.config->Some_0.authority,
    ensures
        spec_sol_pay(store, sol, base_fee) == Err::<int, PaymasterError>(
            PaymasterError::InvalidAuthority,
        ),
        spec_usdt_pay(store, usdt, base_fee, sol_usdt_rate) == Err::<int, PaymasterError>(
            PaymasterError::InvalidAuthority,
        ),
{
}

/// Law: on the native path, a payer balance exactly equal to the computed
/// total is accepted, and one unit less is refused as insufficient.
pub proof fn lemma_native_balance_boundary(
    store: ConfigStore,
    ctx_exact: SolPay,
    ctx_short: SolPay,
    base_fee: int,
)
    requires
        store.config is Some,
        ctx_exact.authority == store.config->Some_0.authority,
        ctx_short.authority == store.config->Some_0.authority,
        base_fee >= 0,
        !native_total_overflows(base_fee, store.config->Some_0.service_fee_rate as int),
        ctx_exact.user_lamports == spec_native_total(
            base_fee,
            store.config->Some_0.service_fee_rate as int,
        ),
        ctx_short.user_lamports == spec_native_total(
            base_fee,
            store.config->Some_0.service_fee_rate as int,
        ) - 1,
    ensures
        spec_sol_pay(store, ctx_exact, base_fee) is Ok,
        spec_sol_pay(store, ctx_short, base_fee) == Err::<int, PaymasterError>(
            PaymasterError::InsufficientFunds,
        ),
{
}

/// Law: on the token path, a token outside the configured supported set is
/// refused with `UnsupportedToken`, ahead of every computation and of the
/// transfer, whatever the amounts and the rate are.
pub proof fn lemma_unsupported_token_refused(
    store: ConfigStore,
    ctx: UsdtPay,
    base_fee: int,
    sol_usdt_rate: int,
)
    requires
        store.config is Some,
        ctx.authority == store.config->Some_0.authority,
        !store.config->Some_0.supported_tokens@.contains(ctx.usdt_mint),
    ensures
        spec_usdt_pay(store, ctx, base_fee, sol_usdt_rate) == Err::<int, PaymasterError>(
            PaymasterError::UnsupportedToken,
        ),
{
}

} // verus!
