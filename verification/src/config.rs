//! The singleton sponsor configuration and the store that creates it once.

use vstd::prelude::*;

use crate::types::PaymasterError;
use crate::types::Pubkey;

verus! {

/// The most supported tokens a configuration may record: the storage for the
/// configuration is allocated once, at creation, with room for this many.
pub const MAX_SUPPORTED_TOKENS: usize = 10;

/// The singleton sponsor configuration: who may be recognised as sponsor,
/// the sponsor's markup, and which tokens may settle a fee. None of its
/// fields is ever mutated after creation.
#[derive(Clone, Debug)]
pub struct PaymasterConfig {
    /// The identity recognised as sponsor on every privileged operation.
    pub authority: Pubkey,
    /// The sponsor's markup in basis points (100 = 1%).
    pub service_fee_rate: u64,
    /// The tokens eligible for token-denominated settlement.
    pub supported_tokens: Vec<Pubkey>,
    /// The derivation tag fixing the address the configuration is stored at.
    pub bump: u8,
}

impl PaymasterConfig {
    /// The supported-token set fits the storage allocated at creation.
    pub open spec fn wf(self) -> bool {
        self.supported_tokens@.len() <= MAX_SUPPORTED_TOKENS
    }

    /// Whether `token` may settle a fee under this configuration.
    pub fn is_supported(&self, token: &Pubkey) -> (r: bool)
        ensures
            r == self.supported_tokens@.contains(*token),
    {
        let n = self.supported_tokens.len();
        let mut i: usize = 0;
        while i < n
            invariant
                i <= n,
                n == self.supported_tokens@.len(),
                forall|j: int| 0 <= j < i ==> self.supported_tokens@[j] != *token,
            decreases n - i,
        {
            if self.supported_tokens[i] == *token {
                assert(self.supported_tokens@.contains(*token)) by {
                    assert(self.supported_tokens@[i as int] == *token);
                }
                return true;
            }
            i += 1;
        }
        false
    }
}

/// The accounts supplied to `initialize`: the signer paying for the
/// configuration's storage, who becomes the recorded authority, and the
/// derivation tag of the address the configuration will live at.
#[derive(Clone, Copy, Debug, PartialEq, Eq, Structural)]
pub struct Initialize {
    /// The signer creating the configuration.
    pub authority: Pubkey,
    /// The derivation tag of the configuration's address.
    pub bump: u8,
}

/// The deployment's one slot for the sponsor configuration, located at its
/// deterministically derived address: either empty or holding the singleton.
#[derive(Clone, Debug)]
pub struct ConfigStore {
    /// The configuration, once `initialize` has created it.
    pub config: Option<PaymasterConfig>,
}

impl ConfigStore {
    /// Any configuration the store holds fits its storage.
    pub open spec fn wf(self) -> bool {
        self.config is Some ==> self.config->Some_0.wf()
    }

    /// A fresh deployment holds no configuration.
    pub fn new() -> (r: ConfigStore)
        ensures
            r.config is None,
            r.wf(),
    {
        ConfigStore { config: None }
    }
}

/// Creates the singleton configuration, recording the caller as authority.
/// Fails with `AlreadyInitialized` if the store already holds one, and with
/// `CapacityExceeded` if more tokens are supplied than the storage allocated
/// for the configuration can hold; on failure the store is untouched.
pub fn initialize(
    store: &mut ConfigStore,
    ctx: &Initialize,
    service_fee_rate: u64,
    supported_tokens: Vec<Pubkey>,
) -> (r: Result<(), PaymasterError>)
    ensures
        r is Ok <==> old(store).config is None && supported_tokens@.len()
            <= MAX_SUPPORTED_TOKENS,
        old(store).config is Some ==> r == Err::<(), PaymasterError>(
            PaymasterError::AlreadyInitialized,
        ),
        old(store).config is None && supported_tokens@.len() > MAX_SUPPORTED_TOKENS ==> r
            == Err::<(), PaymasterError>(PaymasterError::CapacityExceeded),
        r is Err ==> *final(store) == *old(store),
        r is Ok ==> {
            &&& final(store).config is Some
            &&& final(store).config->Some_0.authority == ctx.authority
            &&& final(store).config->Some_0.service_fee_rate == service_fee_rate
            &&& final(store).config->Some_0.supported_tokens@ == supported_tokens@
            &&& final(store).config->Some_0.bump == ctx.bump
        },
        r is Ok ==> final(store).wf(),
        old(store).wf() ==> final(store).wf(),
{
    if store.config.is_some() {
        return Err(PaymasterError::AlreadyInitialized);
    }
    if supported_tokens.len() > MAX_SUPPORTED_TOKENS {
        return Err(PaymasterError::CapacityExceeded);
    }
    store.config = Some(
        PaymasterConfig {
            authority: ctx.authority,
            service_fee_rate,
            supported_tokens,
            bump: ctx.bump,
        },
    );
    Ok(())
}

} // verus!
