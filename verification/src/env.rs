//! Deterministic environment builder.
//!
//! From a fixed seed this builds an identity (signing key, viewing key,
//! address) and a fresh ledger whose genesis block was generated by that
//! identity from the same seed.  Workers rebuild the same environment
//! independently, so the cached deployment blocks replay against each
//! worker's own ledger.

use vstd::prelude::*;

use crate::errors::PipelineError;
use crate::ledger::{
    address_for, address_of_key, block_height_of, gen_private_key, genesis_block, genesis_of,
    key_of_state, ledger_height_of, ledger_tip_of, load_ledger, open_store, rng_fixed,
    seed_state_of, state_after_key, view_key_for, view_key_of, vm_from_store, AddressHandle,
    LedgerHandle, PrivateKeyHandle, ViewKeyHandle,
};

verus! {

/// The seed every run builds its environment from.
pub const GENESIS_SEED: u64 = 6404264900108107703;

/// A signing key with its derived viewing key and address, generated once
/// per environment build and immutable for the run.
pub struct Identity {
    pub private_key: PrivateKeyHandle,
    pub view_key: ViewKeyHandle,
    pub address: AddressHandle,
}

/// An identity together with a ledger freshly initialized from the
/// identity's genesis block.
pub struct Environment {
    pub identity: Identity,
    pub ledger: LedgerHandle,
}

/// Holds of an environment built from `seed`: the signing key is the one
/// the seeded random source yields, the derived keys come from it, and
/// the ledger's only committed block — its tip, at height zero — is the
/// genesis block built for that key.  All of these are functions of the
/// seed alone, so two environments built from equal seeds agree on them.
pub open spec fn env_built_from(env: Environment, seed: u64) -> bool {
    &&& env.identity.private_key == key_of_state(seed_state_of(seed))
    &&& env.identity.view_key == view_key_of(env.identity.private_key)
    &&& env.identity.address == address_of_key(env.identity.private_key)
    &&& ledger_tip_of(env.ledger) == genesis_of(
        key_of_state(seed_state_of(seed)),
        state_after_key(seed_state_of(seed)),
    )
    &&& ledger_height_of(env.ledger) == 0
    &&& block_height_of(ledger_tip_of(env.ledger)) == 0
}

/// Reproducibility of the environment: two environments built from the
/// same seed share the signing key, the derived keys, and the genesis
/// block standing at the ledger tip.  (Only what is drawn afterwards
/// from unseeded randomness — the per-transaction signing randomness —
/// differs between runs.)
pub proof fn lemma_environment_reproducible(seed: u64, a: Environment, b: Environment)
    requires
        env_built_from(a, seed),
        env_built_from(b, seed),
    ensures
        a.identity.private_key == b.identity.private_key,
        a.identity.view_key == b.identity.view_key,
        a.identity.address == b.identity.address,
        ledger_tip_of(a.ledger) == ledger_tip_of(b.ledger),
{
}

/// Builds a reproducible environment from the seed: the genesis block is
/// the only committed block, so the ledger's height starts at zero, the
/// identity's viewing key and address are the ones derived from its
/// signing key, and key, genesis and tip are functions of the seed.
/// Any construction failure is a fatal setup error.
pub fn build_environment(seed: u64) -> (r: Result<Environment, PipelineError>)
    ensures
        r matches Ok(env) ==> ledger_height_of(env.ledger) == 0,
        r matches Ok(env) ==> env_built_from(env, seed),
        r matches Err(e) ==> e == PipelineError::Setup,
{
    let mut rng = rng_fixed(seed);
    let private_key = match gen_private_key(&mut rng) {
        Ok(k) => k,
        Err(_) => return Err(PipelineError::Setup),
    };
    let view_key = match view_key_for(&private_key) {
        Ok(k) => k,
        Err(_) => return Err(PipelineError::Setup),
    };
    let address = match address_for(&private_key) {
        Ok(a) => a,
        Err(_) => return Err(PipelineError::Setup),
    };
    let store = match open_store() {
        Ok(s) => s,
        Err(_) => return Err(PipelineError::Setup),
    };
    let vm = match vm_from_store(store) {
        Ok(v) => v,
        Err(_) => return Err(PipelineError::Setup),
    };
    let genesis = match genesis_block(&vm, &private_key, &mut rng) {
        Ok(b) => b,
        Err(_) => return Err(PipelineError::Setup),
    };
    let ledger = match load_ledger(genesis) {
        Ok(l) => l,
        Err(_) => return Err(PipelineError::Setup),
    };
    Ok(Environment { identity: Identity { private_key, view_key, address }, ledger })
}

} // verus!
