//! Parallel transaction generator: the per-worker share of the work.
//!
//! Each worker independently rebuilds the environment from the fixed
//! seed, replays the three cached deployment blocks into its own ledger,
//! and then invokes the top program's entry function once per assigned
//! job, producing one signed execution transaction per call.  Workers
//! never share a live ledger handle: only the cached artifacts.

use vstd::prelude::*;

use crate::deploy::{install_chain, ArtifactCache};
use crate::env::build_environment;
use crate::ledger::{block_parse_of, key_of_state, seed_state_of};
use crate::errors::PipelineError;
use crate::ledger::{
    address_of_key, execute_function, rng_entropy, tx_function_of, tx_program_of,
    tx_root_input_count_of, tx_signer_of, LedgerHandle, PrivateKeyHandle, TransactionHandle,
};

verus! {

/// The program id of the top-level entry point every execution
/// transaction targets.
pub fn spam_program_id() -> (s: &'static str)
    ensures
        s@ == "grandfather_spammer.aleo"@,
{
    "grandfather_spammer.aleo"
}

/// The function name of the top-level entry point.
pub fn spam_function_name() -> (s: &'static str)
    ensures
        s@ == "outer_most_call"@,
{
    "outer_most_call"
}

/// Holds when a transaction targets the top program's entry point.
pub open spec fn targets_entry_point(t: TransactionHandle) -> bool {
    tx_program_of(t) == "grandfather_spammer.aleo"@ && tx_function_of(t) == "outer_most_call"@
}

/// Holds when a transaction is an entry-point call authorized by the
/// given key's account with no inputs.
pub open spec fn entry_execution_by(t: TransactionHandle, pk: PrivateKeyHandle) -> bool {
    targets_entry_point(t) && tx_signer_of(t) == address_of_key(pk) && tx_root_input_count_of(t)
        == 0
}

/// Invokes the entry point `count` times against the given ledger,
/// each call with a fresh entropy-seeded random source so concurrent
/// transactions differ.  On success the result holds exactly one
/// transaction per call, in call order, each an entry-point call signed
/// by the given key's account with no inputs.
pub fn generate_transactions(
    l: &LedgerHandle,
    pk: &PrivateKeyHandle,
    count: usize,
) -> (r: Result<Vec<TransactionHandle>, PipelineError>)
    ensures
        r matches Ok(txs) ==> txs@.len() == count && (forall|i: int|
            0 <= i < txs@.len() ==> entry_execution_by(#[trigger] txs@[i], *pk)),
        r matches Err(e) ==> e == PipelineError::Execution,
{
    let mut out: Vec<TransactionHandle> = Vec::new();
    let mut i: usize = 0;
    while i < count
        invariant
            i <= count,
            out@.len() == i,
            forall|j: int| 0 <= j < out@.len() ==> entry_execution_by(#[trigger] out@[j], *pk),
        decreases count - i,
    {
        let mut rng = rng_entropy();
        let tx = match execute_function(l, pk, spam_program_id(), spam_function_name(), &mut rng) {
            Ok(t) => t,
            Err(_) => return Err(PipelineError::Execution),
        };
        out.push(tx);
        i = i + 1;
    }
    Ok(out)
}

/// One worker's whole task: rebuild the environment from the seed,
/// replay the three cached deployment blocks into the worker's own
/// ledger, then generate the worker's share of transactions.  On success
/// the result holds exactly `share` transactions, each an entry-point
/// call with no inputs, signed by the account of the seed's own key —
/// the same key in every worker built from the same seed.  A supplied
/// artifact that encodes no block forces a failure: there is no fallback
/// that rebuilds it.  A failure names its stage: setup, a corrupt or
/// invalid cached block, a failed commit, or a failed execution — the
/// worker serializes nothing.
pub fn worker_run(
    seed: u64,
    artifacts: &ArtifactCache,
    share: usize,
) -> (r: Result<Vec<TransactionHandle>, PipelineError>)
    requires
        artifacts.child is Some,
        artifacts.parent is Some,
        artifacts.grandfather is Some,
    ensures
        r matches Ok(txs) ==> txs@.len() == share && (forall|i: int|
            0 <= i < txs@.len() ==> entry_execution_by(
                #[trigger] txs@[i],
                key_of_state(seed_state_of(seed)),
            )),
        artifacts.child matches Some(a) && block_parse_of(a@) is None ==> r is Err,
        artifacts.parent matches Some(a) && block_parse_of(a@) is None ==> r is Err,
        artifacts.grandfather matches Some(a) && block_parse_of(a@) is None ==> r is Err,
        r matches Err(e) ==> e == PipelineError::Setup || e == PipelineError::CorruptArtifact
            || e == PipelineError::InvalidBlock || e == PipelineError::CommitFailed
            || e == PipelineError::Execution,
{
    let env = match build_environment(seed) {
        Ok(e) => e,
        Err(e) => return Err(e),
    };
    let mut ledger = env.ledger;
    let mut rng = rng_entropy();
    match install_chain(&mut ledger, &env.identity.private_key, artifacts, &mut rng) {
        Ok(_) => {},
        Err(e) => return Err(e),
    }
    generate_transactions(&ledger, &env.identity.private_key, share)
}

} // verus!
