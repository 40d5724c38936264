//! Block assembler and verifier.
//!
//! Takes an ordered batch of transactions, proposes the next block from
//! the shared ledger, validates the proposal against the ledger's
//! acceptance rules, and commits it.  A block is atomic: a proposal that
//! fails validation leaves the ledger untouched, and nothing is retried.

use vstd::prelude::*;

use snarkvm::prelude::TestRng;

use crate::errors::PipelineError;
use crate::ledger::{
    advance_block, block_height_of, block_transactions_of, check_block, ledger_height_of,
    ledger_tip_of, propose_block, LedgerHandle, PrivateKeyHandle, TransactionHandle,
};

verus! {

/// Proposes the next block from the given transactions, validates it,
/// and commits it, advancing the ledger tip by exactly one block: the
/// new tip is the proposed block, one height up, and every candidate it
/// records is one of the given transactions.  A proposal or validation
/// failure leaves the ledger unchanged: only a commit of an already
/// validated block can have touched it.
pub fn assemble_and_commit(
    l: &mut LedgerHandle,
    pk: &PrivateKeyHandle,
    txs: &Vec<TransactionHandle>,
    rng: &mut TestRng,
) -> (r: Result<(), PipelineError>)
    requires
        ledger_height_of(*old(l)) < u32::MAX,
    ensures
        r is Ok ==> ledger_height_of(*final(l)) == ledger_height_of(*old(l)) + 1,
        r is Ok ==> block_height_of(ledger_tip_of(*final(l))) == ledger_height_of(*old(l)) + 1,
        r is Ok ==> (forall|j: int|
            0 <= j < block_transactions_of(ledger_tip_of(*final(l))).len() ==> txs@.contains(
                #[trigger] block_transactions_of(ledger_tip_of(*final(l)))[j],
            )),
        r matches Err(e) ==> e == PipelineError::CommitFailed || *final(l) == *old(l),
        r matches Err(e) ==> e == PipelineError::Execution || e == PipelineError::InvalidBlock
            || e == PipelineError::CommitFailed,
{
    let block = match propose_block(&*l, pk, txs, rng) {
        Ok(b) => b,
        Err(_) => return Err(PipelineError::Execution),
    };
    match check_block(&*l, &block, rng) {
        Ok(_) => {},
        Err(_) => return Err(PipelineError::InvalidBlock),
    }
    match advance_block(l, &block) {
        Ok(_) => Ok(()),
        Err(_) => Err(PipelineError::CommitFailed),
    }
}

} // verus!
