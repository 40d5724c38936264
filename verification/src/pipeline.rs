//! The sequential verify path: cache-then-backfill one block's worth of
//! transactions, then assemble, validate and commit them as one block.

use vstd::prelude::*;

use snarkvm::prelude::TestRng;

use crate::assemble::assemble_and_commit;
use crate::cache::load_or_create;
use crate::errors::PipelineError;
use crate::generate::entry_execution_by;
use crate::ledger::{
    block_height_of, block_transactions_of, ledger_height_of, ledger_tip_of, tx_bytes_of,
    tx_parse_of, LedgerHandle, PrivateKeyHandle, TransactionHandle,
};

verus! {

/// Collects one transaction per slot — deserializing the slots whose
/// cached bytes are supplied exactly as they stand, never regenerating
/// them, and freshly generating the rest — then proposes, validates and
/// commits one block from that batch.  A cached slot whose bytes encode
/// no transaction is fatal, with no recovery.  Returns the assembled
/// batch, one transaction per slot in slot order, beside one write slot
/// per input slot: bytes to persist exactly where the cache had none,
/// each the serialization of that slot's transaction, so no existing
/// entry is ever overwritten.  On success the ledger advances by exactly
/// one block, the new tip, whose recorded candidates all come from the
/// batch; a failure anywhere before the final commit leaves it
/// unchanged.
pub fn verify_batch(
    l: &mut LedgerHandle,
    pk: &PrivateKeyHandle,
    existing: Vec<Option<Vec<u8>>>,
    rng: &mut TestRng,
) -> (r: Result<(Vec<TransactionHandle>, Vec<Option<Vec<u8>>>), PipelineError>)
    requires
        ledger_height_of(*old(l)) < u32::MAX,
    ensures
        r matches Ok(p) ==> p.0@.len() == existing@.len() && p.1@.len() == existing@.len(),
        r matches Ok(p) ==> (forall|i: int|
            0 <= i < existing@.len() ==> ((#[trigger] p.1@[i]) is Some <==> existing@[i]
                is None)),
        r matches Ok(p) ==> (forall|i: int|
            0 <= i < existing@.len() ==> ((#[trigger] existing@[i]) matches Some(b)
                ==> tx_parse_of(b@) == Some(p.0@[i]))),
        r matches Ok(p) ==> (forall|i: int|
            0 <= i < existing@.len() ==> ((#[trigger] existing@[i]) is None
                ==> entry_execution_by(p.0@[i], *pk))),
        r matches Ok(p) ==> (forall|i: int|
            0 <= i < existing@.len() ==> ((#[trigger] p.1@[i]) matches Some(bytes)
                ==> bytes@ == tx_bytes_of(p.0@[i]) && tx_parse_of(bytes@) == Some(p.0@[i]))),
        r is Ok ==> ledger_height_of(*final(l)) == ledger_height_of(*old(l)) + 1,
        r is Ok ==> block_height_of(ledger_tip_of(*final(l))) == ledger_height_of(*old(l)) + 1,
        r matches Ok(p) ==> (forall|j: int|
            0 <= j < block_transactions_of(ledger_tip_of(*final(l))).len() ==> p.0@.contains(
                #[trigger] block_transactions_of(ledger_tip_of(*final(l)))[j],
            )),
        r matches Err(e) ==> e == PipelineError::CommitFailed || *final(l) == *old(l),
{
    let mut txs: Vec<TransactionHandle> = Vec::new();
    let mut writes: Vec<Option<Vec<u8>>> = Vec::new();
    let mut i: usize = 0;
    while i < existing.len()
        invariant
            i <= existing@.len(),
            txs@.len() == i,
            writes@.len() == i,
            forall|j: int|
                0 <= j < i ==> ((#[trigger] writes@[j]) is Some <==> existing@[j] is None),
            forall|j: int|
                0 <= j < i ==> ((#[trigger] existing@[j]) matches Some(b) ==> tx_parse_of(b@)
                    == Some(txs@[j])),
            forall|j: int|
                0 <= j < i ==> ((#[trigger] existing@[j]) is None ==> entry_execution_by(
                    txs@[j],
                    *pk,
                )),
            forall|j: int|
                0 <= j < i ==> ((#[trigger] writes@[j]) matches Some(bytes) ==> bytes@
                    == tx_bytes_of(txs@[j]) && tx_parse_of(bytes@) == Some(txs@[j])),
            *l == *old(l),
            ledger_height_of(*old(l)) < u32::MAX,
        decreases existing@.len() - i,
    {
        let slot = match load_or_create(&*l, pk, existing[i].as_ref()) {
            Ok(p) => p,
            Err(e) => return Err(e),
        };
        let (tx, write) = slot;
        txs.push(tx);
        writes.push(write);
        i = i + 1;
    }
    match assemble_and_commit(l, pk, &txs, rng) {
        Ok(_) => Ok((txs, writes)),
        Err(e) => Err(e),
    }
}

} // verus!
