//! Transaction cache: load-or-create and serialization helpers.
//!
//! A cached transaction artifact, when present, is deserialized and
//! returned as it stands; only a missing slot has a transaction freshly
//! generated for it, and only that fresh transaction is handed back as
//! bytes to persist.  An existing cache entry is therefore never
//! overwritten, whatever the generator would have produced.

use vstd::prelude::*;

use crate::errors::PipelineError;
use crate::generate::{entry_execution_by, spam_function_name, spam_program_id};
use crate::ledger::{
    execute_function, rng_entropy, tx_bytes_of, tx_from_bytes, tx_parse_of, tx_serializable,
    tx_to_bytes, LedgerHandle, PrivateKeyHandle, TransactionHandle,
};

verus! {

/// Returns the transaction for one cache slot.  With `existing` bytes
/// the slot is deserialized and returned exactly as the bytes encode it,
/// never regenerated, and nothing is handed back to write; bytes that
/// encode no transaction are fatal, with no recovery.  Without, a fresh
/// entry-point execution transaction signed by the given key is
/// generated and returned together with exactly its serialization, which
/// parses back to it, for the caller to persist at that slot.
pub fn load_or_create(
    l: &LedgerHandle,
    pk: &PrivateKeyHandle,
    existing: Option<&Vec<u8>>,
) -> (r: Result<(TransactionHandle, Option<Vec<u8>>), PipelineError>)
    ensures
        r matches Ok(p) ==> (p.1 is Some <==> existing is None),
        r matches Ok(p) ==> (p.1 matches Some(bytes) ==> bytes@ == tx_bytes_of(p.0)
            && tx_parse_of(bytes@) == Some(p.0)),
        r matches Ok(p) ==> (existing is None ==> entry_execution_by(p.0, *pk)),
        r matches Ok(p) ==> (existing matches Some(b) ==> tx_parse_of(b@) == Some(p.0)),
        existing matches Some(b) ==> (r is Err <==> tx_parse_of(b@) is None),
        existing matches Some(b) ==> (r matches Err(e) ==> e == PipelineError::CorruptArtifact),
{
    match existing {
        Some(bytes) => {
            let tx = match tx_from_bytes(bytes.as_slice()) {
                Ok(t) => t,
                Err(_) => return Err(PipelineError::CorruptArtifact),
            };
            Ok((tx, None))
        },
        None => {
            let mut rng = rng_entropy();
            let tx = match execute_function(l, pk, spam_program_id(), spam_function_name(), &mut rng) {
                Ok(t) => t,
                Err(_) => return Err(PipelineError::Execution),
            };
            let bytes = match tx_to_bytes(&tx) {
                Ok(bs) => bs,
                Err(_) => return Err(PipelineError::Serialization),
            };
            Ok((tx, Some(bytes)))
        },
    }
}

/// Serializes every transaction of a batch, in order.  On success the
/// result holds one byte string per transaction: exactly that
/// transaction's serialization, which parses back to it.  It succeeds
/// whenever every transaction serializes, and fails only because one
/// does not.
pub fn serialize_transactions(
    txs: &Vec<TransactionHandle>,
) -> (r: Result<Vec<Vec<u8>>, PipelineError>)
    ensures
        r matches Ok(out) ==> out@.len() == txs@.len() && (forall|i: int|
            0 <= i < out@.len() ==> (#[trigger] out@[i])@ == tx_bytes_of(txs@[i])
                && tx_parse_of((out@[i])@) == Some(txs@[i])),
        (forall|i: int| 0 <= i < txs@.len() ==> #[trigger] tx_serializable(txs@[i])) ==> r is Ok,
        r is Err ==> exists|i: int|
            0 <= i < txs@.len() && !(#[trigger] tx_serializable(txs@[i])),
        r matches Err(e) ==> e == PipelineError::Serialization,
{
    let mut out: Vec<Vec<u8>> = Vec::new();
    let mut i: usize = 0;
    while i < txs.len()
        invariant
            i <= txs@.len(),
            out@.len() == i,
            forall|j: int|
                0 <= j < out@.len() ==> (#[trigger] out@[j])@ == tx_bytes_of(txs@[j])
                    && tx_parse_of((out@[j])@) == Some(txs@[j]),
        decreases txs@.len() - i,
    {
        let bytes = match tx_to_bytes(&txs[i]) {
            Ok(bs) => bs,
            Err(_) => return Err(PipelineError::Serialization),
        };
        out.push(bytes);
        i = i + 1;
    }
    Ok(out)
}

} // verus!
