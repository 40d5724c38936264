//! Dependency chain deployer.
//!
//! Three layered programs form a static, acyclic dependency graph: a leaf
//! program (`child_spammer.aleo`), a middle program calling the leaf
//! fourteen times (`parent_spammer.aleo`), and a top program calling the
//! middle one twice (`grandfather_spammer.aleo`).  Each layer is deployed
//! as its own block, in topological order, and the serialized block is
//! handed back so the caller can cache it on disk.  A layer whose cached
//! artifact is supplied is replayed instead: validated and committed
//! without rebuilding, and nothing is handed back to write, so an
//! existing artifact is never overwritten.

use vstd::prelude::*;

use snarkvm::prelude::TestRng;

use crate::errors::PipelineError;
use crate::ledger::{
    address_of_key, advance_block, block_bytes_of, block_from_bytes, block_height_of,
    block_parse_of, block_to_bytes, block_transactions_of, check_block, deploy_program,
    ledger_height_of, ledger_tip_of, parse_program, program_parse_of, propose_block,
    tx_deployed_program_of, tx_signer_of, LedgerHandle, PrivateKeyHandle, TransactionHandle,
};

verus! {

/// One layer of the dependency chain.
#[derive(Clone, Copy, Debug, PartialEq, Eq, Structural)]
pub enum Layer {
    /// The leaf program, importing nothing.
    Child,
    /// The middle program, importing the leaf.
    Parent,
    /// The top program, importing both.
    Grandfather,
}

/// The layers whose programs a layer's program imports.
pub open spec fn layer_imports(layer: Layer) -> Set<Layer> {
    match layer {
        Layer::Child => Set::empty(),
        Layer::Parent => set![Layer::Child],
        Layer::Grandfather => set![Layer::Child, Layer::Parent],
    }
}

/// The order in which the layers are deployed.
pub open spec fn deploy_order_seq() -> Seq<Layer> {
    seq![Layer::Child, Layer::Parent, Layer::Grandfather]
}

/// The deployment order is topological: every import of a layer stands
/// strictly before the layer itself, so no deployment reaches the ledger
/// before the programs it imports are committed.  (The ledger itself
/// rejects a deployment whose imports are missing; this order ensures the
/// deployer never hands it one.)
pub proof fn lemma_deploy_order_topological()
    ensures
        forall|i: int, j: int|
            0 <= i < deploy_order_seq().len() && 0 <= j < deploy_order_seq().len()
                && layer_imports(deploy_order_seq()[i]).contains(deploy_order_seq()[j]) ==> j < i,
        forall|i: int, m: Layer|
            0 <= i < deploy_order_seq().len() && layer_imports(deploy_order_seq()[i]).contains(m)
                ==> exists|j: int| 0 <= j < i && deploy_order_seq()[j] == m,
{
    assert forall|i: int, m: Layer|
        0 <= i < deploy_order_seq().len() && layer_imports(deploy_order_seq()[i]).contains(m)
            implies exists|j: int| 0 <= j < i && deploy_order_seq()[j] == m by {
        if m == Layer::Child {
            assert(deploy_order_seq()[0] == m);
        } else if m == Layer::Parent {
            assert(deploy_order_seq()[1] == m);
        }
    }
}

/// The deployment order as a vector, for callers that walk the chain.
pub fn deploy_order() -> (v: Vec<Layer>)
    ensures
        v@ == deploy_order_seq(),
{
    let v = vec![Layer::Child, Layer::Parent, Layer::Grandfather];
    proof {
        assert(v@ =~= deploy_order_seq());
    }
    v
}

/// The fixed source text of a layer's program.
pub open spec fn layer_source_spec(layer: Layer) -> Seq<char> {
    match layer {
        Layer::Child => "
program child_spammer.aleo;

mapping map:
    key as u8.public;
    value as u8.public;

function spam:
    async spam into r0;
    output r0 as child_spammer.aleo/spam.future;

finalize spam:
    set 0u8 into map[0u8];
    set 1u8 into map[1u8];
    set 2u8 into map[2u8];
    set 3u8 into map[3u8];
    set 4u8 into map[4u8];
    set 5u8 into map[5u8];
    set 6u8 into map[6u8];
    set 7u8 into map[7u8];
    set 8u8 into map[8u8];
    set 9u8 into map[9u8];
    set 10u8 into map[10u8];
    set 11u8 into map[11u8];
    set 12u8 into map[12u8];
    set 13u8 into map[13u8];
    set 14u8 into map[14u8];
    set 15u8 into map[15u8];"@,
        Layer::Parent => "
import child_spammer.aleo;
program parent_spammer.aleo;

function main:
    call child_spammer.aleo/spam into r0;
    call child_spammer.aleo/spam into r1;
    call child_spammer.aleo/spam into r2;
    call child_spammer.aleo/spam into r3;
    call child_spammer.aleo/spam into r4;
    call child_spammer.aleo/spam into r5;
    call child_spammer.aleo/spam into r6;
    call child_spammer.aleo/spam into r7;
    call child_spammer.aleo/spam into r8;
    call child_spammer.aleo/spam into r9;
    call child_spammer.aleo/spam into r10;
    call child_spammer.aleo/spam into r11;
    call child_spammer.aleo/spam into r12;
    call child_spammer.aleo/spam into r13;
    async main r0 r1 r2 r3 r4 r5 r6 r7 r8 r9 r10 r11 r12 r13 into r14;
    output r14 as parent_spammer.aleo/main.future;

finalize main:
    input r0 as child_spammer.aleo/spam.future;
    input r1 as child_spammer.aleo/spam.future;
    input r2 as child_spammer.aleo/spam.future;
    input r3 as child_spammer.aleo/spam.future;
    input r4 as child_spammer.aleo/spam.future;
    input r5 as child_spammer.aleo/spam.future;
    input r6 as child_spammer.aleo/spam.future;
    input r7 as child_spammer.aleo/spam.future;
    input r8 as child_spammer.aleo/spam.future;
    input r9 as child_spammer.aleo/spam.future;
    input r10 as child_spammer.aleo/spam.future;
    input r11 as child_spammer.aleo/spam.future;
    input r12 as child_spammer.aleo/spam.future;
    input r13 as child_spammer.aleo/spam.future;
    await r0;
    await r1;
    await r2;
    await r3;
    await r4;
    await r5;
    await r6;
    await r7;
    await r8;
    await r9;
    await r10;
    await r11;
    await r12;
    await r13;
"@,
        Layer::Grandfather => "
import child_spammer.aleo;
import parent_spammer.aleo;
program grandfather_spammer.aleo;

function outer_most_call:
    call parent_spammer.aleo/main into r0;
    call parent_spammer.aleo/main into r1;
    async outer_most_call r0 r1 into r2;
    output r2 as grandfather_spammer.aleo/outer_most_call.future;

finalize outer_most_call:
    input r0 as parent_spammer.aleo/main.future;
    input r1 as parent_spammer.aleo/main.future;
    await r0;
    await r1;
"@,
    }
}

/// The fixed source text of a layer's program: exactly the layer's own
/// program, never another layer's.
pub fn layer_program_source(layer: Layer) -> (s: &'static str)
    ensures
        s@ == layer_source_spec(layer),
{
    match layer {
        Layer::Child => "
program child_spammer.aleo;

mapping map:
    key as u8.public;
    value as u8.public;

function spam:
    async spam into r0;
    output r0 as child_spammer.aleo/spam.future;

finalize spam:
    set 0u8 into map[0u8];
    set 1u8 into map[1u8];
    set 2u8 into map[2u8];
    set 3u8 into map[3u8];
    set 4u8 into map[4u8];
    set 5u8 into map[5u8];
    set 6u8 into map[6u8];
    set 7u8 into map[7u8];
    set 8u8 into map[8u8];
    set 9u8 into map[9u8];
    set 10u8 into map[10u8];
    set 11u8 into map[11u8];
    set 12u8 into map[12u8];
    set 13u8 into map[13u8];
    set 14u8 into map[14u8];
    set 15u8 into map[15u8];",
        Layer::Parent => "
import child_spammer.aleo;
program parent_spammer.aleo;

function main:
    call child_spammer.aleo/spam into r0;
    call child_spammer.aleo/spam into r1;
    call child_spammer.aleo/spam into r2;
    call child_spammer.aleo/spam into r3;
    call child_spammer.aleo/spam into r4;
    call child_spammer.aleo/spam into r5;
    call child_spammer.aleo/spam into r6;
    call child_spammer.aleo/spam into r7;
    call child_spammer.aleo/spam into r8;
    call child_spammer.aleo/spam into r9;
    call child_spammer.aleo/spam into r10;
    call child_spammer.aleo/spam into r11;
    call child_spammer.aleo/spam into r12;
    call child_spammer.aleo/spam into r13;
    async main r0 r1 r2 r3 r4 r5 r6 r7 r8 r9 r10 r11 r12 r13 into r14;
    output r14 as parent_spammer.aleo/main.future;

finalize main:
    input r0 as child_spammer.aleo/spam.future;
    input r1 as child_spammer.aleo/spam.future;
    input r2 as child_spammer.aleo/spam.future;
    input r3 as child_spammer.aleo/spam.future;
    input r4 as child_spammer.aleo/spam.future;
    input r5 as child_spammer.aleo/spam.future;
    input r6 as child_spammer.aleo/spam.future;
    input r7 as child_spammer.aleo/spam.future;
    input r8 as child_spammer.aleo/spam.future;
    input r9 as child_spammer.aleo/spam.future;
    input r10 as child_spammer.aleo/spam.future;
    input r11 as child_spammer.aleo/spam.future;
    input r12 as child_spammer.aleo/spam.future;
    input r13 as child_spammer.aleo/spam.future;
    await r0;
    await r1;
    await r2;
    await r3;
    await r4;
    await r5;
    await r6;
    await r7;
    await r8;
    await r9;
    await r10;
    await r11;
    await r12;
    await r13;
",
        Layer::Grandfather => "
import child_spammer.aleo;
import parent_spammer.aleo;
program grandfather_spammer.aleo;

function outer_most_call:
    call parent_spammer.aleo/main into r0;
    call parent_spammer.aleo/main into r1;
    async outer_most_call r0 r1 into r2;
    output r2 as grandfather_spammer.aleo/outer_most_call.future;

finalize outer_most_call:
    input r0 as parent_spammer.aleo/main.future;
    input r1 as parent_spammer.aleo/main.future;
    await r0;
    await r1;
",
    }
}

/// The fixed cache filename of a layer's deployment-block artifact.
pub open spec fn layer_artifact_name_spec(layer: Layer) -> Seq<char> {
    match layer {
        Layer::Child => "block_child"@,
        Layer::Parent => "block_parent"@,
        Layer::Grandfather => "block_grandfather"@,
    }
}

/// The fixed cache filename of a layer's deployment-block artifact.
pub fn layer_artifact_name(layer: Layer) -> (s: &'static str)
    ensures
        s@ == layer_artifact_name_spec(layer),
{
    match layer {
        Layer::Child => "block_child",
        Layer::Parent => "block_parent",
        Layer::Grandfather => "block_grandfather",
    }
}

/// Replays a cached deployment block: deserializes it, validates it
/// against the ledger and commits it.  The artifact is read, never
/// written.  On success the ledger grows by exactly one block; a failure
/// before the commit step leaves the ledger unchanged.
pub fn replay_layer(
    l: &mut LedgerHandle,
    artifact: &Vec<u8>,
    rng: &mut TestRng,
) -> (r: Result<(), PipelineError>)
    requires
        ledger_height_of(*old(l)) < u32::MAX,
    ensures
        r is Ok ==> ledger_height_of(*final(l)) == ledger_height_of(*old(l)) + 1,
        r is Ok ==> block_parse_of(artifact@) == Some(ledger_tip_of(*final(l))),
        r is Ok ==> block_height_of(ledger_tip_of(*final(l))) == ledger_height_of(*final(l)),
        block_parse_of(artifact@) is None <==> r == Err::<(), PipelineError>(
            PipelineError::CorruptArtifact,
        ),
        r matches Err(e) ==> e == PipelineError::CommitFailed || *final(l) == *old(l),
        r matches Err(e) ==> e == PipelineError::CorruptArtifact || e == PipelineError::InvalidBlock
            || e == PipelineError::CommitFailed,
{
    let block = match block_from_bytes(artifact.as_slice()) {
        Ok(b) => b,
        Err(_) => return Err(PipelineError::CorruptArtifact),
    };
    match check_block(&*l, &block, rng) {
        Ok(_) => {},
        Err(_) => return Err(PipelineError::InvalidBlock),
    }
    match advance_block(l, &block) {
        Ok(_) => Ok(()),
        Err(_) => Err(PipelineError::CommitFailed),
    }
}

/// Builds the layer's deployment transaction: parses the layer's own
/// fixed program source and deploys exactly that program, signed by the
/// given key's account.
pub fn build_layer_deployment(
    l: &LedgerHandle,
    pk: &PrivateKeyHandle,
    layer: Layer,
    rng: &mut TestRng,
) -> (r: Result<TransactionHandle, PipelineError>)
    ensures
        r matches Ok(t) ==> tx_deployed_program_of(t) == program_parse_of(
            layer_source_spec(layer),
        ) && program_parse_of(layer_source_spec(layer)) is Some,
        r matches Ok(t) ==> tx_signer_of(t) == address_of_key(*pk),
        r matches Err(e) ==> e == PipelineError::Execution,
{
    let program = match parse_program(layer_program_source(layer)) {
        Ok(p) => p,
        Err(_) => return Err(PipelineError::Execution),
    };
    match deploy_program(l, pk, &program, rng) {
        Ok(t) => Ok(t),
        Err(_) => Err(PipelineError::Execution),
    }
}

/// Builds and commits a layer's deployment block from scratch: deploys
/// the layer's own program as a transaction, proposes a block from it,
/// validates and commits it.  Returns the serialized block for the
/// caller to cache; the bytes are exactly the serialization of the very
/// block now at the tip, one height up, and parse back to it.
pub fn deploy_layer(
    l: &mut LedgerHandle,
    pk: &PrivateKeyHandle,
    layer: Layer,
    rng: &mut TestRng,
) -> (r: Result<Vec<u8>, PipelineError>)
    requires
        ledger_height_of(*old(l)) < u32::MAX,
    ensures
        r is Ok ==> ledger_height_of(*final(l)) == ledger_height_of(*old(l)) + 1,
        r is Ok ==> program_parse_of(layer_source_spec(layer)) is Some,
        r matches Ok(bytes) ==> bytes@ == block_bytes_of(ledger_tip_of(*final(l)))
            && block_parse_of(bytes@) == Some(ledger_tip_of(*final(l))) && block_height_of(
            ledger_tip_of(*final(l)),
        ) == ledger_height_of(*old(l)) + 1,
        r is Ok ==> (forall|j: int|
            0 <= j < block_transactions_of(ledger_tip_of(*final(l))).len()
                ==> tx_deployed_program_of(#[trigger] block_transactions_of(
                ledger_tip_of(*final(l)),
            )[j]) == program_parse_of(layer_source_spec(layer))),
        r matches Err(e) ==> e == PipelineError::CommitFailed || *final(l) == *old(l),
        r matches Err(e) ==> e == PipelineError::Execution || e == PipelineError::Serialization
            || e == PipelineError::InvalidBlock || e == PipelineError::CommitFailed,
{
    let tx = match build_layer_deployment(&*l, pk, layer, rng) {
        Ok(t) => t,
        Err(e) => return Err(e),
    };
    let batch = vec![tx];
    let block = match propose_block(&*l, pk, &batch, rng) {
        Ok(b) => b,
        Err(_) => return Err(PipelineError::Execution),
    };
    let bytes = match block_to_bytes(&block) {
        Ok(bs) => bs,
        Err(_) => return Err(PipelineError::Serialization),
    };
    match check_block(&*l, &block, rng) {
        Ok(_) => {},
        Err(_) => return Err(PipelineError::InvalidBlock),
    }
    match advance_block(l, &block) {
        Ok(_) => {},
        Err(_) => return Err(PipelineError::CommitFailed),
    }
    Ok(bytes)
}

/// Installs one layer: replays the cached artifact when one is supplied,
/// otherwise builds and commits the layer's own program and hands back
/// the new artifact to persist.  A supplied artifact yields no bytes to
/// write, so a cached layer is never rewritten; a supplied artifact that
/// encodes no block is fatal, with no fallback to rebuilding; the block
/// committed on the cached path is exactly the one the artifact encodes.
pub fn install_layer(
    l: &mut LedgerHandle,
    pk: &PrivateKeyHandle,
    layer: Layer,
    cached: Option<&Vec<u8>>,
    rng: &mut TestRng,
) -> (r: Result<Option<Vec<u8>>, PipelineError>)
    requires
        ledger_height_of(*old(l)) < u32::MAX,
    ensures
        r is Ok ==> ledger_height_of(*final(l)) == ledger_height_of(*old(l)) + 1,
        r is Ok ==> block_height_of(ledger_tip_of(*final(l))) == ledger_height_of(*final(l)),
        r matches Ok(w) ==> (w is None <==> cached is Some),
        cached matches Some(a) ==> (r is Ok ==> block_parse_of(a@) == Some(
            ledger_tip_of(*final(l)),
        )),
        cached matches Some(a) ==> (block_parse_of(a@) is None <==> r == Err::<
            Option<Vec<u8>>,
            PipelineError,
        >(PipelineError::CorruptArtifact)),
        cached matches Some(a) ==> (r matches Err(e) ==> e == PipelineError::CorruptArtifact
            || e == PipelineError::InvalidBlock || e == PipelineError::CommitFailed),
        cached is None ==> (r is Ok ==> program_parse_of(layer_source_spec(layer)) is Some),
        cached is None ==> (r is Ok ==> (forall|j: int|
            0 <= j < block_transactions_of(ledger_tip_of(*final(l))).len()
                ==> tx_deployed_program_of(#[trigger] block_transactions_of(
                ledger_tip_of(*final(l)),
            )[j]) == program_parse_of(layer_source_spec(layer)))),
        r matches Ok(w) ==> (w matches Some(bytes) ==> bytes@ == block_bytes_of(
            ledger_tip_of(*final(l)),
        ) && block_parse_of(bytes@) == Some(ledger_tip_of(*final(l)))),
        r matches Err(e) ==> e == PipelineError::CommitFailed || *final(l) == *old(l),
{
    match cached {
        Some(artifact) => {
            match replay_layer(l, artifact, rng) {
                Ok(_) => Ok(None),
                Err(e) => Err(e),
            }
        },
        None => {
            match deploy_layer(l, pk, layer, rng) {
                Ok(bytes) => Ok(Some(bytes)),
                Err(e) => Err(e),
            }
        },
    }
}

/// The cached deployment artifacts found on disk, one slot per layer.
pub struct ArtifactCache {
    pub child: Option<Vec<u8>>,
    pub parent: Option<Vec<u8>>,
    pub grandfather: Option<Vec<u8>>,
}

/// The artifacts newly built by an installation, to be persisted by the
/// caller, one slot per layer.
pub struct ArtifactWrites {
    pub child: Option<Vec<u8>>,
    pub parent: Option<Vec<u8>>,
    pub grandfather: Option<Vec<u8>>,
}

/// Installs the whole dependency chain in topological order: child, then
/// parent, then grandfather.  Each cached layer's block is deserialized,
/// validated and committed as it stands — a cached artifact that encodes
/// no block is fatal, with no fallback to rebuilding — and each missing
/// layer's own program is built, committed and handed back for caching.
/// On success the ledger grows by exactly three blocks, and a layer
/// whose artifact was supplied gets no write slot, so existing artifacts
/// are never overwritten.
pub fn install_chain(
    l: &mut LedgerHandle,
    pk: &PrivateKeyHandle,
    cache: &ArtifactCache,
    rng: &mut TestRng,
) -> (r: Result<ArtifactWrites, PipelineError>)
    requires
        ledger_height_of(*old(l)) + 3 <= u32::MAX,
    ensures
        r is Ok ==> ledger_height_of(*final(l)) == ledger_height_of(*old(l)) + 3,
        r matches Ok(w) ==> (w.child is None <==> cache.child is Some),
        r matches Ok(w) ==> (w.parent is None <==> cache.parent is Some),
        r matches Ok(w) ==> (w.grandfather is None <==> cache.grandfather is Some),
        r matches Ok(w) ==> (w.child matches Some(bytes) ==> exists|b: crate::ledger::BlockHandle|
            #[trigger] block_bytes_of(b) == bytes@ && block_height_of(b) == ledger_height_of(
                *old(l),
            ) + 1 && block_parse_of(bytes@) == Some(b)),
        r matches Ok(w) ==> (w.parent matches Some(bytes) ==> exists|b: crate::ledger::BlockHandle|
            #[trigger] block_bytes_of(b) == bytes@ && block_height_of(b) == ledger_height_of(
                *old(l),
            ) + 2 && block_parse_of(bytes@) == Some(b)),
        r matches Ok(w) ==> (w.grandfather matches Some(bytes) ==> bytes@ == block_bytes_of(
            ledger_tip_of(*final(l)),
        ) && block_parse_of(bytes@) == Some(ledger_tip_of(*final(l)))),
        r is Ok ==> (cache.child is None ==> program_parse_of(
            layer_source_spec(Layer::Child),
        ) is Some),
        r is Ok ==> (cache.parent is None ==> program_parse_of(
            layer_source_spec(Layer::Parent),
        ) is Some),
        r is Ok ==> (cache.grandfather is None ==> program_parse_of(
            layer_source_spec(Layer::Grandfather),
        ) is Some),
        cache.grandfather matches Some(a) ==> (r is Ok ==> block_parse_of(a@) == Some(
            ledger_tip_of(*final(l)),
        )),
        cache.child matches Some(a) && block_parse_of(a@) is None ==> r is Err,
        cache.parent matches Some(a) && block_parse_of(a@) is None ==> r is Err,
        cache.grandfather matches Some(a) && block_parse_of(a@) is None ==> r is Err,
        cache.child is Some && cache.parent is Some && cache.grandfather is Some ==> (
        r matches Err(e) ==> e == PipelineError::CorruptArtifact || e == PipelineError::InvalidBlock
            || e == PipelineError::CommitFailed),
{
    let child_write = match install_layer(l, pk, Layer::Child, cache.child.as_ref(), rng) {
        Ok(w) => w,
        Err(e) => return Err(e),
    };
    let parent_write = match install_layer(l, pk, Layer::Parent, cache.parent.as_ref(), rng) {
        Ok(w) => w,
        Err(e) => return Err(e),
    };
    let grandfather_write = match install_layer(
        l,
        pk,
        Layer::Grandfather,
        cache.grandfather.as_ref(),
        rng,
    ) {
        Ok(w) => w,
        Err(e) => return Err(e),
    };
    Ok(ArtifactWrites {
        child: child_write,
        parent: parent_write,
        grandfather: grandfather_write,
    })
}

} // verus!
