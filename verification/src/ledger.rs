//! Trusted surface over the snarkvm ledger and virtual machine.
//!
//! The ledger, its blocks, transactions and keys are opaque outside values:
//! Verus refuses their generic declarations (their trait bounds cannot be
//! declared here), so each is held in a private field of an opaque struct.
//! A handful of uninterpreted names (`ledger_height_of`, `block_height_of`,
//! serialized bytes, a transaction's target) stand for what the contracts
//! of the wrappers below say about those values.  Each wrapper makes one
//! outside call; its contract states only what that call's source shows.

use vstd::prelude::*;

use snarkvm::console::network::Testnet3;
use snarkvm::prelude::{PrivateKey, TestRng, ViewKey, Value};
use snarkvm::prelude::{FromBytes, ToBytes};
use snarkvm::prelude::block::{Block, Transaction};
use snarkvm::prelude::Address;
use snarkvm::prelude::Program;
use snarkvm::ledger::Ledger;
use snarkvm::ledger::store::ConsensusStore;
use snarkvm::ledger::store::helpers::memory::ConsensusMemory;
use snarkvm::synthesizer::vm::VM;
use core::str::FromStr;

verus! {

#[verifier::external_type_specification]
#[verifier::external_body]
pub struct ExTestRng(TestRng);

#[verifier::external_type_specification]
#[verifier::external_body]
pub struct ExAnyhowError(anyhow::Error);

/// A signing key for the fixed test network.
#[verifier::external_body]
pub struct PrivateKeyHandle {
    inner: PrivateKey<Testnet3>,
}

/// The viewing key derived from a signing key.
#[verifier::external_body]
pub struct ViewKeyHandle {
    inner: ViewKey<Testnet3>,
}

/// The public address derived from a signing key.
#[verifier::external_body]
pub struct AddressHandle {
    inner: Address<Testnet3>,
}

/// An in-memory consensus store, used only to build a genesis block.
#[verifier::external_body]
pub struct StoreHandle {
    inner: ConsensusStore<Testnet3, ConsensusMemory<Testnet3>>,
}

/// A virtual machine over an in-memory consensus store.
#[verifier::external_body]
pub struct VmHandle {
    inner: VM<Testnet3, ConsensusMemory<Testnet3>>,
}

/// A ledger: an append-only chain of committed blocks.
#[verifier::external_body]
pub struct LedgerHandle {
    inner: Ledger<Testnet3, ConsensusMemory<Testnet3>>,
}

/// A block: an ordered batch of transactions with a height.
#[verifier::external_body]
pub struct BlockHandle {
    inner: Block<Testnet3>,
}

/// A signed deployment or execution transaction.
#[verifier::external_body]
pub struct TransactionHandle {
    inner: Transaction<Testnet3>,
}

/// A parsed program definition.
#[verifier::external_body]
pub struct ProgramHandle {
    inner: Program<Testnet3>,
}

/// A seeded random source whose abstract state the contracts track, so
/// that what is drawn from it is a function of the seed.
#[verifier::external_body]
pub struct RngHandle {
    inner: TestRng,
}

/// The height of the latest committed block of the ledger.
pub uninterp spec fn ledger_height_of(l: LedgerHandle) -> nat;

/// The height recorded in a block's header.
pub uninterp spec fn block_height_of(b: BlockHandle) -> nat;

/// The canonical little-endian serialization of a transaction.
pub uninterp spec fn tx_bytes_of(t: TransactionHandle) -> Seq<u8>;

/// The canonical little-endian serialization of a block.
pub uninterp spec fn block_bytes_of(b: BlockHandle) -> Seq<u8>;

/// The program id targeted by the root call of an execution transaction.
pub uninterp spec fn tx_program_of(t: TransactionHandle) -> Seq<char>;

/// The function name targeted by the root call of an execution transaction.
pub uninterp spec fn tx_function_of(t: TransactionHandle) -> Seq<char>;

/// The latest committed block of the ledger.
pub uninterp spec fn ledger_tip_of(l: LedgerHandle) -> BlockHandle;

/// What parsing bytes as a transaction yields: the transaction the bytes
/// encode, or nothing when they encode none.
pub uninterp spec fn tx_parse_of(bytes: Seq<u8>) -> Option<TransactionHandle>;

/// What parsing bytes as a block yields: the block the bytes encode, or
/// nothing when they encode none.
pub uninterp spec fn block_parse_of(bytes: Seq<u8>) -> Option<BlockHandle>;

/// Holds when serializing the transaction succeeds.
pub uninterp spec fn tx_serializable(t: TransactionHandle) -> bool;

/// What parsing source text as a program yields: the program definition
/// the text spells, or nothing when it spells none.
pub uninterp spec fn program_parse_of(source: Seq<char>) -> Option<ProgramHandle>;

/// The program a deployment transaction installs; nothing for other
/// transaction kinds.
pub uninterp spec fn tx_deployed_program_of(t: TransactionHandle) -> Option<ProgramHandle>;

/// The viewing key derived from a signing key.
pub uninterp spec fn view_key_of(pk: PrivateKeyHandle) -> ViewKeyHandle;

/// The address derived from a signing key.
pub uninterp spec fn address_of_key(pk: PrivateKeyHandle) -> AddressHandle;

/// The address of the account that authorized and signed a transaction.
pub uninterp spec fn tx_signer_of(t: TransactionHandle) -> AddressHandle;

/// How many inputs the root call of an execution transaction was
/// authorized with.
pub uninterp spec fn tx_root_input_count_of(t: TransactionHandle) -> nat;

/// The abstract state of a tracked random source.
pub uninterp spec fn rng_state_of(r: RngHandle) -> nat;

/// The state of a random source freshly seeded by `seed`.
pub uninterp spec fn seed_state_of(seed: u64) -> nat;

/// The signing key drawn from a random source in the given state.
pub uninterp spec fn key_of_state(s: nat) -> PrivateKeyHandle;

/// The state of a random source after a signing key was drawn from it.
pub uninterp spec fn state_after_key(s: nat) -> nat;

/// Holds of a consensus store freshly opened in memory, holding nothing.
pub uninterp spec fn store_is_fresh(st: StoreHandle) -> bool;

/// Holds of a virtual machine initialized over a fresh store.
pub uninterp spec fn vm_is_fresh(v: VmHandle) -> bool;

/// The genesis block a fresh virtual machine builds for the given key
/// from a random source in the given state.
pub uninterp spec fn genesis_of(pk: PrivateKeyHandle, s: nat) -> BlockHandle;

/// The candidate transactions from which a block's confirmed entries
/// were built, one per entry, aborted candidates excluded.
pub uninterp spec fn block_transactions_of(b: BlockHandle) -> Seq<TransactionHandle>;

/// Relies on TestRng::fixed: a random source reproducibly seeded by
/// `seed`, its state a function of the seed alone.
#[verifier::external_body]
pub(crate) fn rng_fixed(seed: u64) -> (r: RngHandle)
    ensures
        rng_state_of(r) == seed_state_of(seed),
{
    RngHandle { inner: TestRng::fixed(seed) }
}

/// Relies on TestRng::default: a random source seeded from entropy.
#[verifier::external_body]
pub(crate) fn rng_entropy() -> TestRng {
    TestRng::default()
}

/// Relies on PrivateKey::new: samples a signing key from the random
/// source, the key and the source's next state each a function of the
/// source's state alone.
#[verifier::external_body]
pub(crate) fn gen_private_key(rng: &mut RngHandle) -> (r: Result<
    PrivateKeyHandle,
    anyhow::Error,
>)
    ensures
        r matches Ok(k) ==> k == key_of_state(rng_state_of(*old(rng))),
        rng_state_of(*final(rng)) == state_after_key(rng_state_of(*old(rng))),
{
    Ok(PrivateKeyHandle { inner: PrivateKey::new(&mut rng.inner)? })
}

/// Relies on ViewKey::try_from: derives the viewing key of a signing
/// key, a function of the key alone.
#[verifier::external_body]
pub(crate) fn view_key_for(pk: &PrivateKeyHandle) -> (r: Result<ViewKeyHandle, anyhow::Error>)
    ensures
        r matches Ok(vk) ==> vk == view_key_of(*pk),
{
    Ok(ViewKeyHandle { inner: ViewKey::try_from(&pk.inner)? })
}

/// Relies on Address::try_from: derives the address of a signing key, a
/// function of the key alone.
#[verifier::external_body]
pub(crate) fn address_for(pk: &PrivateKeyHandle) -> (r: Result<AddressHandle, anyhow::Error>)
    ensures
        r matches Ok(a) ==> a == address_of_key(*pk),
{
    Ok(AddressHandle { inner: Address::try_from(&pk.inner)? })
}

/// Relies on ConsensusStore::open: opens a fresh in-memory store,
/// holding nothing.
#[verifier::external_body]
pub(crate) fn open_store() -> (r: Result<StoreHandle, anyhow::Error>)
    ensures
        r matches Ok(st) ==> store_is_fresh(st),
{
    Ok(StoreHandle { inner: ConsensusStore::open(None::<u16>)? })
}

/// Relies on VM::from: initializes a virtual machine over the store; a
/// fresh store yields a fresh machine.
#[verifier::external_body]
pub(crate) fn vm_from_store(store: StoreHandle) -> (r: Result<VmHandle, anyhow::Error>)
    ensures
        store_is_fresh(store) ==> (r matches Ok(v) ==> vm_is_fresh(v)),
{
    Ok(VmHandle { inner: VM::from(store.inner)? })
}

/// Relies on VM::genesis_beacon: builds a genesis block, which it
/// returns only after checking that the block's height is zero
/// (`is_genesis`).  Its header timestamp is the network constant, not
/// the clock, so over a fresh machine the block is a function of the
/// key and the random source's state alone.
#[verifier::external_body]
pub(crate) fn genesis_block(
    vm: &VmHandle,
    pk: &PrivateKeyHandle,
    rng: &mut RngHandle,
) -> (r: Result<BlockHandle, anyhow::Error>)
    ensures
        r matches Ok(b) ==> block_height_of(b) == 0,
        vm_is_fresh(*vm) ==> (r matches Ok(b) ==> b == genesis_of(
            *pk,
            rng_state_of(*old(rng)),
        )),
{
    Ok(BlockHandle { inner: vm.inner.genesis_beacon(&pk.inner, &mut rng.inner)? })
}

/// Relies on Ledger::load: initializes a ledger over a fresh in-memory
/// store holding exactly the given genesis block, which is then the
/// latest block, its height the latest height.
#[verifier::external_body]
pub(crate) fn load_ledger(genesis: BlockHandle) -> (r: Result<LedgerHandle, anyhow::Error>)
    ensures
        r matches Ok(l) ==> ledger_height_of(l) == block_height_of(genesis),
        r matches Ok(l) ==> ledger_tip_of(l) == genesis,
{
    Ok(LedgerHandle { inner: Ledger::load(genesis.inner, None::<u16>.into())? })
}

/// Relies on Ledger::check_next_block: validates the block against the
/// ledger's acceptance rules; it passes only a block that `Block::verify`
/// accepts against the latest block, whose header height is one past the
/// latest height.
#[verifier::external_body]
pub(crate) fn check_block(
    l: &LedgerHandle,
    b: &BlockHandle,
    rng: &mut TestRng,
) -> (r: Result<(), anyhow::Error>)
    ensures
        r is Ok && ledger_height_of(*l) < u32::MAX ==> block_height_of(*b) == ledger_height_of(
            *l,
        ) + 1,
{
    l.inner.check_next_block(&b.inner, rng)
}

/// Relies on Ledger::advance_to_next_block: commits the block, making it
/// the latest block of the ledger.
#[verifier::external_body]
pub(crate) fn advance_block(
    l: &mut LedgerHandle,
    b: &BlockHandle,
) -> (r: Result<(), anyhow::Error>)
    ensures
        r is Ok ==> ledger_height_of(*final(l)) == block_height_of(*b),
        r is Ok ==> ledger_tip_of(*final(l)) == *b,
{
    l.inner.advance_to_next_block(&b.inner)
}

/// Relies on Program::from_str: parses a program definition from
/// source, a function of the text alone.
#[verifier::external_body]
pub(crate) fn parse_program(source: &str) -> (r: Result<ProgramHandle, anyhow::Error>)
    ensures
        r matches Ok(p) ==> program_parse_of(source@) == Some(p),
        r is Err <==> program_parse_of(source@) is None,
{
    Ok(ProgramHandle { inner: Program::from_str(source)? })
}

/// Relies on VM::deploy (reached through Ledger::vm): builds a signed
/// transaction deploying exactly the given program against the current
/// ledger state, owned and signed by the given key's account.
#[verifier::external_body]
pub(crate) fn deploy_program(
    l: &LedgerHandle,
    pk: &PrivateKeyHandle,
    program: &ProgramHandle,
    rng: &mut TestRng,
) -> (r: Result<TransactionHandle, anyhow::Error>)
    ensures
        r matches Ok(t) ==> tx_deployed_program_of(t) == Some(*program),
        r matches Ok(t) ==> tx_signer_of(t) == address_of_key(*pk),
{
    Ok(TransactionHandle { inner: l.inner.vm().deploy(&pk.inner, &program.inner, None, 0, None, rng)? })
}

/// Relies on VM::execute (reached through Ledger::vm): builds a signed
/// execution transaction whose root call targets the given program id and
/// function name, with no inputs and a public fee.
#[verifier::external_body]
pub(crate) fn execute_function(
    l: &LedgerHandle,
    pk: &PrivateKeyHandle,
    program_id: &str,
    function_name: &str,
    rng: &mut TestRng,
) -> (r: Result<TransactionHandle, anyhow::Error>)
    ensures
        r matches Ok(t) ==> tx_program_of(t) == program_id@ && tx_function_of(t)
            == function_name@,
        r matches Ok(t) ==> tx_signer_of(t) == address_of_key(*pk),
        r matches Ok(t) ==> tx_root_input_count_of(t) == 0,
{
    let inputs: Vec<Value<Testnet3>> = Vec::new();
    Ok(TransactionHandle {
        inner: l.inner.vm().execute(
            &pk.inner,
            (program_id, function_name),
            inputs.into_iter(),
            None,
            0,
            None,
            rng,
        )?,
    })
}

/// Relies on Ledger::prepare_advance_to_next_beacon_block: proposes the
/// next block from the given transactions; the proposal's header height
/// is one past the latest height, and speculation builds each of the
/// proposal's confirmed entries from one of the given transactions,
/// excluding aborted ones — so every candidate the proposal records is
/// one of the transactions handed to it.
#[verifier::external_body]
pub(crate) fn propose_block(
    l: &LedgerHandle,
    pk: &PrivateKeyHandle,
    txs: &Vec<TransactionHandle>,
    rng: &mut TestRng,
) -> (r: Result<BlockHandle, anyhow::Error>)
    ensures
        ledger_height_of(*l) < u32::MAX ==> (r matches Ok(b) ==> block_height_of(b)
            == ledger_height_of(*l) + 1),
        r matches Ok(b) ==> (forall|j: int|
            0 <= j < block_transactions_of(b).len() ==> txs@.contains(
                #[trigger] block_transactions_of(b)[j],
            )),
{
    let transactions: Vec<Transaction<Testnet3>> = txs.iter().map(|t| t.inner.clone()).collect();
    Ok(BlockHandle {
        inner: l.inner.prepare_advance_to_next_beacon_block(
            &pk.inner,
            Vec::new(),
            Vec::new(),
            transactions,
            rng,
        )?,
    })
}

/// Relies on ToBytes::to_bytes_le for Transaction: the canonical
/// little-endian serialization of the transaction, a function of the
/// value alone, which FromBytes::from_bytes_le (its inverse, write_le
/// against read_le) parses back to the same transaction.
#[verifier::external_body]
pub(crate) fn tx_to_bytes(t: &TransactionHandle) -> (r: Result<Vec<u8>, anyhow::Error>)
    ensures
        r matches Ok(bytes) ==> bytes@ == tx_bytes_of(*t),
        r matches Ok(bytes) ==> tx_parse_of(bytes@) == Some(*t),
        r is Ok <==> tx_serializable(*t),
{
    Ok(t.inner.to_bytes_le()?)
}

/// Relies on FromBytes::from_bytes_le for Transaction: parses a
/// transaction from its serialized form, a function of the bytes alone,
/// failing exactly when the bytes encode no transaction.
#[verifier::external_body]
pub(crate) fn tx_from_bytes(bytes: &[u8]) -> (r: Result<TransactionHandle, anyhow::Error>)
    ensures
        r matches Ok(t) ==> tx_parse_of(bytes@) == Some(t),
        r is Err <==> tx_parse_of(bytes@) is None,
{
    Ok(TransactionHandle { inner: Transaction::from_bytes_le(bytes)? })
}

/// Relies on ToBytes::to_bytes_le for Block: the canonical little-endian
/// serialization of the block, a function of the value alone, which
/// FromBytes::from_bytes_le parses back to the same block.
#[verifier::external_body]
pub(crate) fn block_to_bytes(b: &BlockHandle) -> (r: Result<Vec<u8>, anyhow::Error>)
    ensures
        r matches Ok(bytes) ==> bytes@ == block_bytes_of(*b),
        r matches Ok(bytes) ==> block_parse_of(bytes@) == Some(*b),
{
    Ok(b.inner.to_bytes_le()?)
}

/// Relies on FromBytes::from_bytes_le for Block: parses a block from its
/// serialized form, a function of the bytes alone, failing exactly when
/// the bytes encode no block.
#[verifier::external_body]
pub(crate) fn block_from_bytes(bytes: &[u8]) -> (r: Result<BlockHandle, anyhow::Error>)
    ensures
        r matches Ok(b) ==> block_parse_of(bytes@) == Some(b),
        r is Err <==> block_parse_of(bytes@) is None,
{
    Ok(BlockHandle { inner: Block::from_bytes_le(bytes)? })
}

} // verus!
