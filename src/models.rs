//! The gateway's request and response shapes, as clients see them.
//!
//! Floating-point values are carried as IEEE-754 bit patterns.
use vstd::prelude::*;

verus! {

/// Request to get a block by hash.
#[derive(Clone, Debug, PartialEq, Eq)]
pub struct GetBlockRequest {
    pub hash: String,
    pub include_transactions: bool,
}

/// The value of `include_transactions` when a request leaves it out.
pub fn default_true() -> (r: bool)
    ensures
        r,
{
    true
}

/// Request to submit a transaction.
#[derive(Clone, Debug, PartialEq, Eq)]
pub struct SubmitTransactionRequest {
    pub transaction: TransactionInput,
    pub allow_orphan: bool,
}

/// Simplified transaction input format.
#[derive(Clone, Debug, PartialEq, Eq)]
pub struct TransactionInput {
    pub version: Option<u32>,
    pub inputs: Vec<TxInput>,
    pub outputs: Vec<TxOutput>,
    pub lock_time: Option<u64>,
    pub subnetwork_id: Option<String>,
    pub gas: Option<u64>,
    pub payload: Option<String>,
}

#[derive(Clone, Debug, PartialEq, Eq)]
pub struct TxInput {
    pub previous_outpoint: Outpoint,
    pub signature_script: String,
    pub sequence: u64,
    pub sig_op_count: Option<u32>,
}

#[derive(Clone, Debug, PartialEq, Eq)]
pub struct Outpoint {
    pub transaction_id: String,
    pub index: u32,
}

#[derive(Clone, Debug, PartialEq, Eq)]
pub struct TxOutput {
    pub amount: u64,
    pub script_public_key: ScriptPublicKey,
}

#[derive(Clone, Debug, PartialEq, Eq)]
pub struct ScriptPublicKey {
    pub script_public_key: String,
    pub version: u16,
}

/// Request for DAG tips.
#[derive(Clone, Debug, PartialEq, Eq)]
pub struct GetDAGTipsRequest {}

/// Request to subscribe to UTXO changes.
#[derive(Clone, Debug, PartialEq, Eq)]
pub struct SubscribeUTXORequest {
    pub addresses: Vec<String>,
}

/// Query of a subscription: comma-separated addresses.
#[derive(Clone, Debug, PartialEq, Eq)]
pub struct WsQuery {
    pub addresses: String,
}

/// Block response.
#[derive(Clone, Debug, PartialEq, Eq)]
pub struct BlockResponse {
    pub hash: String,
    pub header: BlockHeader,
    pub transactions: Vec<Transaction>,
    pub verbose_data: Option<BlockVerboseData>,
}

#[derive(Clone, Debug, PartialEq, Eq)]
pub struct BlockHeader {
    pub version: u32,
    pub hash_merkle_root: String,
    pub accepted_id_merkle_root: String,
    pub utxo_commitment: String,
    pub timestamp: i64,
    pub bits: u32,
    pub nonce: u64,
    pub daa_score: u64,
    pub blue_work: String,
    pub blue_score: u64,
    pub pruning_point: String,
}

#[derive(Clone, Debug, PartialEq, Eq)]
pub struct Transaction {
    pub transaction_id: String,
    pub hash: String,
    pub mass: u64,
    pub inputs: Vec<TransactionInputVerbose>,
    pub outputs: Vec<TransactionOutput>,
}

#[derive(Clone, Debug, PartialEq, Eq)]
pub struct TransactionInputVerbose {
    pub previous_outpoint: OutpointVerbose,
    pub signature_script: String,
    pub sequence: u64,
}

#[derive(Clone, Debug, PartialEq, Eq)]
pub struct OutpointVerbose {
    pub transaction_id: String,
    pub index: u32,
}

#[derive(Clone, Debug, PartialEq, Eq)]
pub struct TransactionOutput {
    pub amount: u64,
    pub script_public_key: String,
}

#[derive(Clone, Debug, PartialEq, Eq)]
pub struct BlockVerboseData {
    pub hash: String,
    /// Bit pattern of the `f64` difficulty.
    pub difficulty_bits: u64,
    pub selected_parent_hash: String,
    pub transaction_ids: Vec<String>,
    pub is_header_only: bool,
    pub blue_score: u64,
    pub is_chain_block: bool,
}

/// Submit transaction response.
#[derive(Clone, Debug, PartialEq, Eq)]
pub struct SubmitTransactionResponse {
    pub transaction_id: String,
}

/// DAG tips response.
#[derive(Clone, Debug, PartialEq, Eq)]
pub struct DAGTipsResponse {
    pub tip_hashes: Vec<String>,
    pub block_count: u64,
    pub header_count: u64,
    /// Bit pattern of the `f64` difficulty.
    pub difficulty_bits: u64,
    pub past_median_time: i64,
    pub virtual_parent_hashes: Vec<String>,
    pub pruning_point_hash: String,
    pub virtual_daa_score: u64,
}

/// A UTXO entry as forwarded to a subscriber; an absent script stays absent.
#[derive(Clone, Debug, PartialEq, Eq)]
pub struct UtxoEntryInfo {
    pub amount: u64,
    pub script_public_key: Option<String>,
    pub block_daa_score: u64,
    pub is_coinbase: bool,
}

/// An added UTXO; absent sub-fields stay absent.
#[derive(Clone, Debug, PartialEq, Eq)]
pub struct UtxoAdded {
    pub address: String,
    pub outpoint: Option<OutpointVerbose>,
    pub utxo_entry: Option<UtxoEntryInfo>,
}

/// A removed UTXO; an absent outpoint stays absent.
#[derive(Clone, Debug, PartialEq, Eq)]
pub struct UtxoRemoved {
    pub address: String,
    pub outpoint: Option<OutpointVerbose>,
}

/// A change notification as forwarded to a subscriber.
#[derive(Clone, Debug, PartialEq, Eq)]
pub struct UtxoChangedNotification {
    pub added: Vec<UtxoAdded>,
    pub removed: Vec<UtxoRemoved>,
}

} // verus!
