//! Messages exchanged with the node over one bidirectional stream.
//!
//! A request envelope carries exactly one request payload; a response
//! envelope carries at most one response payload. Floating-point fields of the
//! node's messages are carried as their IEEE-754 bit patterns.
use vstd::prelude::*;

verus! {

/// A domain-level error reported by the node inside a response.
#[derive(Clone, Debug, PartialEq, Eq)]
pub struct NodeError {
    pub message: String,
}

#[derive(Clone, Debug, PartialEq, Eq)]
pub struct RpcOutpoint {
    pub transaction_id: String,
    pub index: u32,
}

#[derive(Clone, Debug, PartialEq, Eq)]
pub struct RpcScriptPublicKey {
    pub version: u32,
    pub script_public_key: String,
}

#[derive(Clone, Debug, PartialEq, Eq)]
pub struct RpcTransactionInput {
    pub previous_outpoint: Option<RpcOutpoint>,
    pub signature_script: String,
    pub sequence: u64,
    pub sig_op_count: u32,
}

#[derive(Clone, Debug, PartialEq, Eq)]
pub struct RpcTransactionOutput {
    pub amount: u64,
    pub script_public_key: Option<RpcScriptPublicKey>,
}

#[derive(Clone, Debug, PartialEq, Eq)]
pub struct RpcTransactionVerboseData {
    pub transaction_id: String,
    pub hash: String,
}

#[derive(Clone, Debug, PartialEq, Eq)]
pub struct RpcTransaction {
    pub version: u32,
    pub inputs: Vec<RpcTransactionInput>,
    pub outputs: Vec<RpcTransactionOutput>,
    pub lock_time: u64,
    pub subnetwork_id: String,
    pub gas: u64,
    pub payload: String,
    pub mass: u64,
    pub verbose_data: Option<RpcTransactionVerboseData>,
}

#[derive(Clone, Debug, PartialEq, Eq)]
pub struct RpcBlockHeader {
    pub hash: String,
    pub version: u32,
    pub hash_merkle_root: String,
    pub accepted_id_merkle_root: String,
    pub utxo_commitment: String,
    pub timestamp: i64,
    pub bits: u32,
    pub nonce: u64,
    pub daa_score: u64,
    pub blue_work: String,
    pub blue_score: u64,
    pub pruning_point: String,
}

#[derive(Clone, Debug, PartialEq, Eq)]
pub struct RpcBlockVerboseData {
    pub hash: String,
    /// Bit pattern of the node's `f64` difficulty.
    pub difficulty_bits: u64,
    pub selected_parent_hash: String,
    pub transaction_ids: Vec<String>,
    pub is_header_only: bool,
    pub blue_score: u64,
    pub is_chain_block: bool,
}

#[derive(Clone, Debug, PartialEq, Eq)]
pub struct RpcBlock {
    pub header: Option<RpcBlockHeader>,
    pub transactions: Vec<RpcTransaction>,
    pub verbose_data: Option<RpcBlockVerboseData>,
}

#[derive(Clone, Debug, PartialEq, Eq)]
pub struct RpcUtxoEntry {
    pub amount: u64,
    pub script_public_key: Option<RpcScriptPublicKey>,
    pub block_daa_score: u64,
    pub is_coinbase: bool,
}

#[derive(Clone, Debug, PartialEq, Eq)]
pub struct UtxosByAddressesEntry {
    pub address: String,
    pub outpoint: Option<RpcOutpoint>,
    pub utxo_entry: Option<RpcUtxoEntry>,
}

#[derive(Clone, Debug, PartialEq, Eq)]
pub struct GetBlockResponseMessage {
    pub block: Option<RpcBlock>,
    pub error: Option<NodeError>,
}

#[derive(Clone, Debug, PartialEq, Eq)]
pub struct SubmitTransactionResponseMessage {
    pub transaction_id: String,
    pub error: Option<NodeError>,
}

#[derive(Clone, Debug, PartialEq, Eq)]
pub struct GetBlockDagInfoResponseMessage {
    pub block_count: u64,
    pub header_count: u64,
    pub tip_hashes: Vec<String>,
    /// Bit pattern of the node's `f64` difficulty.
    pub difficulty_bits: u64,
    pub past_median_time: i64,
    pub virtual_parent_hashes: Vec<String>,
    pub pruning_point_hash: String,
    pub virtual_daa_score: u64,
    pub error: Option<NodeError>,
}

#[derive(Clone, Debug, PartialEq, Eq)]
pub struct GetUtxosByAddressesResponseMessage {
    pub entries: Vec<UtxosByAddressesEntry>,
    pub error: Option<NodeError>,
}

#[derive(Clone, Debug, PartialEq, Eq)]
pub struct NotifyUtxosChangedResponseMessage {
    pub error: Option<NodeError>,
}

#[derive(Clone, Debug, PartialEq, Eq)]
pub struct UtxosChangedNotificationMessage {
    pub added: Vec<UtxosByAddressesEntry>,
    pub removed: Vec<UtxosByAddressesEntry>,
}

/// The kinds of request that the gateway sends to the node.
#[derive(Clone, Copy, Debug, PartialEq, Eq, Structural)]
pub enum RequestKind {
    GetBlock,
    SubmitTransaction,
    GetBlockDagInfo,
    GetUtxosByAddresses,
    NotifyUtxosChanged,
}

/// Exactly one request payload.
#[derive(Clone, Debug, PartialEq, Eq)]
pub enum RequestPayload {
    GetBlock { hash: String, include_transactions: bool },
    SubmitTransaction { transaction: RpcTransaction, allow_orphan: bool },
    GetBlockDagInfo,
    GetUtxosByAddresses { addresses: Vec<String> },
    NotifyUtxosChanged { addresses: Vec<String> },
}

impl RequestPayload {
    pub open spec fn spec_kind(&self) -> RequestKind {
        match self {
            RequestPayload::GetBlock { .. } => RequestKind::GetBlock,
            RequestPayload::SubmitTransaction { .. } => RequestKind::SubmitTransaction,
            RequestPayload::GetBlockDagInfo => RequestKind::GetBlockDagInfo,
            RequestPayload::GetUtxosByAddresses { .. } => RequestKind::GetUtxosByAddresses,
            RequestPayload::NotifyUtxosChanged { .. } => RequestKind::NotifyUtxosChanged,
        }
    }

    /// The kind of this payload.
    #[verifier::when_used_as_spec(spec_kind)]
    pub fn kind(&self) -> (k: RequestKind)
        ensures
            k == self.spec_kind(),
    {
        match self {
            RequestPayload::GetBlock { .. } => RequestKind::GetBlock,
            RequestPayload::SubmitTransaction { .. } => RequestKind::SubmitTransaction,
            RequestPayload::GetBlockDagInfo => RequestKind::GetBlockDagInfo,
            RequestPayload::GetUtxosByAddresses { .. } => RequestKind::GetUtxosByAddresses,
            RequestPayload::NotifyUtxosChanged { .. } => RequestKind::NotifyUtxosChanged,
        }
    }
}

/// A request envelope: a correlation identifier and one payload.
#[derive(Clone, Debug, PartialEq, Eq)]
pub struct KaspadRequest {
    pub id: u64,
    pub payload: RequestPayload,
}

/// Exactly one response payload.
#[derive(Clone, Debug, PartialEq, Eq)]
pub enum ResponsePayload {
    GetBlock(GetBlockResponseMessage),
    SubmitTransaction(SubmitTransactionResponseMessage),
    GetBlockDagInfo(GetBlockDagInfoResponseMessage),
    GetUtxosByAddresses(GetUtxosByAddressesResponseMessage),
    NotifyUtxosChanged(NotifyUtxosChangedResponseMessage),
    UtxosChangedNotification(UtxosChangedNotificationMessage),
}

impl ResponsePayload {
    /// Whether this payload is the reply that a request of kind `k` expects.
    pub open spec fn spec_answers(&self, k: RequestKind) -> bool {
        match self {
            ResponsePayload::GetBlock(_) => k == RequestKind::GetBlock,
            ResponsePayload::SubmitTransaction(_) => k == RequestKind::SubmitTransaction,
            ResponsePayload::GetBlockDagInfo(_) => k == RequestKind::GetBlockDagInfo,
            ResponsePayload::GetUtxosByAddresses(_) => k == RequestKind::GetUtxosByAddresses,
            ResponsePayload::NotifyUtxosChanged(_) => k == RequestKind::NotifyUtxosChanged,
            ResponsePayload::UtxosChangedNotification(_) => false,
        }
    }

    #[verifier::when_used_as_spec(spec_answers)]
    pub fn answers(&self, k: RequestKind) -> (r: bool)
        ensures
            r == self.spec_answers(k),
    {
        match self {
            ResponsePayload::GetBlock(_) => k == RequestKind::GetBlock,
            ResponsePayload::SubmitTransaction(_) => k == RequestKind::SubmitTransaction,
            ResponsePayload::GetBlockDagInfo(_) => k == RequestKind::GetBlockDagInfo,
            ResponsePayload::GetUtxosByAddresses(_) => k == RequestKind::GetUtxosByAddresses,
            ResponsePayload::NotifyUtxosChanged(_) => k == RequestKind::NotifyUtxosChanged,
            ResponsePayload::UtxosChangedNotification(_) => false,
        }
    }

    /// The domain-level error that the node set in this payload, if any.
    pub open spec fn spec_node_error(&self) -> Option<NodeError> {
        match self {
            ResponsePayload::GetBlock(m) => m.error,
            ResponsePayload::SubmitTransaction(m) => m.error,
            ResponsePayload::GetBlockDagInfo(m) => m.error,
            ResponsePayload::GetUtxosByAddresses(m) => m.error,
            ResponsePayload::NotifyUtxosChanged(m) => m.error,
            ResponsePayload::UtxosChangedNotification(_) => None,
        }
    }

    pub fn node_error(&self) -> (r: Option<&NodeError>)
        ensures
            match r {
                Some(e) => self.spec_node_error() == Some(*e),
                None => self.spec_node_error() is None,
            },
    {
        match self {
            ResponsePayload::GetBlock(m) => m.error.as_ref(),
            ResponsePayload::SubmitTransaction(m) => m.error.as_ref(),
            ResponsePayload::GetBlockDagInfo(m) => m.error.as_ref(),
            ResponsePayload::GetUtxosByAddresses(m) => m.error.as_ref(),
            ResponsePayload::NotifyUtxosChanged(m) => m.error.as_ref(),
            ResponsePayload::UtxosChangedNotification(_) => None,
        }
    }
}

/// A response envelope as read from the stream.
#[derive(Clone, Debug, PartialEq, Eq)]
pub struct KaspadResponse {
    pub id: u64,
    pub payload: Option<ResponsePayload>,
}

} // verus!
