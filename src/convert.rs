//! Field-by-field translation between the client-facing shapes and the
//! node's wire messages.
use vstd::prelude::*;
use crate::error::RpcError;
use crate::models::{
    BlockHeader, BlockResponse, BlockVerboseData, DAGTipsResponse, OutpointVerbose,
    SubmitTransactionResponse, Transaction, TransactionInput, TransactionInputVerbose,
    TransactionOutput, TxInput, TxOutput, UtxoAdded, UtxoChangedNotification, UtxoEntryInfo,
    UtxoRemoved,
};
use crate::wire::{
    GetBlockDagInfoResponseMessage, GetBlockResponseMessage, RpcBlock, RpcBlockHeader,
    RpcBlockVerboseData, RpcOutpoint, RpcScriptPublicKey, RpcTransaction, RpcTransactionInput,
    RpcTransactionOutput, RpcUtxoEntry, SubmitTransactionResponseMessage, UtxosByAddressesEntry,
    UtxosChangedNotificationMessage,
};

verus! {

/// The text of an optional string, empty where it is absent.
pub open spec fn text_or_empty(s: Option<String>) -> Seq<char> {
    match s {
        Some(t) => t@,
        None => Seq::empty(),
    }
}

pub open spec fn input_converted(i: TxInput, o: RpcTransactionInput) -> bool {
    &&& o.previous_outpoint == Some(
        RpcOutpoint {
            transaction_id: i.previous_outpoint.transaction_id,
            index: i.previous_outpoint.index,
        },
    )
    &&& o.signature_script == i.signature_script
    &&& o.sequence == i.sequence
    &&& o.sig_op_count == match i.sig_op_count {
        Some(c) => c,
        None => 0u32,
    }
}

pub open spec fn output_converted(i: TxOutput, o: RpcTransactionOutput) -> bool {
    &&& o.amount == i.amount
    &&& o.script_public_key == Some(
        RpcScriptPublicKey {
            version: i.script_public_key.version as u32,
            script_public_key: i.script_public_key.script_public_key,
        },
    )
}

/// `o` is the wire form of `t`: absent numbers become 0, absent strings
/// become empty, the mass is left for the node to compute.
pub open spec fn transaction_converted(t: TransactionInput, o: RpcTransaction) -> bool {
    &&& o.version == match t.version {
        Some(v) => v,
        None => 0u32,
    }
    &&& o.inputs@.len() == t.inputs@.len()
    &&& forall|k: int|
        0 <= k < t.inputs@.len() ==> #[trigger] input_converted(t.inputs@[k], o.inputs@[k])
    &&& o.outputs@.len() == t.outputs@.len()
    &&& forall|k: int|
        0 <= k < t.outputs@.len() ==> #[trigger] output_converted(t.outputs@[k], o.outputs@[k])
    &&& o.lock_time == match t.lock_time {
        Some(v) => v,
        None => 0u64,
    }
    &&& o.subnetwork_id@ == text_or_empty(t.subnetwork_id)
    &&& o.gas == match t.gas {
        Some(v) => v,
        None => 0u64,
    }
    &&& o.payload@ == text_or_empty(t.payload)
    &&& o.mass == 0
    &&& o.verbose_data is None
}

fn clone_or_empty(s: &Option<String>) -> (r: String)
    ensures
        r@ == text_or_empty(*s),
{
    match s {
        Some(t) => t.clone(),
        None => String::new(),
    }
}

fn convert_input(i: &TxInput) -> (o: RpcTransactionInput)
    ensures
        input_converted(*i, o),
{
    RpcTransactionInput {
        previous_outpoint: Some(
            RpcOutpoint {
                transaction_id: i.previous_outpoint.transaction_id.clone(),
                index: i.previous_outpoint.index,
            },
        ),
        signature_script: i.signature_script.clone(),
        sequence: i.sequence,
        sig_op_count: match i.sig_op_count {
            Some(c) => c,
            None => 0,
        },
    }
}

fn convert_output(i: &TxOutput) -> (o: RpcTransactionOutput)
    ensures
        output_converted(*i, o),
{
    RpcTransactionOutput {
        amount: i.amount,
        script_public_key: Some(
            RpcScriptPublicKey {
                version: i.script_public_key.version as u32,
                script_public_key: i.script_public_key.script_public_key.clone(),
            },
        ),
    }
}

/// Converts a client transaction into the node's wire form; this never fails.
pub fn convert_to_proto_transaction(tx: TransactionInput) -> (r: Result<RpcTransaction, RpcError>)
    ensures
        r is Ok,
        transaction_converted(tx, r->Ok_0),
{
    let mut inputs: Vec<RpcTransactionInput> = Vec::new();
    let mut k: usize = 0;
    while k < tx.inputs.len()
        invariant
            k <= tx.inputs@.len(),
            inputs@.len() == k,
            forall|j: int| 0 <= j < k ==> #[trigger] input_converted(tx.inputs@[j], inputs@[j]),
        decreases tx.inputs@.len() - k,
    {
        let o = convert_input(&tx.inputs[k]);
        inputs.push(o);
        k = k + 1;
    }
    let mut outputs: Vec<RpcTransactionOutput> = Vec::new();
    let mut k: usize = 0;
    while k < tx.outputs.len()
        invariant
            k <= tx.outputs@.len(),
            outputs@.len() == k,
            forall|j: int| 0 <= j < k ==> #[trigger] output_converted(tx.outputs@[j], outputs@[j]),
        decreases tx.outputs@.len() - k,
    {
        let o = convert_output(&tx.outputs[k]);
        outputs.push(o);
        k = k + 1;
    }
    Ok(
        RpcTransaction {
            version: match tx.version {
                Some(v) => v,
                None => 0,
            },
            inputs,
            outputs,
            lock_time: match tx.lock_time {
                Some(v) => v,
                None => 0,
            },
            subnetwork_id: clone_or_empty(&tx.subnetwork_id),
            gas: match tx.gas {
                Some(v) => v,
                None => 0,
            },
            payload: clone_or_empty(&tx.payload),
            mass: 0,
            verbose_data: None,
        },
    )
}

/// The client-facing header: every field copied verbatim.
pub open spec fn header_of(h: RpcBlockHeader) -> BlockHeader {
    BlockHeader {
        version: h.version,
        hash_merkle_root: h.hash_merkle_root,
        accepted_id_merkle_root: h.accepted_id_merkle_root,
        utxo_commitment: h.utxo_commitment,
        timestamp: h.timestamp,
        bits: h.bits,
        nonce: h.nonce,
        daa_score: h.daa_score,
        blue_work: h.blue_work,
        blue_score: h.blue_score,
        pruning_point: h.pruning_point,
    }
}

pub open spec fn verbose_of(v: RpcBlockVerboseData) -> BlockVerboseData {
    BlockVerboseData {
        hash: v.hash,
        difficulty_bits: v.difficulty_bits,
        selected_parent_hash: v.selected_parent_hash,
        transaction_ids: v.transaction_ids,
        is_header_only: v.is_header_only,
        blue_score: v.blue_score,
        is_chain_block: v.is_chain_block,
    }
}

/// An input as shown to clients: a missing outpoint shows as empty id and index 0.
pub open spec fn input_shown(i: RpcTransactionInput, o: TransactionInputVerbose) -> bool {
    &&& o.previous_outpoint.transaction_id@ == match i.previous_outpoint {
        Some(p) => p.transaction_id@,
        None => Seq::empty(),
    }
    &&& o.previous_outpoint.index == match i.previous_outpoint {
        Some(p) => p.index,
        None => 0u32,
    }
    &&& o.signature_script == i.signature_script
    &&& o.sequence == i.sequence
}

/// An output as shown to clients: a missing script shows as empty.
pub open spec fn output_shown(i: RpcTransactionOutput, o: TransactionOutput) -> bool {
    &&& o.amount == i.amount
    &&& o.script_public_key@ == match i.script_public_key {
        Some(s) => s.script_public_key@,
        None => Seq::empty(),
    }
}

/// A transaction as shown to clients: id and hash come from its verbose
/// data, empty where that is missing.
pub open spec fn transaction_shown(t: RpcTransaction, o: Transaction) -> bool {
    &&& o.transaction_id@ == match t.verbose_data {
        Some(v) => v.transaction_id@,
        None => Seq::empty(),
    }
    &&& o.hash@ == match t.verbose_data {
        Some(v) => v.hash@,
        None => Seq::empty(),
    }
    &&& o.mass == t.mass
    &&& o.inputs@.len() == t.inputs@.len()
    &&& forall|k: int|
        0 <= k < t.inputs@.len() ==> #[trigger] input_shown(t.inputs@[k], o.inputs@[k])
    &&& o.outputs@.len() == t.outputs@.len()
    &&& forall|k: int|
        0 <= k < t.outputs@.len() ==> #[trigger] output_shown(t.outputs@[k], o.outputs@[k])
}

/// `o` shows block `b`, whose header is `h`.
pub open spec fn block_shown(b: RpcBlock, h: RpcBlockHeader, o: BlockResponse) -> bool {
    &&& o.hash == h.hash
    &&& o.header == header_of(h)
    &&& o.transactions@.len() == b.transactions@.len()
    &&& forall|k: int|
        0 <= k < b.transactions@.len() ==> #[trigger] transaction_shown(
            b.transactions@[k],
            o.transactions@[k],
        )
    &&& o.verbose_data == match b.verbose_data {
        Some(v) => Some(verbose_of(v)),
        None => None,
    }
}

/// What turning the get-block reply `msg` into a client-facing block gives.
pub open spec fn block_outcome(msg: GetBlockResponseMessage, r: Result<BlockResponse, RpcError>) -> bool {
    match msg.block {
        None => r matches Err(RpcError::InvalidResponse(m)) && m@ == "Block data missing"@,
        Some(b) => match b.header {
            None => r matches Err(RpcError::InvalidResponse(m)) && m@ == "Block header missing"@,
            Some(h) => r is Ok && block_shown(b, h, r->Ok_0),
        },
    }
}

fn show_input(i: &RpcTransactionInput) -> (o: TransactionInputVerbose)
    ensures
        input_shown(*i, o),
{
    let previous_outpoint = match &i.previous_outpoint {
        Some(p) => OutpointVerbose { transaction_id: p.transaction_id.clone(), index: p.index },
        None => OutpointVerbose { transaction_id: String::new(), index: 0 },
    };
    TransactionInputVerbose {
        previous_outpoint,
        signature_script: i.signature_script.clone(),
        sequence: i.sequence,
    }
}

fn show_output(i: &RpcTransactionOutput) -> (o: TransactionOutput)
    ensures
        output_shown(*i, o),
{
    let script_public_key = match &i.script_public_key {
        Some(s) => s.script_public_key.clone(),
        None => String::new(),
    };
    TransactionOutput { amount: i.amount, script_public_key }
}

fn show_transaction(t: &RpcTransaction) -> (o: Transaction)
    ensures
        transaction_shown(*t, o),
{
    let mut inputs: Vec<TransactionInputVerbose> = Vec::new();
    let mut k: usize = 0;
    while k < t.inputs.len()
        invariant
            k <= t.inputs@.len(),
            inputs@.len() == k,
            forall|j: int| 0 <= j < k ==> #[trigger] input_shown(t.inputs@[j], inputs@[j]),
        decreases t.inputs@.len() - k,
    {
        let o = show_input(&t.inputs[k]);
        inputs.push(o);
        k = k + 1;
    }
    let mut outputs: Vec<TransactionOutput> = Vec::new();
    let mut k: usize = 0;
    while k < t.outputs.len()
        invariant
            k <= t.outputs@.len(),
            outputs@.len() == k,
            forall|j: int| 0 <= j < k ==> #[trigger] output_shown(t.outputs@[j], outputs@[j]),
        decreases t.outputs@.len() - k,
    {
        let o = show_output(&t.outputs[k]);
        outputs.push(o);
        k = k + 1;
    }
    let (transaction_id, hash) = match &t.verbose_data {
        Some(v) => (v.transaction_id.clone(), v.hash.clone()),
        None => (String::new(), String::new()),
    };
    Transaction { transaction_id, hash, mass: t.mass, inputs, outputs }
}

/// Turns the node's get-block reply into the client-facing block. Fails with
/// `InvalidResponse` when the reply carries no block, or a block without header.
pub fn block_response(msg: GetBlockResponseMessage) -> (r: Result<BlockResponse, RpcError>)
    ensures
        block_outcome(msg, r),
{
    let block = match msg.block {
        Some(b) => b,
        None => {
            return Err(RpcError::InvalidResponse(String::from_str("Block data missing")));
        },
    };
    let ghost b0 = block;
    let RpcBlock { header, transactions, verbose_data } = block;
    let header = match header {
        Some(h) => h,
        None => {
            return Err(RpcError::InvalidResponse(String::from_str("Block header missing")));
        },
    };
    let mut shown: Vec<Transaction> = Vec::new();
    let mut k: usize = 0;
    while k < transactions.len()
        invariant
            k <= transactions@.len(),
            shown@.len() == k,
            forall|j: int|
                0 <= j < k ==> #[trigger] transaction_shown(transactions@[j], shown@[j]),
        decreases transactions@.len() - k,
    {
        let o = show_transaction(&transactions[k]);
        shown.push(o);
        k = k + 1;
    }
    let verbose_data = match verbose_data {
        Some(v) => Some(
            BlockVerboseData {
                hash: v.hash,
                difficulty_bits: v.difficulty_bits,
                selected_parent_hash: v.selected_parent_hash,
                transaction_ids: v.transaction_ids,
                is_header_only: v.is_header_only,
                blue_score: v.blue_score,
                is_chain_block: v.is_chain_block,
            },
        ),
        None => None,
    };
    let hash = header.hash.clone();
    let h = header;
    let header = BlockHeader {
        version: h.version,
        hash_merkle_root: h.hash_merkle_root,
        accepted_id_merkle_root: h.accepted_id_merkle_root,
        utxo_commitment: h.utxo_commitment,
        timestamp: h.timestamp,
        bits: h.bits,
        nonce: h.nonce,
        daa_score: h.daa_score,
        blue_work: h.blue_work,
        blue_score: h.blue_score,
        pruning_point: h.pruning_point,
    };
    Ok(BlockResponse { hash, header, transactions: shown, verbose_data })
}

pub open spec fn dag_tips_of(m: GetBlockDagInfoResponseMessage) -> DAGTipsResponse {
    DAGTipsResponse {
        tip_hashes: m.tip_hashes,
        block_count: m.block_count,
        header_count: m.header_count,
        difficulty_bits: m.difficulty_bits,
        past_median_time: m.past_median_time,
        virtual_parent_hashes: m.virtual_parent_hashes,
        pruning_point_hash: m.pruning_point_hash,
        virtual_daa_score: m.virtual_daa_score,
    }
}

/// Turns the node's DAG-info reply into the client-facing DAG tips.
pub fn dag_tips_response(m: GetBlockDagInfoResponseMessage) -> (r: DAGTipsResponse)
    ensures
        r == dag_tips_of(m),
{
    DAGTipsResponse {
        tip_hashes: m.tip_hashes,
        block_count: m.block_count,
        header_count: m.header_count,
        difficulty_bits: m.difficulty_bits,
        past_median_time: m.past_median_time,
        virtual_parent_hashes: m.virtual_parent_hashes,
        pruning_point_hash: m.pruning_point_hash,
        virtual_daa_score: m.virtual_daa_score,
    }
}

/// Turns the node's submit reply into the client-facing one.
pub fn submit_response(m: SubmitTransactionResponseMessage) -> (r: SubmitTransactionResponse)
    ensures
        r == (SubmitTransactionResponse { transaction_id: m.transaction_id }),
{
    SubmitTransactionResponse { transaction_id: m.transaction_id }
}

pub open spec fn outpoint_of(p: Option<RpcOutpoint>) -> Option<OutpointVerbose> {
    match p {
        Some(q) => Some(OutpointVerbose { transaction_id: q.transaction_id, index: q.index }),
        None => None,
    }
}

pub open spec fn utxo_entry_of(e: Option<RpcUtxoEntry>) -> Option<UtxoEntryInfo> {
    match e {
        Some(u) => Some(
            UtxoEntryInfo {
                amount: u.amount,
                script_public_key: match u.script_public_key {
                    Some(s) => Some(s.script_public_key),
                    None => None,
                },
                block_daa_score: u.block_daa_score,
                is_coinbase: u.is_coinbase,
            },
        ),
        None => None,
    }
}

pub open spec fn added_of(e: UtxosByAddressesEntry) -> UtxoAdded {
    UtxoAdded {
        address: e.address,
        outpoint: outpoint_of(e.outpoint),
        utxo_entry: utxo_entry_of(e.utxo_entry),
    }
}

pub open spec fn removed_of(e: UtxosByAddressesEntry) -> UtxoRemoved {
    UtxoRemoved { address: e.address, outpoint: outpoint_of(e.outpoint) }
}

/// `n` shows notification `m`, entry by entry and in the same order.
pub open spec fn notification_shown(m: UtxosChangedNotificationMessage, n: UtxoChangedNotification) -> bool {
    &&& n.added@ == m.added@.map_values(|e: UtxosByAddressesEntry| added_of(e))
    &&& n.removed@ == m.removed@.map_values(|e: UtxosByAddressesEntry| removed_of(e))
}

fn show_outpoint(p: &Option<RpcOutpoint>) -> (r: Option<OutpointVerbose>)
    ensures
        r == outpoint_of(*p),
{
    match p {
        Some(q) => Some(OutpointVerbose { transaction_id: q.transaction_id.clone(), index: q.index }),
        None => None,
    }
}

fn show_added(e: &UtxosByAddressesEntry) -> (r: UtxoAdded)
    ensures
        r == added_of(*e),
{
    let utxo_entry = match &e.utxo_entry {
        Some(u) => Some(
            UtxoEntryInfo {
                amount: u.amount,
                script_public_key: match &u.script_public_key {
                    Some(s) => Some(s.script_public_key.clone()),
                    None => None,
                },
                block_daa_score: u.block_daa_score,
                is_coinbase: u.is_coinbase,
            },
        ),
        None => None,
    };
    UtxoAdded { address: e.address.clone(), outpoint: show_outpoint(&e.outpoint), utxo_entry }
}

/// Turns a change notification into the form forwarded to a subscriber.
/// Optional sub-fields that the node left out stay absent.
pub fn utxo_notification(m: &UtxosChangedNotificationMessage) -> (n: UtxoChangedNotification)
    ensures
        notification_shown(*m, n),
{
    let mut added: Vec<UtxoAdded> = Vec::new();
    let mut k: usize = 0;
    while k < m.added.len()
        invariant
            k <= m.added@.len(),
            added@ == m.added@.subrange(0, k as int).map_values(
                |e: UtxosByAddressesEntry| added_of(e),
            ),
        decreases m.added@.len() - k,
    {
        let a = show_added(&m.added[k]);
        added.push(a);
        k = k + 1;
        assert(m.added@.subrange(0, k as int) == m.added@.subrange(0, k - 1 as int).push(
            m.added@[k - 1],
        ));
    }
    assert(m.added@.subrange(0, m.added@.len() as int) == m.added@);
    let mut removed: Vec<UtxoRemoved> = Vec::new();
    let mut k: usize = 0;
    while k < m.removed.len()
        invariant
            k <= m.removed@.len(),
            removed@ == m.removed@.subrange(0, k as int).map_values(
                |e: UtxosByAddressesEntry| removed_of(e),
            ),
        decreases m.removed@.len() - k,
    {
        let e = &m.removed[k];
        removed.push(UtxoRemoved { address: e.address.clone(), outpoint: show_outpoint(&e.outpoint) });
        k = k + 1;
        assert(m.removed@.subrange(0, k as int) == m.removed@.subrange(0, k - 1 as int).push(
            m.removed@[k - 1],
        ));
    }
    assert(m.removed@.subrange(0, m.removed@.len() as int) == m.removed@);
    UtxoChangedNotification { added, removed }
}

/// A forwarded notification keeps every optional sub-field that the node
/// left out absent, rather than filling it with a zero or empty value.
pub proof fn lemma_absent_fields_stay_absent(m: UtxosChangedNotificationMessage, n: UtxoChangedNotification)
    requires
        notification_shown(m, n),
    ensures
        n.added@.len() == m.added@.len(),
        n.removed@.len() == m.removed@.len(),
        forall|k: int|
            0 <= k < m.added@.len() ==> {
                let (e, a) = (#[trigger] m.added@[k], n.added@[k]);
                &&& (e.outpoint is None <==> a.outpoint is None)
                &&& (e.utxo_entry is None <==> a.utxo_entry is None)
                &&& e.utxo_entry is Some ==> (e.utxo_entry->0.script_public_key is None
                    <==> a.utxo_entry->0.script_public_key is None)
            },
        forall|k: int|
            0 <= k < m.removed@.len() ==> (#[trigger] m.removed@[k].outpoint is None
                <==> n.removed@[k].outpoint is None),
{
}

} // verus!
