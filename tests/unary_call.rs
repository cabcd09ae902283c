use kaspa_rpc_service::error::RpcError;
use kaspa_rpc_service::gateway::{begin_get_block, begin_get_dag_tips, finish_get_block, finish_get_dag_tips};
use kaspa_rpc_service::ids::{generate_request_id, RequestIds};
use kaspa_rpc_service::models::GetBlockRequest;
use kaspa_rpc_service::stream::StreamEvent;
use kaspa_rpc_service::unary::{begin_call, match_response, UnaryAction, UnaryCall};
use kaspa_rpc_service::wire::{
    GetBlockDagInfoResponseMessage, GetBlockResponseMessage, KaspadRequest, KaspadResponse,
    NodeError, RequestKind, RequestPayload, ResponsePayload, RpcBlock, RpcBlockHeader,
    SubmitTransactionResponseMessage,
};

fn header(hash: &str) -> RpcBlockHeader {
    RpcBlockHeader {
        hash: hash.to_string(),
        version: 1,
        hash_merkle_root: "m".repeat(64),
        accepted_id_merkle_root: "c".repeat(64),
        utxo_commitment: "d".repeat(64),
        timestamp: 1_700_000_000_000,
        bits: 0x1e7fffff,
        nonce: 42,
        daa_score: 1000,
        blue_work: "ff".to_string(),
        blue_score: 990,
        pruning_point: "e".repeat(64),
    }
}

fn block_reply(id: u64, hash: &str) -> KaspadResponse {
    KaspadResponse {
        id,
        payload: Some(ResponsePayload::GetBlock(GetBlockResponseMessage {
            block: Some(RpcBlock { header: Some(header(hash)), transactions: vec![], verbose_data: None }),
            error: None,
        })),
    }
}

fn dag_reply(block_count: u64) -> KaspadResponse {
    KaspadResponse {
        id: 0,
        payload: Some(ResponsePayload::GetBlockDagInfo(GetBlockDagInfoResponseMessage {
            block_count,
            header_count: block_count + 1,
            tip_hashes: vec![format!("tip{}", block_count)],
            difficulty_bits: 2.5f64.to_bits(),
            past_median_time: 7,
            virtual_parent_hashes: vec![],
            pruning_point_hash: "p".to_string(),
            virtual_daa_score: 9,
            error: None,
        })),
    }
}

fn drive(call: UnaryCall, events: Vec<StreamEvent>) -> Vec<UnaryAction> {
    let mut call = call;
    let mut actions = Vec::new();
    for ev in events {
        let (next, action) = call.step(ev);
        call = next;
        actions.push(action);
    }
    actions
}

#[test]
fn request_ids_start_at_one_and_increase() {
    let mut ids = RequestIds::new();
    let a = generate_request_id(&mut ids);
    let b = generate_request_id(&mut ids);
    let c = generate_request_id(&mut ids);
    assert_eq!((a, b, c), (1, 2, 3));
    assert!(ids.can_issue());
}

#[test]
fn get_block_round_trip_copies_header_verbatim() {
    let hash = "a".repeat(64);
    let mut ids = RequestIds::new();
    let request = GetBlockRequest { hash: hash.clone(), include_transactions: true };
    let (call, first) = begin_get_block(&mut ids, request).unwrap();
    assert!(matches!(first, UnaryAction::OpenStream));
    let actions = drive(call, vec![StreamEvent::Opened, StreamEvent::Sent, StreamEvent::Received(block_reply(1, &hash))]);
    match &actions[0] {
        UnaryAction::Send(req) => assert_eq!(
            req,
            &KaspadRequest { id: 1, payload: RequestPayload::GetBlock { hash: hash.clone(), include_transactions: true } }
        ),
        other => panic!("expected a send, got {:?}", other),
    }
    assert!(matches!(actions[1], UnaryAction::Receive));
    let result = match actions.into_iter().nth(2).unwrap() {
        UnaryAction::Finish(r) => r,
        other => panic!("expected the call to finish, got {:?}", other),
    };
    let block = finish_get_block(result).unwrap();
    let h = header(&hash);
    assert_eq!(block.hash, hash);
    assert_eq!(block.header.version, h.version);
    assert_eq!(block.header.hash_merkle_root, h.hash_merkle_root);
    assert_eq!(block.header.accepted_id_merkle_root, h.accepted_id_merkle_root);
    assert_eq!(block.header.utxo_commitment, h.utxo_commitment);
    assert_eq!(block.header.timestamp, h.timestamp);
    assert_eq!(block.header.bits, h.bits);
    assert_eq!(block.header.nonce, h.nonce);
    assert_eq!(block.header.daa_score, h.daa_score);
    assert_eq!(block.header.blue_work, h.blue_work);
    assert_eq!(block.header.blue_score, h.blue_score);
    assert_eq!(block.header.pruning_point, h.pruning_point);
    assert!(block.transactions.is_empty());
    assert!(block.verbose_data.is_none());
}

#[test]
fn short_hash_is_refused_before_any_stream() {
    let mut ids = RequestIds::new();
    let request = GetBlockRequest { hash: "short".to_string(), include_transactions: true };
    match begin_get_block(&mut ids, request) {
        Err(RpcError::BadRequest(m)) => assert_eq!(m, "Invalid block hash format"),
        other => panic!("expected BadRequest, got {:?}", other.map(|_| ())),
    }
    assert_eq!(generate_request_id(&mut ids), 1);
}

#[test]
fn non_hex_hash_is_refused() {
    let mut ids = RequestIds::new();
    let mut hash = "a".repeat(63);
    hash.push('g');
    let request = GetBlockRequest { hash, include_transactions: false };
    assert!(matches!(begin_get_block(&mut ids, request), Err(RpcError::BadRequest(_))));
}

#[test]
fn one_open_and_one_send_then_nothing_more() {
    let mut ids = RequestIds::new();
    let (call, first) = begin_get_dag_tips(&mut ids);
    let actions = drive(call, vec![
        StreamEvent::Opened,
        StreamEvent::Sent,
        StreamEvent::Received(dag_reply(5)),
        StreamEvent::Sent,
        StreamEvent::Received(dag_reply(6)),
    ]);
    let mut all = vec![first];
    all.extend(actions);
    let opens = all.iter().filter(|a| matches!(a, UnaryAction::OpenStream)).count();
    let sends = all.iter().filter(|a| matches!(a, UnaryAction::Send(_))).count();
    let receives = all.iter().filter(|a| matches!(a, UnaryAction::Receive)).count();
    assert_eq!((opens, sends, receives), (1, 1, 1));
    assert!(matches!(all[0], UnaryAction::OpenStream));
    assert!(matches!(all[1], UnaryAction::Send(_)));
    assert!(matches!(all[2], UnaryAction::Receive));
    assert!(matches!(all[3], UnaryAction::Finish(Ok(_))));
    assert!(matches!(all[4], UnaryAction::Halt));
    assert!(matches!(all[5], UnaryAction::Halt));
}

#[test]
fn mismatched_reply_is_a_protocol_mismatch() {
    let reply = KaspadResponse {
        id: 1,
        payload: Some(ResponsePayload::SubmitTransaction(SubmitTransactionResponseMessage {
            transaction_id: "t".to_string(),
            error: None,
        })),
    };
    assert_eq!(match_response(RequestKind::GetBlock, reply), Err(RpcError::ProtocolMismatch(RequestKind::GetBlock)));
    let empty = KaspadResponse { id: 1, payload: None };
    assert_eq!(match_response(RequestKind::GetBlockDagInfo, empty), Err(RpcError::ProtocolMismatch(RequestKind::GetBlockDagInfo)));
}

#[test]
fn mismatched_reply_through_a_call() {
    let mut ids = RequestIds::new();
    let (call, _) = begin_call(&mut ids, RequestPayload::GetBlockDagInfo);
    let actions = drive(call, vec![StreamEvent::Opened, StreamEvent::Sent, StreamEvent::Received(block_reply(1, "x"))]);
    assert!(matches!(&actions[2], UnaryAction::Finish(Err(RpcError::ProtocolMismatch(RequestKind::GetBlockDagInfo)))));
}

#[test]
fn node_error_becomes_remote_error() {
    let reply = KaspadResponse {
        id: 3,
        payload: Some(ResponsePayload::GetBlock(GetBlockResponseMessage {
            block: None,
            error: Some(NodeError { message: "block not found".to_string() }),
        })),
    };
    assert_eq!(match_response(RequestKind::GetBlock, reply), Err(RpcError::Kaspa("block not found".to_string())));
}

#[test]
fn matched_reply_is_returned_unchanged() {
    let reply = dag_reply(11);
    let expected = reply.payload.clone().unwrap();
    assert_eq!(match_response(RequestKind::GetBlockDagInfo, reply), Ok(expected));
}

#[test]
fn stream_end_before_reply_is_empty_response() {
    let mut ids = RequestIds::new();
    let (call, _) = begin_get_dag_tips(&mut ids);
    let actions = drive(call, vec![StreamEvent::Opened, StreamEvent::Sent, StreamEvent::Ended]);
    assert!(matches!(&actions[2], UnaryAction::Finish(Err(RpcError::EmptyResponse))));
}

#[test]
fn transport_failures_are_connection_errors() {
    let mut ids = RequestIds::new();
    let (call, _) = begin_get_dag_tips(&mut ids);
    let actions = drive(call, vec![StreamEvent::OpenFailed("refused".to_string())]);
    assert!(matches!(&actions[0], UnaryAction::Finish(Err(RpcError::Connection(m))) if m == "refused"));
    let (call, _) = begin_get_dag_tips(&mut ids);
    let actions = drive(call, vec![StreamEvent::Opened, StreamEvent::SendFailed("broken".to_string())]);
    assert!(matches!(&actions[1], UnaryAction::Finish(Err(RpcError::Connection(m))) if m == "broken"));
    let (call, _) = begin_get_dag_tips(&mut ids);
    let actions = drive(call, vec![StreamEvent::Opened, StreamEvent::Sent, StreamEvent::TransportFailed("reset".to_string())]);
    assert!(matches!(&actions[2], UnaryAction::Finish(Err(RpcError::Connection(m))) if m == "reset"));
}

#[test]
fn event_out_of_order_ends_the_call() {
    let mut ids = RequestIds::new();
    let (call, _) = begin_get_dag_tips(&mut ids);
    let actions = drive(call, vec![StreamEvent::Sent, StreamEvent::Opened]);
    assert!(matches!(&actions[0], UnaryAction::Finish(Err(RpcError::OutOfOrder))));
    assert!(matches!(&actions[1], UnaryAction::Halt));
}

#[test]
fn concurrent_calls_get_their_own_replies() {
    let mut ids = RequestIds::new();
    let n: u64 = 8;
    let mut calls = Vec::new();
    for _ in 0..n {
        calls.push(begin_get_dag_tips(&mut ids).0);
    }
    // Interleave: every call opens, then every call sends, then replies come
    // back in reverse order, each on its own stream.
    let mut stepped = Vec::new();
    for c in calls {
        stepped.push(c.step(StreamEvent::Opened).0);
    }
    let mut waiting = Vec::new();
    for c in stepped {
        waiting.push(c.step(StreamEvent::Sent).0);
    }
    let mut results: Vec<Option<UnaryAction>> = (0..n).map(|_| None).collect();
    for (i, c) in waiting.into_iter().enumerate().rev() {
        let (_, action) = c.step(StreamEvent::Received(dag_reply(100 + i as u64)));
        results[i] = Some(action);
    }
    for (i, action) in results.into_iter().enumerate() {
        match action.unwrap() {
            UnaryAction::Finish(r) => {
                let tips = finish_get_dag_tips(r).unwrap();
                assert_eq!(tips.block_count, 100 + i as u64);
                assert_eq!(tips.tip_hashes, vec![format!("tip{}", 100 + i)]);
            }
            other => panic!("expected the call to finish, got {:?}", other),
        }
    }
}

#[test]
fn finish_get_dag_tips_copies_fields() {
    let payload = dag_reply(3).payload.unwrap();
    let tips = finish_get_dag_tips(Ok(payload)).unwrap();
    assert_eq!(tips.block_count, 3);
    assert_eq!(tips.header_count, 4);
    assert_eq!(f64::from_bits(tips.difficulty_bits), 2.5);
    assert_eq!(tips.past_median_time, 7);
    assert_eq!(tips.pruning_point_hash, "p");
    assert_eq!(tips.virtual_daa_score, 9);
    assert_eq!(finish_get_dag_tips(Err(RpcError::EmptyResponse)).unwrap_err(), RpcError::EmptyResponse);
}
