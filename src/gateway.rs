//! The endpoints' own decisions: what is checked before a call begins, which
//! request is sent, and how the call's result becomes the client's answer.
use vstd::prelude::*;
use crate::convert::{
    block_outcome, block_response, convert_to_proto_transaction, dag_tips_of, dag_tips_response,
    submit_response, transaction_converted,
};
use crate::error::RpcError;
use crate::ids::RequestIds;
use crate::models::{
    BlockResponse, DAGTipsResponse, GetBlockRequest, SubmitTransactionRequest,
    SubmitTransactionResponse, WsQuery,
};
use crate::relay::{subscribe, RelayAction, SubscriptionRelay};
use crate::unary::{begin_call, UnaryAction, UnaryCall};
use crate::validate::{address_list, parse_addresses, spec_is_valid_hash, is_valid_hash};
use crate::wire::{KaspadRequest, RequestKind, RequestPayload, ResponsePayload, RpcTransaction};

verus! {

/// Begins a get-block call. A hash that is not 64 hexadecimal digits is
/// refused with `BadRequest` before any stream is opened or identifier used.
pub fn begin_get_block(ids: &mut RequestIds, request: GetBlockRequest) -> (r: Result<
    (UnaryCall, UnaryAction),
    RpcError,
>)
    requires
        old(ids).wf(),
        old(ids).next_id() < u64::MAX,
    ensures
        final(ids).wf(),
        !spec_is_valid_hash(request.hash@) <==> r is Err,
        r is Err ==> r->Err_0 is BadRequest && final(ids).next_id() == old(ids).next_id(),
        r is Ok ==> {
            &&& final(ids).next_id() == old(ids).next_id() + 1
            &&& r->Ok_0.0.is_fresh_for(
                KaspadRequest {
                    id: old(ids).next_id(),
                    payload: RequestPayload::GetBlock {
                        hash: request.hash,
                        include_transactions: request.include_transactions,
                    },
                },
            )
            &&& r->Ok_0.1 is OpenStream
        },
{
    if !is_valid_hash(request.hash.as_str()) {
        return Err(RpcError::BadRequest(String::from_str("Invalid block hash format")));
    }
    let payload = RequestPayload::GetBlock {
        hash: request.hash,
        include_transactions: request.include_transactions,
    };
    Ok(begin_call(ids, payload))
}

/// The client's answer to a finished get-block call.
pub fn finish_get_block(result: Result<ResponsePayload, RpcError>) -> (r: Result<
    BlockResponse,
    RpcError,
>)
    ensures
        match result {
            Err(e) => r == Err::<BlockResponse, RpcError>(e),
            Ok(ResponsePayload::GetBlock(m)) => block_outcome(m, r),
            Ok(_) => r == Err::<BlockResponse, RpcError>(
                RpcError::ProtocolMismatch(RequestKind::GetBlock),
            ),
        },
{
    match result {
        Err(e) => Err(e),
        Ok(ResponsePayload::GetBlock(m)) => block_response(m),
        Ok(_) => Err(RpcError::ProtocolMismatch(RequestKind::GetBlock)),
    }
}

/// Begins a submit-transaction call with the wire form of the transaction.
pub fn begin_submit_transaction(ids: &mut RequestIds, request: SubmitTransactionRequest) -> (r: (
    UnaryCall,
    UnaryAction,
))
    requires
        old(ids).wf(),
        old(ids).next_id() < u64::MAX,
    ensures
        final(ids).wf(),
        final(ids).next_id() == old(ids).next_id() + 1,
        exists|t: RpcTransaction|
            transaction_converted(request.transaction, t) && #[trigger] r.0.is_fresh_for(
                KaspadRequest {
                    id: old(ids).next_id(),
                    payload: RequestPayload::SubmitTransaction {
                        transaction: t,
                        allow_orphan: request.allow_orphan,
                    },
                },
            ),
        r.1 is OpenStream,
{
    let allow_orphan = request.allow_orphan;
    let transaction = convert_to_proto_transaction(request.transaction).unwrap();
    let ghost t = transaction;
    let r = begin_call(ids, RequestPayload::SubmitTransaction { transaction, allow_orphan });
    assert(transaction_converted(request.transaction, t));
    r
}

/// The client's answer to a finished submit-transaction call.
pub fn finish_submit_transaction(result: Result<ResponsePayload, RpcError>) -> (r: Result<
    SubmitTransactionResponse,
    RpcError,
>)
    ensures
        match result {
            Err(e) => r == Err::<SubmitTransactionResponse, RpcError>(e),
            Ok(ResponsePayload::SubmitTransaction(m)) => r == Ok::<
                SubmitTransactionResponse,
                RpcError,
            >(SubmitTransactionResponse { transaction_id: m.transaction_id }),
            Ok(_) => r == Err::<SubmitTransactionResponse, RpcError>(
                RpcError::ProtocolMismatch(RequestKind::SubmitTransaction),
            ),
        },
{
    match result {
        Err(e) => Err(e),
        Ok(ResponsePayload::SubmitTransaction(m)) => Ok(submit_response(m)),
        Ok(_) => Err(RpcError::ProtocolMismatch(RequestKind::SubmitTransaction)),
    }
}

/// Begins a DAG-info call.
pub fn begin_get_dag_tips(ids: &mut RequestIds) -> (r: (UnaryCall, UnaryAction))
    requires
        old(ids).wf(),
        old(ids).next_id() < u64::MAX,
    ensures
        final(ids).wf(),
        final(ids).next_id() == old(ids).next_id() + 1,
        r.0.is_fresh_for(
            KaspadRequest { id: old(ids).next_id(), payload: RequestPayload::GetBlockDagInfo },
        ),
        r.1 is OpenStream,
{
    begin_call(ids, RequestPayload::GetBlockDagInfo)
}

/// The client's answer to a finished DAG-info call.
pub fn finish_get_dag_tips(result: Result<ResponsePayload, RpcError>) -> (r: Result<
    DAGTipsResponse,
    RpcError,
>)
    ensures
        match result {
            Err(e) => r == Err::<DAGTipsResponse, RpcError>(e),
            Ok(ResponsePayload::GetBlockDagInfo(m)) => r == Ok::<DAGTipsResponse, RpcError>(
                dag_tips_of(m),
            ),
            Ok(_) => r == Err::<DAGTipsResponse, RpcError>(
                RpcError::ProtocolMismatch(RequestKind::GetBlockDagInfo),
            ),
        },
{
    match result {
        Err(e) => Err(e),
        Ok(ResponsePayload::GetBlockDagInfo(m)) => Ok(dag_tips_response(m)),
        Ok(_) => Err(RpcError::ProtocolMismatch(RequestKind::GetBlockDagInfo)),
    }
}

/// Begins a subscription to the addresses of a query. A query that names no
/// address is refused with `BadRequest` before any stream is opened.
pub fn begin_subscription(ids: &mut RequestIds, query: &WsQuery) -> (r: Result<
    (SubscriptionRelay, RelayAction),
    RpcError,
>)
    requires
        old(ids).wf(),
        old(ids).next_id() < u64::MAX,
    ensures
        final(ids).wf(),
        (address_list(query.addresses@).len() == 0) <==> r is Err,
        r is Err ==> r->Err_0 is BadRequest && final(ids).next_id() == old(ids).next_id(),
        r is Ok ==> {
            &&& final(ids).next_id() == old(ids).next_id() + 1
            &&& exists|addresses: Vec<String>|
                addresses@.map_values(|a: String| a@) == address_list(query.addresses@)
                    && #[trigger] r->Ok_0.0.is_fresh_for(
                    KaspadRequest {
                        id: old(ids).next_id(),
                        payload: RequestPayload::NotifyUtxosChanged { addresses },
                    },
                )
            &&& r->Ok_0.1 is OpenStream
        },
{
    let addresses = parse_addresses(query.addresses.as_str());
    let ghost a = addresses;
    let r = subscribe(ids, addresses);
    assert(a@.map_values(|x: String| x@).len() == a@.len());
    r
}

} // verus!
