//! The unary call adapter: one request, one dedicated stream, one reply.
//!
//! The adapter decides; a driver outside the library performs each action
//! (open a stream, send, receive) and reports the outcome as a `StreamEvent`.
use vstd::prelude::*;
use crate::error::RpcError;
use crate::ids::{generate_request_id, RequestIds};
use crate::stream::StreamEvent;
use crate::wire::{KaspadRequest, KaspadResponse, RequestKind, RequestPayload, ResponsePayload};

verus! {

/// What the driver must do next for a unary call.
#[derive(Debug)]
pub enum UnaryAction {
    OpenStream,
    Send(KaspadRequest),
    Receive,
    /// The call is over with this result; the driver drops the stream.
    Finish(Result<ResponsePayload, RpcError>),
    /// Nothing is left to do.
    Halt,
}

#[derive(Debug)]
pub enum CallPhase {
    /// Awaiting the stream, holding the stamped envelope.
    Opening(KaspadRequest),
    Sending,
    Receiving,
    Finished,
}

/// One unary call in flight.
#[derive(Debug)]
pub struct UnaryCall {
    kind: RequestKind,
    phase: CallPhase,
}

/// Result of the call given the first envelope that its stream yielded.
pub open spec fn reply_outcome(kind: RequestKind, env: KaspadResponse) -> Result<
    ResponsePayload,
    RpcError,
> {
    match env.payload {
        None => Err(RpcError::ProtocolMismatch(kind)),
        Some(p) => if !p.spec_answers(kind) {
            Err(RpcError::ProtocolMismatch(kind))
        } else {
            match p.spec_node_error() {
                Some(e) => Err(RpcError::Kaspa(e.message)),
                None => Ok(p),
            }
        },
    }
}

/// Matches the reply to a request of kind `kind`: a payload of another kind
/// (or none) is a protocol mismatch; a node-reported error becomes `Kaspa`.
pub fn match_response(kind: RequestKind, env: KaspadResponse) -> (r: Result<
    ResponsePayload,
    RpcError,
>)
    ensures
        r == reply_outcome(kind, env),
{
    match env.payload {
        None => Err(RpcError::ProtocolMismatch(kind)),
        Some(p) => {
            if !p.answers(kind) {
                Err(RpcError::ProtocolMismatch(kind))
            } else {
                let remote = match p.node_error() {
                    Some(e) => Some(e.message.clone()),
                    None => None,
                };
                match remote {
                    Some(m) => Err(RpcError::Kaspa(m)),
                    None => Ok(p),
                }
            }
        },
    }
}

impl UnaryCall {
    /// The kind of request this call was made for.
    pub closed spec fn kind(self) -> RequestKind {
        self.kind
    }

    /// Just begun: no stream is open yet and `req` is the envelope to send.
    pub closed spec fn is_fresh_for(self, req: KaspadRequest) -> bool {
        &&& self.phase == CallPhase::Opening(req)
        &&& self.kind == req.payload.spec_kind()
    }

    /// The next state and action after event `ev`.
    pub closed spec fn next(self, ev: StreamEvent) -> (UnaryCall, UnaryAction) {
        let done = UnaryCall { kind: self.kind, phase: CallPhase::Finished };
        match self.phase {
            CallPhase::Opening(req) => match ev {
                StreamEvent::Opened => (
                    UnaryCall { kind: self.kind, phase: CallPhase::Sending },
                    UnaryAction::Send(req),
                ),
                StreamEvent::OpenFailed(m) => (done, UnaryAction::Finish(Err(RpcError::Connection(m)))),
                _ => (done, UnaryAction::Finish(Err(RpcError::OutOfOrder))),
            },
            CallPhase::Sending => match ev {
                StreamEvent::Sent => (
                    UnaryCall { kind: self.kind, phase: CallPhase::Receiving },
                    UnaryAction::Receive,
                ),
                StreamEvent::SendFailed(m) => (done, UnaryAction::Finish(Err(RpcError::Connection(m)))),
                _ => (done, UnaryAction::Finish(Err(RpcError::OutOfOrder))),
            },
            CallPhase::Receiving => match ev {
                StreamEvent::Received(env) => (done, UnaryAction::Finish(reply_outcome(self.kind, env))),
                StreamEvent::Ended => (done, UnaryAction::Finish(Err(RpcError::EmptyResponse))),
                StreamEvent::TransportFailed(m) => (
                    done,
                    UnaryAction::Finish(Err(RpcError::Connection(m))),
                ),
                _ => (done, UnaryAction::Finish(Err(RpcError::OutOfOrder))),
            },
            CallPhase::Finished => (done, UnaryAction::Halt),
        }
    }

    /// The actions emitted while the events `evs` are fed in, one by one.
    pub closed spec fn trace(self, evs: Seq<StreamEvent>) -> Seq<UnaryAction>
        decreases evs.len(),
    {
        if evs.len() == 0 {
            Seq::empty()
        } else {
            let (c, a) = self.next(evs[0]);
            seq![a] + c.trace(evs.drop_first())
        }
    }

    /// Advances the call by one event.
    pub fn step(self, ev: StreamEvent) -> (r: (UnaryCall, UnaryAction))
        ensures
            r == self.next(ev),
    {
        let kind = self.kind;
        match self.phase {
            CallPhase::Opening(req) => match ev {
                StreamEvent::Opened => (
                    UnaryCall { kind, phase: CallPhase::Sending },
                    UnaryAction::Send(req),
                ),
                StreamEvent::OpenFailed(m) => (
                    UnaryCall { kind, phase: CallPhase::Finished },
                    UnaryAction::Finish(Err(RpcError::Connection(m))),
                ),
                _ => (
                    UnaryCall { kind, phase: CallPhase::Finished },
                    UnaryAction::Finish(Err(RpcError::OutOfOrder)),
                ),
            },
            CallPhase::Sending => match ev {
                StreamEvent::Sent => (
                    UnaryCall { kind, phase: CallPhase::Receiving },
                    UnaryAction::Receive,
                ),
                StreamEvent::SendFailed(m) => (
                    UnaryCall { kind, phase: CallPhase::Finished },
                    UnaryAction::Finish(Err(RpcError::Connection(m))),
                ),
                _ => (
                    UnaryCall { kind, phase: CallPhase::Finished },
                    UnaryAction::Finish(Err(RpcError::OutOfOrder)),
                ),
            },
            CallPhase::Receiving => {
                let result = match ev {
                    StreamEvent::Received(env) => match_response(kind, env),
                    StreamEvent::Ended => Err(RpcError::EmptyResponse),
                    StreamEvent::TransportFailed(m) => Err(RpcError::Connection(m)),
                    _ => Err(RpcError::OutOfOrder),
                };
                (UnaryCall { kind, phase: CallPhase::Finished }, UnaryAction::Finish(result))
            },
            CallPhase::Finished => (
                UnaryCall { kind, phase: CallPhase::Finished },
                UnaryAction::Halt,
            ),
        }
    }
}

/// Stamps `payload` with a fresh correlation identifier and begins a call:
/// the first action is always to open a new stream.
pub fn begin_call(ids: &mut RequestIds, payload: RequestPayload) -> (r: (UnaryCall, UnaryAction))
    requires
        old(ids).wf(),
        old(ids).next_id() < u64::MAX,
    ensures
        final(ids).wf(),
        final(ids).next_id() == old(ids).next_id() + 1,
        r.0.is_fresh_for(KaspadRequest { id: old(ids).next_id(), payload }),
        r.0.kind() == payload.spec_kind(),
        r.1 is OpenStream,
{
    let id = generate_request_id(ids);
    let kind = payload.kind();
    (UnaryCall { kind, phase: CallPhase::Opening(KaspadRequest { id, payload }) }, UnaryAction::OpenStream)
}

proof fn lemma_trace_len(c: UnaryCall, evs: Seq<StreamEvent>)
    ensures
        c.trace(evs).len() == evs.len(),
        evs.len() > 0 ==> c.trace(evs)[0] == c.next(evs[0]).1,
        forall|i: int|
            0 < i < evs.len() ==> #[trigger] c.trace(evs)[i] == c.next(evs[0]).0.trace(
                evs.drop_first(),
            )[i - 1],
    decreases evs.len(),
{
    if evs.len() > 0 {
        lemma_trace_len(c.next(evs[0]).0, evs.drop_first());
    }
}

proof fn lemma_quiet_after_receive(c: UnaryCall, evs: Seq<StreamEvent>)
    requires
        c.phase is Receiving || c.phase is Finished,
    ensures
        forall|i: int|
            0 <= i < evs.len() ==> {
                let a = #[trigger] c.trace(evs)[i];
                !(a is OpenStream) && !(a is Send) && !(a is Receive)
            },
    decreases evs.len(),
{
    lemma_trace_len(c, evs);
    if evs.len() > 0 {
        lemma_quiet_after_receive(c.next(evs[0]).0, evs.drop_first());
    }
}

proof fn lemma_sending(c: UnaryCall, evs: Seq<StreamEvent>)
    requires
        c.phase is Sending,
    ensures
        forall|i: int|
            0 <= i < evs.len() ==> {
                let a = #[trigger] c.trace(evs)[i];
                &&& !(a is OpenStream) && !(a is Send)
                &&& a is Receive ==> i == 0
            },
{
    lemma_trace_len(c, evs);
    if evs.len() > 0 {
        lemma_quiet_after_receive(c.next(evs[0]).0, evs.drop_first());
    }
}

proof fn lemma_opening(c: UnaryCall, req: KaspadRequest, evs: Seq<StreamEvent>)
    requires
        c.phase == CallPhase::Opening(req),
    ensures
        forall|i: int|
            0 <= i < evs.len() ==> {
                let a = #[trigger] c.trace(evs)[i];
                &&& !(a is OpenStream)
                &&& a is Send ==> i == 0 && a == UnaryAction::Send(req)
                &&& a is Receive ==> i == 1 && c.trace(evs)[0] == UnaryAction::Send(req)
            },
{
    lemma_trace_len(c, evs);
    if evs.len() > 0 {
        let c2 = c.next(evs[0]).0;
        if c2.phase is Sending {
            lemma_sending(c2, evs.drop_first());
        } else {
            lemma_quiet_after_receive(c2, evs.drop_first());
        }
    }
}

/// A call opens exactly one stream, as its first action, sends exactly once,
/// the envelope it was begun with, and only then receives, exactly once:
/// whatever events the driver reports, there is no second open, send or receive.
pub proof fn lemma_one_open_one_send(c: UnaryCall, req: KaspadRequest, evs: Seq<StreamEvent>)
    requires
        c.is_fresh_for(req),
    ensures
        ({
            let acts = seq![UnaryAction::OpenStream] + c.trace(evs);
            &&& acts.len() == evs.len() + 1
            &&& forall|i: int| 0 <= i < acts.len() ==> ((#[trigger] acts[i] is OpenStream) <==> i == 0)
            &&& forall|i: int|
                0 <= i < acts.len() && #[trigger] acts[i] is Send ==> i == 1 && acts[i]
                    == UnaryAction::Send(req)
            &&& forall|i: int|
                0 <= i < acts.len() && #[trigger] acts[i] is Receive ==> i == 2 && acts[1]
                    == UnaryAction::Send(req)
        }),
{
    lemma_trace_len(c, evs);
    lemma_opening(c, req, evs);
    let acts = seq![UnaryAction::OpenStream] + c.trace(evs);
    assert forall|i: int| 0 < i < acts.len() implies acts[i] == c.trace(evs)[i - 1] by {}
}

/// A call only ever succeeds with a payload that its own stream yielded, in
/// answer to the event that finished it, and of the kind its request expects.
pub proof fn lemma_reply_is_own(c: UnaryCall, evs: Seq<StreamEvent>, i: int, p: ResponsePayload)
    requires
        0 <= i < evs.len(),
        c.trace(evs)[i] == UnaryAction::Finish(Ok(p)),
    ensures
        evs[i] is Received,
        evs[i]->Received_0.payload == Some(p),
        p.spec_answers(c.kind()),
    decreases evs.len(),
{
    lemma_trace_len(c, evs);
    if i > 0 {
        let c2 = c.next(evs[0]).0;
        lemma_reply_is_own(c2, evs.drop_first(), i - 1, p);
    }
}

/// A call that, awaiting its reply, reads one whose payload is missing or is
/// not the one its request expects fails with `ProtocolMismatch`, never with a
/// payload.
pub proof fn lemma_mismatch_fails(c: UnaryCall, evs: Seq<StreamEvent>, i: int)
    requires
        1 <= i < evs.len(),
        c.trace(evs)[i - 1] is Receive,
        evs[i] is Received,
        !(evs[i]->Received_0.payload matches Some(p) && p.spec_answers(c.kind())),
    ensures
        c.trace(evs)[i] == UnaryAction::Finish(Err(RpcError::ProtocolMismatch(c.kind()))),
    decreases evs.len(),
{
    lemma_trace_len(c, evs);
    let c2 = c.next(evs[0]).0;
    lemma_trace_len(c2, evs.drop_first());
    if i > 1 {
        lemma_mismatch_fails(c2, evs.drop_first(), i - 1);
    }
}

} // verus!
