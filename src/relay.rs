//! The subscription relay: one long-lived stream whose change notifications
//! are handed, in order, to a consumer until either side closes.
use vstd::prelude::*;
use crate::error::RpcError;
use crate::ids::{generate_request_id, RequestIds};
use crate::stream::StreamEvent;
use crate::wire::{KaspadRequest, RequestPayload, ResponsePayload, UtxosChangedNotificationMessage};

verus! {

/// What the driver must do next for a subscription.
#[derive(Debug)]
pub enum RelayAction {
    OpenStream,
    Send(KaspadRequest),
    /// Read the next envelope from the stream.
    Receive,
    /// Hand this notification to the consumer, then report `Delivered`.
    Emit(UtxosChangedNotificationMessage),
    /// Release the stream; `Some` carries the failure to surface to the consumer.
    Close(Option<RpcError>),
    Halt,
}

#[derive(Debug)]
pub enum RelayPhase {
    Opening(KaspadRequest),
    Sending,
    /// Active, awaiting the next envelope.
    Listening,
    /// Active, awaiting the consumer's acceptance of a notification.
    Delivering,
    Closed,
}

/// One subscription in flight.
#[derive(Debug)]
pub struct SubscriptionRelay {
    phase: RelayPhase,
}

impl SubscriptionRelay {
    pub closed spec fn is_fresh_for(self, req: KaspadRequest) -> bool {
        self.phase == RelayPhase::Opening(req)
    }

    /// Active and awaiting the next envelope.
    pub closed spec fn is_listening(self) -> bool {
        self.phase is Listening
    }

    /// The next state and action after event `ev`.
    pub closed spec fn next(self, ev: StreamEvent) -> (SubscriptionRelay, RelayAction) {
        let closed = SubscriptionRelay { phase: RelayPhase::Closed };
        let fail = (closed, RelayAction::Close(Some(RpcError::OutOfOrder)));
        let gone = (closed, RelayAction::Close(None));
        match self.phase {
            RelayPhase::Opening(req) => match ev {
                StreamEvent::Opened => (
                    SubscriptionRelay { phase: RelayPhase::Sending },
                    RelayAction::Send(req),
                ),
                StreamEvent::OpenFailed(m) => (closed, RelayAction::Close(Some(RpcError::Connection(m)))),
                StreamEvent::ConsumerClosed => gone,
                _ => fail,
            },
            RelayPhase::Sending => match ev {
                StreamEvent::Sent => (
                    SubscriptionRelay { phase: RelayPhase::Listening },
                    RelayAction::Receive,
                ),
                StreamEvent::SendFailed(m) => (closed, RelayAction::Close(Some(RpcError::Connection(m)))),
                StreamEvent::ConsumerClosed => gone,
                _ => fail,
            },
            RelayPhase::Listening => match ev {
                StreamEvent::Received(env) => match env.payload {
                    Some(ResponsePayload::UtxosChangedNotification(n)) => (
                        SubscriptionRelay { phase: RelayPhase::Delivering },
                        RelayAction::Emit(n),
                    ),
                    _ => (SubscriptionRelay { phase: RelayPhase::Listening }, RelayAction::Receive),
                },
                StreamEvent::TransportFailed(m) => (
                    closed,
                    RelayAction::Close(Some(RpcError::Connection(m))),
                ),
                StreamEvent::Ended => gone,
                StreamEvent::ConsumerClosed => gone,
                _ => fail,
            },
            RelayPhase::Delivering => match ev {
                StreamEvent::Delivered => (
                    SubscriptionRelay { phase: RelayPhase::Listening },
                    RelayAction::Receive,
                ),
                StreamEvent::ConsumerClosed => gone,
                _ => fail,
            },
            RelayPhase::Closed => (closed, RelayAction::Halt),
        }
    }

    /// The actions emitted while the events `evs` are fed in, one by one.
    pub closed spec fn trace(self, evs: Seq<StreamEvent>) -> Seq<RelayAction>
        decreases evs.len(),
    {
        if evs.len() == 0 {
            Seq::empty()
        } else {
            let (r, a) = self.next(evs[0]);
            seq![a] + r.trace(evs.drop_first())
        }
    }

    /// Advances the subscription by one event.
    pub fn step(self, ev: StreamEvent) -> (r: (SubscriptionRelay, RelayAction))
        ensures
            r == self.next(ev),
    {
        match self.phase {
            RelayPhase::Opening(req) => match ev {
                StreamEvent::Opened => (
                    SubscriptionRelay { phase: RelayPhase::Sending },
                    RelayAction::Send(req),
                ),
                StreamEvent::OpenFailed(m) => (
                    SubscriptionRelay { phase: RelayPhase::Closed },
                    RelayAction::Close(Some(RpcError::Connection(m))),
                ),
                StreamEvent::ConsumerClosed => (
                    SubscriptionRelay { phase: RelayPhase::Closed },
                    RelayAction::Close(None),
                ),
                _ => (
                    SubscriptionRelay { phase: RelayPhase::Closed },
                    RelayAction::Close(Some(RpcError::OutOfOrder)),
                ),
            },
            RelayPhase::Sending => match ev {
                StreamEvent::Sent => (
                    SubscriptionRelay { phase: RelayPhase::Listening },
                    RelayAction::Receive,
                ),
                StreamEvent::SendFailed(m) => (
                    SubscriptionRelay { phase: RelayPhase::Closed },
                    RelayAction::Close(Some(RpcError::Connection(m))),
                ),
                StreamEvent::ConsumerClosed => (
                    SubscriptionRelay { phase: RelayPhase::Closed },
                    RelayAction::Close(None),
                ),
                _ => (
                    SubscriptionRelay { phase: RelayPhase::Closed },
                    RelayAction::Close(Some(RpcError::OutOfOrder)),
                ),
            },
            RelayPhase::Listening => match ev {
                StreamEvent::Received(env) => match env.payload {
                    Some(ResponsePayload::UtxosChangedNotification(n)) => (
                        SubscriptionRelay { phase: RelayPhase::Delivering },
                        RelayAction::Emit(n),
                    ),
                    _ => (SubscriptionRelay { phase: RelayPhase::Listening }, RelayAction::Receive),
                },
                StreamEvent::TransportFailed(m) => (
                    SubscriptionRelay { phase: RelayPhase::Closed },
                    RelayAction::Close(Some(RpcError::Connection(m))),
                ),
                StreamEvent::Ended | StreamEvent::ConsumerClosed => (
                    SubscriptionRelay { phase: RelayPhase::Closed },
                    RelayAction::Close(None),
                ),
                _ => (
                    SubscriptionRelay { phase: RelayPhase::Closed },
                    RelayAction::Close(Some(RpcError::OutOfOrder)),
                ),
            },
            RelayPhase::Delivering => match ev {
                StreamEvent::Delivered => (
                    SubscriptionRelay { phase: RelayPhase::Listening },
                    RelayAction::Receive,
                ),
                StreamEvent::ConsumerClosed => (
                    SubscriptionRelay { phase: RelayPhase::Closed },
                    RelayAction::Close(None),
                ),
                _ => (
                    SubscriptionRelay { phase: RelayPhase::Closed },
                    RelayAction::Close(Some(RpcError::OutOfOrder)),
                ),
            },
            RelayPhase::Closed => (SubscriptionRelay { phase: RelayPhase::Closed }, RelayAction::Halt),
        }
    }
}

/// Begins a subscription to changes of `addresses`. An empty list is refused
/// before any stream is opened and without using an identifier; otherwise the
/// subscribe command is stamped and the first action is to open a stream.
pub fn subscribe(ids: &mut RequestIds, addresses: Vec<String>) -> (r: Result<
    (SubscriptionRelay, RelayAction),
    RpcError,
>)
    requires
        old(ids).wf(),
        old(ids).next_id() < u64::MAX,
    ensures
        final(ids).wf(),
        (addresses@.len() == 0) <==> r is Err,
        r is Err ==> r->Err_0 is BadRequest && final(ids).next_id() == old(ids).next_id(),
        r is Ok ==> {
            &&& final(ids).next_id() == old(ids).next_id() + 1
            &&& r->Ok_0.0.is_fresh_for(
                KaspadRequest {
                    id: old(ids).next_id(),
                    payload: RequestPayload::NotifyUtxosChanged { addresses },
                },
            )
            &&& r->Ok_0.1 is OpenStream
        },
{
    if addresses.len() == 0 {
        return Err(RpcError::BadRequest(String::from_str("No addresses provided")));
    }
    let id = generate_request_id(ids);
    let req = KaspadRequest { id, payload: RequestPayload::NotifyUtxosChanged { addresses } };
    Ok((SubscriptionRelay { phase: RelayPhase::Opening(req) }, RelayAction::OpenStream))
}

proof fn lemma_trace_len(r: SubscriptionRelay, evs: Seq<StreamEvent>)
    ensures
        r.trace(evs).len() == evs.len(),
        evs.len() > 0 ==> r.trace(evs)[0] == r.next(evs[0]).1,
        forall|i: int|
            0 < i < evs.len() ==> #[trigger] r.trace(evs)[i] == r.next(evs[0]).0.trace(
                evs.drop_first(),
            )[i - 1],
    decreases evs.len(),
{
    if evs.len() > 0 {
        lemma_trace_len(r.next(evs[0]).0, evs.drop_first());
    }
}

proof fn lemma_closed_halts(r: SubscriptionRelay, evs: Seq<StreamEvent>)
    requires
        r.phase is Closed,
    ensures
        forall|j: int| 0 <= j < evs.len() ==> #[trigger] r.trace(evs)[j] is Halt,
    decreases evs.len(),
{
    lemma_trace_len(r, evs);
    if evs.len() > 0 {
        lemma_closed_halts(r.next(evs[0]).0, evs.drop_first());
    }
}

/// Every notification handed to the consumer is the one that the stream
/// yielded in answer to the same read, untouched; so notifications reach the
/// consumer in the order in which the node sent them, and none is invented.
pub proof fn lemma_emits_as_received(
    r: SubscriptionRelay,
    evs: Seq<StreamEvent>,
    i: int,
    n: UtxosChangedNotificationMessage,
)
    requires
        0 <= i < evs.len(),
        r.trace(evs)[i] == RelayAction::Emit(n),
    ensures
        evs[i] is Received,
        evs[i]->Received_0.payload == Some(ResponsePayload::UtxosChangedNotification(n)),
    decreases evs.len(),
{
    lemma_trace_len(r, evs);
    if i > 0 {
        lemma_emits_as_received(r.next(evs[0]).0, evs.drop_first(), i - 1, n);
    }
}

/// Once the consumer goes away the stream is released at once, with no
/// failure reported, and nothing more is opened, sent, read or emitted.
pub proof fn lemma_consumer_close_is_final(r: SubscriptionRelay, evs: Seq<StreamEvent>, i: int)
    requires
        0 <= i < evs.len(),
        evs[i] is ConsumerClosed,
    ensures
        r.trace(evs)[i] is Close ==> r.trace(evs)[i] == RelayAction::Close(None),
        r.trace(evs)[i] is Close || r.trace(evs)[i] is Halt,
        forall|j: int| i < j < evs.len() ==> #[trigger] r.trace(evs)[j] is Halt,
    decreases evs.len(),
{
    lemma_trace_len(r, evs);
    if i > 0 {
        lemma_consumer_close_is_final(r.next(evs[0]).0, evs.drop_first(), i - 1);
    } else {
        lemma_closed_halts(r.next(evs[0]).0, evs.drop_first());
    }
}

/// Once the stream ends while the subscription listens, the consumer sees a
/// close without error, and the relay does nothing more.
pub proof fn lemma_end_closes_quietly(r: SubscriptionRelay, evs: Seq<StreamEvent>)
    requires
        r.is_listening(),
        evs.len() > 0,
        evs[0] is Ended,
    ensures
        r.trace(evs)[0] == RelayAction::Close(None),
        forall|j: int| 0 < j < evs.len() ==> #[trigger] r.trace(evs)[j] is Halt,
{
    lemma_trace_len(r, evs);
    lemma_closed_halts(r.next(evs[0]).0, evs.drop_first());
}

} // verus!
