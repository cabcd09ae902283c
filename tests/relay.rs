use kaspa_rpc_service::convert::utxo_notification;
use kaspa_rpc_service::error::RpcError;
use kaspa_rpc_service::gateway::begin_subscription;
use kaspa_rpc_service::ids::{generate_request_id, RequestIds};
use kaspa_rpc_service::models::WsQuery;
use kaspa_rpc_service::relay::{subscribe, RelayAction, SubscriptionRelay};
use kaspa_rpc_service::stream::StreamEvent;
use kaspa_rpc_service::validate::parse_addresses;
use kaspa_rpc_service::wire::{
    KaspadRequest, KaspadResponse, NotifyUtxosChangedResponseMessage, RequestPayload,
    ResponsePayload, RpcOutpoint, RpcScriptPublicKey, RpcUtxoEntry, UtxosByAddressesEntry,
    UtxosChangedNotificationMessage,
};

fn drive(relay: SubscriptionRelay, events: Vec<StreamEvent>) -> Vec<RelayAction> {
    let mut relay = relay;
    let mut actions = Vec::new();
    for ev in events {
        let (next, action) = relay.step(ev);
        relay = next;
        actions.push(action);
    }
    actions
}

fn notification(added: Vec<UtxosByAddressesEntry>, removed: Vec<UtxosByAddressesEntry>) -> KaspadResponse {
    KaspadResponse {
        id: 0,
        payload: Some(ResponsePayload::UtxosChangedNotification(UtxosChangedNotificationMessage { added, removed })),
    }
}

fn open_active(addresses: Vec<&str>) -> (SubscriptionRelay, Vec<RelayAction>) {
    let mut ids = RequestIds::new();
    let addresses: Vec<String> = addresses.into_iter().map(|a| a.to_string()).collect();
    let (relay, first) = subscribe(&mut ids, addresses).unwrap();
    assert!(matches!(first, RelayAction::OpenStream));
    let (relay, send) = relay.step(StreamEvent::Opened);
    let (relay, receive) = relay.step(StreamEvent::Sent);
    (relay, vec![send, receive])
}

#[test]
fn empty_address_list_is_refused_before_any_stream() {
    let mut ids = RequestIds::new();
    match subscribe(&mut ids, vec![]) {
        Err(RpcError::BadRequest(m)) => assert_eq!(m, "No addresses provided"),
        Err(e) => panic!("expected BadRequest, got {:?}", e),
        Ok(_) => panic!("an empty list must not open a stream"),
    }
    assert_eq!(generate_request_id(&mut ids), 1);
}

#[test]
fn subscription_sends_the_stamped_command() {
    let (_, actions) = open_active(vec!["addrA", "addrB"]);
    match &actions[0] {
        RelayAction::Send(req) => assert_eq!(
            req,
            &KaspadRequest {
                id: 1,
                payload: RequestPayload::NotifyUtxosChanged { addresses: vec!["addrA".to_string(), "addrB".to_string()] },
            }
        ),
        other => panic!("expected a send, got {:?}", other),
    }
    assert!(matches!(actions[1], RelayAction::Receive));
}

#[test]
fn absent_utxo_entry_stays_absent_and_end_is_not_an_error() {
    let (relay, _) = open_active(vec!["addrA"]);
    let entry = UtxosByAddressesEntry {
        address: "addrA".to_string(),
        outpoint: Some(RpcOutpoint { transaction_id: "tx1".to_string(), index: 0 }),
        utxo_entry: None,
    };
    let actions = drive(relay, vec![
        StreamEvent::Received(notification(vec![entry], vec![])),
        StreamEvent::Delivered,
        StreamEvent::Ended,
        StreamEvent::Received(notification(vec![], vec![])),
    ]);
    let n = match &actions[0] {
        RelayAction::Emit(m) => utxo_notification(m),
        other => panic!("expected a notification, got {:?}", other),
    };
    assert_eq!(n.added.len(), 1);
    assert_eq!(n.added[0].address, "addrA");
    assert!(n.added[0].utxo_entry.is_none());
    let op = n.added[0].outpoint.as_ref().unwrap();
    assert_eq!((op.transaction_id.as_str(), op.index), ("tx1", 0));
    assert!(matches!(actions[1], RelayAction::Receive));
    assert!(matches!(actions[2], RelayAction::Close(None)));
    assert!(matches!(actions[3], RelayAction::Halt));
}

#[test]
fn absent_fields_are_not_filled_in() {
    let m = UtxosChangedNotificationMessage {
        added: vec![
            UtxosByAddressesEntry {
                address: "a".to_string(),
                outpoint: None,
                utxo_entry: Some(RpcUtxoEntry { amount: 0, script_public_key: None, block_daa_score: 0, is_coinbase: false }),
            },
            UtxosByAddressesEntry {
                address: "b".to_string(),
                outpoint: Some(RpcOutpoint { transaction_id: String::new(), index: 0 }),
                utxo_entry: Some(RpcUtxoEntry {
                    amount: 500,
                    script_public_key: Some(RpcScriptPublicKey { version: 0, script_public_key: "20ab".to_string() }),
                    block_daa_score: 77,
                    is_coinbase: true,
                }),
            },
        ],
        removed: vec![UtxosByAddressesEntry { address: "c".to_string(), outpoint: None, utxo_entry: None }],
    };
    let n = utxo_notification(&m);
    assert!(n.added[0].outpoint.is_none());
    let e0 = n.added[0].utxo_entry.as_ref().unwrap();
    assert_eq!(e0.amount, 0);
    assert!(e0.script_public_key.is_none());
    let op1 = n.added[1].outpoint.as_ref().unwrap();
    assert_eq!(op1.transaction_id, "");
    let e1 = n.added[1].utxo_entry.as_ref().unwrap();
    assert_eq!(e1.script_public_key.as_deref(), Some("20ab"));
    assert_eq!((e1.amount, e1.block_daa_score, e1.is_coinbase), (500, 77, true));
    assert_eq!(n.removed.len(), 1);
    assert_eq!(n.removed[0].address, "c");
    assert!(n.removed[0].outpoint.is_none());
}

#[test]
fn other_payloads_are_ignored() {
    let (relay, _) = open_active(vec!["addrA"]);
    let ack = KaspadResponse {
        id: 1,
        payload: Some(ResponsePayload::NotifyUtxosChanged(NotifyUtxosChangedResponseMessage { error: None })),
    };
    let actions = drive(relay, vec![StreamEvent::Received(ack), StreamEvent::Received(KaspadResponse { id: 2, payload: None })]);
    assert!(matches!(actions[0], RelayAction::Receive));
    assert!(matches!(actions[1], RelayAction::Receive));
}

#[test]
fn notifications_are_forwarded_in_order() {
    let (relay, _) = open_active(vec!["addrA"]);
    let mk = |addr: &str| UtxosByAddressesEntry { address: addr.to_string(), outpoint: None, utxo_entry: None };
    let actions = drive(relay, vec![
        StreamEvent::Received(notification(vec![mk("first")], vec![])),
        StreamEvent::Delivered,
        StreamEvent::Received(notification(vec![mk("second")], vec![])),
    ]);
    let names: Vec<String> = actions
        .iter()
        .filter_map(|a| match a {
            RelayAction::Emit(m) => Some(m.added[0].address.clone()),
            _ => None,
        })
        .collect();
    assert_eq!(names, vec!["first".to_string(), "second".to_string()]);
}

#[test]
fn consumer_close_releases_the_stream() {
    let (relay, _) = open_active(vec!["addrA"]);
    let actions = drive(relay, vec![
        StreamEvent::Received(notification(vec![], vec![])),
        StreamEvent::ConsumerClosed,
        StreamEvent::Received(notification(vec![], vec![])),
    ]);
    assert!(matches!(actions[0], RelayAction::Emit(_)));
    assert!(matches!(actions[1], RelayAction::Close(None)));
    assert!(matches!(actions[2], RelayAction::Halt));
}

#[test]
fn stream_error_is_surfaced_once() {
    let (relay, _) = open_active(vec!["addrA"]);
    let actions = drive(relay, vec![StreamEvent::TransportFailed("reset".to_string()), StreamEvent::Ended]);
    assert!(matches!(&actions[0], RelayAction::Close(Some(RpcError::Connection(m))) if m == "reset"));
    assert!(matches!(actions[1], RelayAction::Halt));
}

#[test]
fn failed_open_closes_with_connection_error() {
    let mut ids = RequestIds::new();
    let (relay, _) = subscribe(&mut ids, vec!["x".to_string()]).unwrap();
    let actions = drive(relay, vec![StreamEvent::OpenFailed("refused".to_string())]);
    assert!(matches!(&actions[0], RelayAction::Close(Some(RpcError::Connection(m))) if m == "refused"));
}

#[test]
fn query_addresses_are_split_and_trimmed() {
    assert_eq!(parse_addresses(" a, b ,,c "), vec!["a".to_string(), "b".to_string(), "c".to_string()]);
    assert_eq!(parse_addresses("kaspa:qq1"), vec!["kaspa:qq1".to_string()]);
    assert!(parse_addresses("").is_empty());
    assert!(parse_addresses(" , \t,").is_empty());
    assert_eq!(parse_addresses("\u{3000}x y\n"), vec!["x y".to_string()]);
}

#[test]
fn query_without_addresses_is_refused() {
    let mut ids = RequestIds::new();
    let query = WsQuery { addresses: " , ".to_string() };
    assert!(matches!(begin_subscription(&mut ids, &query), Err(RpcError::BadRequest(_))));
    let query = WsQuery { addresses: "addrA, addrB".to_string() };
    let (relay, first) = begin_subscription(&mut ids, &query).unwrap();
    assert!(matches!(first, RelayAction::OpenStream));
    match relay.step(StreamEvent::Opened).1 {
        RelayAction::Send(req) => assert_eq!(
            req.payload,
            RequestPayload::NotifyUtxosChanged { addresses: vec!["addrA".to_string(), "addrB".to_string()] }
        ),
        other => panic!("expected a send, got {:?}", other),
    }
}
