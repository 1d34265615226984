use std::sync::Arc;

use remote_trait_object::dispatch::delete;
use remote_trait_object::dispatch::dispatch_outcome;
use remote_trait_object::dispatch::register;
use remote_trait_object::dispatch::PortDispatcher;
use remote_trait_object::engine::answer;
use remote_trait_object::engine::serve;
use remote_trait_object::engine::PortEngine;
use remote_trait_object::engine::Routed;
use remote_trait_object::export_import::HandleToExchange;
use remote_trait_object::packet::Packet;
use remote_trait_object::packet::PacketKind;
use remote_trait_object::ping::PingHandler;
use remote_trait_object::ping::PingService;
use remote_trait_object::ping::PING_METHOD;
use remote_trait_object::MethodId;
use remote_trait_object::PortError;
use remote_trait_object::ServiceDispatcher;

/// Hands back what it is handed, under every method but zero.
struct Echo;

impl ServiceDispatcher for Echo {
    fn dispatch(&self, method: MethodId, arguments: &[u8]) -> Option<Vec<u8>> {
        if method == 0 {
            None
        } else {
            Some(arguments.to_vec())
        }
    }
}

fn engine_with_echo() -> PortEngine<dyn ServiceDispatcher> {
    let mut engine: PortEngine<dyn ServiceDispatcher> = PortEngine::new(1, 8);
    let echo: Arc<dyn ServiceDispatcher> = Arc::new(Echo);
    assert_eq!(engine.register_service(echo), Ok(HandleToExchange(1)));
    engine
}

#[test]
fn ping_answers_pong() {
    assert_eq!(PingHandler {}.ping(), b"pong");
    let service = PingService::new();
    assert_eq!(service.dispatch(PING_METHOD, &[]), Some(b"pong".to_vec()));
    assert_eq!(service.dispatch(PING_METHOD, b"ignored"), Some(b"pong".to_vec()));
    assert_eq!(service.dispatch(0, &[]), None);
    assert_eq!(service.dispatch(2, &[]), None);
}

#[test]
fn a_dispatcher_of_a_port_finds_its_objects() {
    let mut port: PortDispatcher<dyn ServiceDispatcher> = PortDispatcher::new(9, 2);
    assert_eq!(port.get_id(), 9);
    assert_eq!(port.object_count(), 0);
    let ping: Arc<dyn ServiceDispatcher> = Arc::new(PingService::new());
    let echo: Arc<dyn ServiceDispatcher> = Arc::new(Echo);
    assert_eq!(register(&mut port, ping), Ok(HandleToExchange(1)));
    assert_eq!(register(&mut port, echo.clone()), Ok(HandleToExchange(2)));
    assert_eq!(register(&mut port, echo.clone()), Err(PortError::TableFull));
    assert_eq!(port.object_count(), 2);
    assert!(port.contains(1) && port.contains(2) && !port.contains(3));
    assert_eq!(port.dispatch(1, PING_METHOD, &[]), Ok(b"pong".to_vec()));
    assert_eq!(port.dispatch(2, 5, b"abc"), Ok(b"abc".to_vec()));
    assert_eq!(port.dispatch(1, 7, &[]), Err(PortError::UnknownMethodId));
    assert_eq!(port.dispatch(3, PING_METHOD, &[]), Err(PortError::UnknownObjectId));
    assert_eq!(port.dispatch(0, PING_METHOD, &[]), Err(PortError::UnknownObjectId));
    assert!(port.lookup(2).is_some());
    assert!(port.lookup(3).is_none());
    assert_eq!(delete(&mut port, 1), Ok(()));
    assert_eq!(delete(&mut port, 1), Err(PortError::UnknownObjectId));
    assert_eq!(port.dispatch(1, PING_METHOD, &[]), Err(PortError::UnknownObjectId));
    assert_eq!(port.object_count(), 1);
    assert_eq!(register(&mut port, echo), Ok(HandleToExchange(1)));
    port.clear();
    assert_eq!(port.object_count(), 0);
    assert_eq!(port.get_id(), 9);
}

#[test]
fn an_outcome_is_the_answer_or_the_unknown_method() {
    assert_eq!(dispatch_outcome(Some(vec![1, 2])), Ok(vec![1, 2]));
    assert_eq!(dispatch_outcome(None), Err(PortError::UnknownMethodId));
    let response = answer(6, Some(vec![7, 8, 9])).ok().unwrap();
    assert_eq!(response.view().kind(), PacketKind::Response);
    assert_eq!(response.view().slot(), Some(6));
    assert_eq!(response.data(), &[7u8, 8, 9][..]);
    assert!(matches!(answer(6, None), Err(PortError::UnknownMethodId)));
}

#[test]
fn a_new_engine_is_up_and_empty() {
    let engine: PortEngine<dyn ServiceDispatcher> = PortEngine::new(3, 4);
    assert_eq!(engine.get_id(), 3);
    assert!(engine.is_alive());
    assert_eq!(engine.closed_by(), None);
    assert_eq!(engine.object_count(), 0);
    assert_eq!(engine.pending_calls(), 0);
    assert_eq!(engine.next_slot(), 0);
    assert!(engine.can_call());
    assert!(!engine.has_object(1));
}

#[test]
fn a_call_goes_round_and_comes_back_unchanged() {
    let mut server = engine_with_echo();
    let mut client: PortEngine<dyn ServiceDispatcher> = PortEngine::new(2, 8);
    for args in [&b""[..], &b"a"[..], &[0u8, 255, 1, 254][..], &[7u8; 1000][..]] {
        let request = Packet::new_request(1, 3, args);
        let slot = client.next_slot();
        let (stamped, receiver) = client.begin_call(request.view()).ok().unwrap();
        assert_eq!(stamped.view().slot(), Some(slot));
        let response = match server.handle_frame(&stamped.into_vec()) {
            Routed::Request { slot: s, object, method, arguments } => {
                assert_eq!((s, method), (slot, 3));
                assert_eq!(arguments, args);
                serve(&object, s, method, &arguments).ok().unwrap()
            },
            _ => panic!("a request was expected"),
        };
        match client.handle_frame(&response.into_vec()) {
            Routed::Response { slot: s, delivered } => {
                assert_eq!(s, slot);
                assert!(delivered);
            },
            _ => panic!("a response was expected"),
        }
        assert_eq!(receiver.try_recv().unwrap().data(), args);
        assert_eq!(client.pending_calls(), 0);
    }
    assert_eq!(client.next_slot(), 4);
    assert!(server.is_alive() && client.is_alive());
}

#[test]
fn interleaved_calls_each_get_their_own_response() {
    let mut server = engine_with_echo();
    let mut client: PortEngine<dyn ServiceDispatcher> = PortEngine::new(2, 8);
    let n = 64usize;
    let mut requests = Vec::new();
    let mut receivers = Vec::new();
    for i in 0..n {
        let request = Packet::new_request(1, 1, format!("call {}", i).as_bytes());
        let (stamped, receiver) = client.begin_call(request.view()).ok().unwrap();
        assert_eq!(stamped.view().slot(), Some(i as u64));
        requests.push(stamped.into_vec());
        receivers.push(receiver);
    }
    assert_eq!(client.pending_calls(), n);
    let mut responses = Vec::new();
    for i in (0..n).rev() {
        match server.handle_frame(&requests[i]) {
            Routed::Request { slot, object, method, arguments } => {
                responses.push(serve(&object, slot, method, &arguments).ok().unwrap().into_vec());
            },
            _ => panic!("a request was expected"),
        }
    }
    for k in 0..n {
        let frame = &responses[(k * 37 + 11) % n];
        assert!(matches!(client.handle_frame(frame), Routed::Response { delivered: true, .. }));
    }
    for (i, receiver) in receivers.iter().enumerate() {
        let response = receiver.try_recv().unwrap();
        assert_eq!(response.view().slot(), Some(i as u64));
        assert_eq!(response.data(), format!("call {}", i).as_bytes());
        assert!(receiver.try_recv().is_err());
    }
    assert_eq!(client.pending_calls(), 0);
    assert_eq!(client.next_slot(), n as u64);
}

#[test]
fn a_request_for_an_unknown_object_takes_the_port_down() {
    let mut server = engine_with_echo();
    let (_kept, receiver) = {
        let request = Packet::new_request(1, 1, &[]);
        server.begin_call(request.view()).ok().unwrap()
    };
    let frame = Packet::new_request(2, 1, &[]).view().with_slot(0).into_vec();
    assert!(matches!(server.handle_frame(&frame), Routed::Fatal(PortError::UnknownObjectId)));
    assert!(!server.is_alive());
    assert_eq!(server.closed_by(), Some(PortError::UnknownObjectId));
    assert_eq!(server.object_count(), 0);
    assert_eq!(server.pending_calls(), 0);
    assert!(receiver.recv().is_err());
}

#[test]
fn an_unknown_method_is_reported_by_the_server() {
    let mut server = engine_with_echo();
    let frame = Packet::new_request(1, 0, &[]).view().with_slot(4).into_vec();
    match server.handle_frame(&frame) {
        Routed::Request { slot, object, method, arguments } => {
            assert!(matches!(
                serve(&object, slot, method, &arguments),
                Err(PortError::UnknownMethodId)
            ));
        },
        _ => panic!("a request was expected"),
    }
    assert_eq!(server.close(PortError::UnknownMethodId), 0);
    assert_eq!(server.closed_by(), Some(PortError::UnknownMethodId));
}

#[test]
fn a_response_for_an_unknown_slot_takes_the_port_down() {
    let mut client: PortEngine<dyn ServiceDispatcher> = PortEngine::new(2, 8);
    let frame = Packet::new_response(0, b"unasked").into_vec();
    assert!(matches!(client.handle_frame(&frame), Routed::Fatal(PortError::UnknownSlotId)));
    assert_eq!(client.closed_by(), Some(PortError::UnknownSlotId));
}

#[test]
fn a_malformed_frame_takes_the_port_down() {
    let mut server = engine_with_echo();
    assert!(matches!(server.handle_frame(&[9, 9, 9]), Routed::Fatal(PortError::MalformedFrame)));
    assert_eq!(server.closed_by(), Some(PortError::MalformedFrame));
    assert!(!server.has_object(1));
}

#[test]
fn a_delete_drops_the_object_once() {
    let mut server = engine_with_echo();
    let echo: Arc<dyn ServiceDispatcher> = Arc::new(Echo);
    assert_eq!(server.register_service(echo), Ok(HandleToExchange(2)));
    let frame = Packet::new_delete(1).into_vec();
    assert!(matches!(server.handle_frame(&frame), Routed::Delete { object_id: 1 }));
    assert!(server.is_alive());
    assert!(!server.has_object(1));
    assert!(server.has_object(2));
    assert_eq!(server.object_count(), 1);
    assert!(matches!(server.handle_frame(&frame), Routed::Fatal(PortError::UnknownObjectId)));
    assert!(!server.is_alive());
}

#[test]
fn a_port_that_is_down_answers_with_what_ended_it() {
    let mut engine = engine_with_echo();
    assert_eq!(engine.close(PortError::TransportClosed), 0);
    assert_eq!(engine.closed_by(), Some(PortError::TransportClosed));
    assert_eq!(engine.close(PortError::Cancelled), 0);
    assert_eq!(engine.closed_by(), Some(PortError::TransportClosed));
    let echo: Arc<dyn ServiceDispatcher> = Arc::new(Echo);
    assert_eq!(engine.register_service(echo), Err(PortError::TransportClosed));
    let request = Packet::new_request(1, 1, &[]);
    assert!(matches!(engine.begin_call(request.view()), Err(PortError::TransportClosed)));
    assert!(engine.delete_request(1).is_none());
    let frame = Packet::new_delete(1).into_vec();
    assert!(matches!(engine.handle_frame(&frame), Routed::Fatal(PortError::TransportClosed)));
    assert_eq!(engine.next_slot(), 0);
}

#[test]
fn a_full_table_takes_the_port_down() {
    let mut engine: PortEngine<dyn ServiceDispatcher> = PortEngine::new(1, 1);
    let echo: Arc<dyn ServiceDispatcher> = Arc::new(Echo);
    assert_eq!(engine.register_service(echo.clone()), Ok(HandleToExchange(1)));
    assert_eq!(engine.register_service(echo), Err(PortError::TableFull));
    assert_eq!(engine.closed_by(), Some(PortError::TableFull));
    assert_eq!(engine.object_count(), 0);
}

#[test]
fn a_delete_request_is_one_delete_frame() {
    let engine: PortEngine<dyn ServiceDispatcher> = PortEngine::new(1, 1);
    let packet = engine.delete_request(5).unwrap();
    assert_eq!(packet.view().kind(), PacketKind::Delete);
    assert_eq!(packet.into_vec(), vec![2u8, 5, 0, 0, 0]);
}
