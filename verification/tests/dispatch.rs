use pycan::BusEvent;
use pycan::ListenerCall;
use pycan::LoopbackBus;
use pycan::PyCanMessage;
use pycan::route_event;

fn frame(id: u32, data: Vec<u8>) -> PyCanMessage {
    let dlc = data.len() as u8;
    PyCanMessage {
        arbitration_id: id,
        data: Some(data),
        dlc: Some(dlc),
        is_error_frame: false,
        timestamp: None,
    }
}

/// What one listener records about an invocation, for comparing logs.
#[derive(Debug, PartialEq)]
enum Recorded {
    Rx(u32),
    Error(String),
}

fn record(call: ListenerCall<'_>) -> Recorded {
    match call {
        ListenerCall::OnMessageReceived(m) => Recorded::Rx(m.arbitration_id),
        ListenerCall::OnError(e) => Recorded::Error(e.clone()),
    }
}

#[test]
fn two_listeners_hear_every_frame_in_order() {
    let events = vec![
        BusEvent::Frame(frame(0x100, vec![1])),
        BusEvent::Frame(frame(0x200, vec![2])),
        BusEvent::TransportError("bus off".to_string()),
        BusEvent::Frame(frame(0x300, vec![3])),
    ];
    let mut first_log: Vec<Recorded> = Vec::new();
    let mut second_log: Vec<Recorded> = Vec::new();
    for event in &events {
        first_log.push(record(route_event(event)));
        second_log.push(record(route_event(event)));
    }
    let expected = vec![
        Recorded::Rx(0x100),
        Recorded::Rx(0x200),
        Recorded::Error("bus off".to_string()),
        Recorded::Rx(0x300),
    ];
    assert_eq!(first_log, expected);
    assert_eq!(second_log, expected);
}

#[test]
fn transport_error_goes_to_the_error_callback_only() {
    let event = BusEvent::TransportError("malformed frame".to_string());
    match route_event(&event) {
        ListenerCall::OnError(e) => assert_eq!(e, "malformed frame"),
        ListenerCall::OnMessageReceived(_) => panic!("rx callback must not see transport errors"),
    }
}

#[test]
fn received_frame_goes_to_the_rx_callback_only() {
    let event = BusEvent::Frame(frame(0x42, vec![9, 8]));
    match route_event(&event) {
        ListenerCall::OnMessageReceived(m) => {
            assert_eq!(m.arbitration_id, 0x42);
            assert_eq!(m.data, Some(vec![9, 8]));
        },
        ListenerCall::OnError(_) => panic!("error callback must not see frames"),
    }
}

#[test]
fn loopback_round_trip() {
    let mut bus = LoopbackBus::new();
    bus.send(0x123, &[0xDE, 0xAD, 0xBE, 0xEF]);
    let m = bus.recv().unwrap();
    assert_eq!(m.arbitration_id, 0x123);
    assert_eq!(m.dlc, Some(4));
    assert_eq!(m.data, Some(vec![0xDE, 0xAD, 0xBE, 0xEF]));
    assert!(bus.recv().is_none());
}

#[test]
fn loopback_keeps_frame_order() {
    let mut bus = LoopbackBus::new();
    bus.send(0x1, &[0x11]);
    bus.send(0x2, &[0x22]);
    let a = bus.recv().unwrap();
    let b = bus.recv().unwrap();
    assert_eq!(a.arbitration_id, 0x1);
    assert_eq!(b.arbitration_id, 0x2);
    assert!(bus.recv().is_none());
}
