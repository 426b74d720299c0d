use steam_controller::commands::{list_devices, list_steam_controller_interfaces};
use steam_controller::steam_controller::{
    detect_in, disable_mouse_payload, enable_input_payload, enable_mouse_payload,
    finish_read, first_controller, read_buffer, ConnectError, ControllerSession,
    HidDeviceEntry, ReadError, ReadOutcome, SessionAction, SessionEvent, SessionPhase,
    POLL_TIMEOUT_MS, SC_WIRED_PID, SC_WIRELESS_PID, SETTLE_MS, VALVE_VENDOR_ID,
};

fn entry(vendor_id: u16, product_id: u16, name: Option<&str>, serial: Option<&str>) -> HidDeviceEntry {
    HidDeviceEntry {
        vendor_id,
        product_id,
        product_string: name.map(|s| s.to_string()),
        serial_number: serial.map(|s| s.to_string()),
        interface_number: 0,
        usage_page: 0xff00,
        usage: 1,
    }
}

fn keyboard() -> HidDeviceEntry {
    entry(0x046d, 0xc31c, Some("Keyboard"), None)
}

fn send_bytes(a: &SessionAction) -> Vec<u8> {
    match a {
        SessionAction::SendFeatureReport(b) => b.clone(),
        other => panic!("expected a feature report, got {:?}", other),
    }
}

fn connected_session() -> ControllerSession {
    let mut s = ControllerSession::new();
    s.step(SessionEvent::ConnectRequested(vec![entry(VALVE_VENDOR_ID, SC_WIRED_PID, None, None)]));
    s.step(SessionEvent::OpenDone(Ok(())));
    s.step(SessionEvent::FeatureReportDone(Ok(())));
    s.step(SessionEvent::Settled);
    s.step(SessionEvent::FeatureReportDone(Ok(())));
    s
}

#[test]
fn connect_without_controller_is_not_found() {
    let mut s = ControllerSession::new();
    assert!(!s.is_connected());
    let a = s.step(SessionEvent::ConnectRequested(vec![keyboard()]));
    assert!(matches!(a, SessionAction::Failed(ConnectError::NotFound)));
    assert!(!s.is_connected());
    let a = s.step(SessionEvent::ConnectRequested(vec![]));
    assert!(matches!(a, SessionAction::Failed(ConnectError::NotFound)));
    assert!(!s.is_connected());
}

#[test]
fn disconnect_twice_is_noop() {
    let mut s = ControllerSession::new();
    assert!(matches!(s.step(SessionEvent::DisconnectRequested), SessionAction::Nothing));
    assert!(matches!(s.step(SessionEvent::DisconnectRequested), SessionAction::Nothing));
    assert!(!s.is_connected());
}

#[test]
fn connect_handshake_in_order() {
    let mut s = ControllerSession::new();
    let devices = vec![
        keyboard(),
        entry(VALVE_VENDOR_ID, 0x1234, None, None),
        entry(VALVE_VENDOR_ID, SC_WIRELESS_PID, Some("Dongle"), Some("ABC")),
        entry(VALVE_VENDOR_ID, SC_WIRED_PID, None, None),
    ];
    let a = s.step(SessionEvent::ConnectRequested(devices));
    assert!(matches!(
        a,
        SessionAction::Open { vendor_id: VALVE_VENDOR_ID, product_id: SC_WIRELESS_PID }
    ));
    assert!(!s.is_connected());
    let a = s.step(SessionEvent::OpenDone(Ok(())));
    assert_eq!(send_bytes(&a), vec![0x81, 0x00]);
    assert!(s.is_connected());
    let a = s.step(SessionEvent::FeatureReportDone(Ok(())));
    assert!(matches!(a, SessionAction::Wait(SETTLE_MS)));
    assert_eq!(SETTLE_MS, 20);
    let a = s.step(SessionEvent::Settled);
    let payload = send_bytes(&a);
    assert_eq!(payload.len(), 64);
    assert_eq!(&payload[..4], &[0x87, 0x15, 0x32, 0x84]);
    let a = s.step(SessionEvent::FeatureReportDone(Ok(())));
    match a {
        SessionAction::Established(info) => {
            assert!(info.connected);
            assert_eq!(info.connection_type, "Wireless");
            assert_eq!(info.product_name, "Dongle");
            assert_eq!(info.serial, "ABC");
        }
        other => panic!("unexpected {:?}", other),
    }
    assert!(s.is_connected());
    assert!(matches!(s.phase(), SessionPhase::Connected(_)));
}

#[test]
fn rejected_first_payload_skips_second() {
    let mut s = ControllerSession::new();
    s.step(SessionEvent::ConnectRequested(vec![entry(VALVE_VENDOR_ID, SC_WIRED_PID, None, None)]));
    s.step(SessionEvent::OpenDone(Ok(())));
    let a = s.step(SessionEvent::FeatureReportDone(Err("refused".to_string())));
    match a {
        SessionAction::Failed(ConnectError::FeatureReportRejected(m)) => assert_eq!(m, "refused"),
        other => panic!("unexpected {:?}", other),
    }
    assert!(!s.is_connected());
    assert!(matches!(s.step(SessionEvent::Settled), SessionAction::Nothing));
}

#[test]
fn rejected_second_payload_fails_connect() {
    let mut s = ControllerSession::new();
    s.step(SessionEvent::ConnectRequested(vec![entry(VALVE_VENDOR_ID, SC_WIRED_PID, None, None)]));
    s.step(SessionEvent::OpenDone(Ok(())));
    s.step(SessionEvent::FeatureReportDone(Ok(())));
    s.step(SessionEvent::Settled);
    let a = s.step(SessionEvent::FeatureReportDone(Err("stall".to_string())));
    assert!(matches!(a, SessionAction::Failed(ConnectError::FeatureReportRejected(_))));
    assert!(!s.is_connected());
}

#[test]
fn open_failure_reported() {
    let mut s = ControllerSession::new();
    s.step(SessionEvent::ConnectRequested(vec![entry(VALVE_VENDOR_ID, SC_WIRED_PID, None, None)]));
    let a = s.step(SessionEvent::OpenDone(Err("busy".to_string())));
    match a {
        SessionAction::Failed(ConnectError::OpenFailed(m)) => assert_eq!(m, "busy"),
        other => panic!("unexpected {:?}", other),
    }
    assert!(!s.is_connected());
}

#[test]
fn disconnect_restores_mouse_then_releases() {
    let mut s = connected_session();
    assert!(s.is_connected());
    let a = s.step(SessionEvent::DisconnectRequested);
    assert_eq!(send_bytes(&a), vec![0x81, 0x01]);
    let a = s.step(SessionEvent::FeatureReportDone(Err("gone".to_string())));
    assert!(matches!(a, SessionAction::Release));
    assert!(!s.is_connected());
    assert!(matches!(s.step(SessionEvent::DisconnectRequested), SessionAction::Nothing));
}

#[test]
fn read_timeouts() {
    let s = ControllerSession::new();
    assert!(matches!(s.read_timeout(None), Err(ReadError::NotConnected)));
    assert!(matches!(s.read_timeout(Some(500)), Err(ReadError::NotConnected)));
    let s = connected_session();
    assert_eq!(s.read_timeout(None).unwrap(), POLL_TIMEOUT_MS);
    assert_eq!(POLL_TIMEOUT_MS, 10);
    assert_eq!(s.read_timeout(Some(500)).unwrap(), 500);
}

#[test]
fn read_outcomes() {
    let buf = read_buffer();
    assert_eq!(buf, vec![0u8; 64]);
    let mut filled = buf.clone();
    filled[0] = 1;
    filled[1] = 2;
    assert_eq!(finish_read(filled.clone(), ReadOutcome::Bytes(2), false).unwrap(), vec![1, 2]);
    assert_eq!(finish_read(filled.clone(), ReadOutcome::Bytes(64), true).unwrap().len(), 64);
    assert!(matches!(finish_read(filled.clone(), ReadOutcome::Bytes(0), false), Err(ReadError::NoData)));
    assert!(matches!(finish_read(filled.clone(), ReadOutcome::Bytes(0), true), Err(ReadError::Timeout)));
    match finish_read(filled, ReadOutcome::Fault("io".to_string()), false) {
        Err(ReadError::TransportError(m)) => assert_eq!(m, "io"),
        other => panic!("unexpected {:?}", other),
    }
}

#[test]
fn detection_picks_first_controller() {
    assert!(detect_in(&vec![keyboard()]).is_none());
    assert_eq!(first_controller(&vec![]), None);
    let devices = vec![keyboard(), entry(VALVE_VENDOR_ID, SC_WIRED_PID, None, None)];
    assert_eq!(first_controller(&devices), Some(1));
    let info = detect_in(&devices).unwrap();
    assert!(info.connected);
    assert_eq!(info.connection_type, "Wired");
    assert_eq!(info.product_name, "Steam Controller");
    assert_eq!(info.serial, "Unknown");
}

#[test]
fn payload_bytes() {
    assert_eq!(disable_mouse_payload(), vec![0x81, 0x00]);
    assert_eq!(enable_mouse_payload(), vec![0x81, 0x01]);
    let p = enable_input_payload();
    assert_eq!(p.len(), 64);
    assert_eq!(p[20], 0x2f);
    assert_eq!(p[21], 0x01);
    assert!(p[22..].iter().all(|b| *b == 0));
}

#[test]
fn device_listings() {
    let mut valve = entry(VALVE_VENDOR_ID, SC_WIRED_PID, Some("Wired Controller"), None);
    valve.interface_number = 2;
    let devices = vec![keyboard(), valve, entry(0x1234, 1, None, None)];
    let all = list_devices(&devices);
    assert_eq!(all.len(), 3);
    assert_eq!(all[0].product, "Keyboard");
    assert_eq!(all[2].product, "Unknown");
    assert_eq!(all[1].vendor_id, VALVE_VENDOR_ID);
    let ours = list_steam_controller_interfaces(&devices);
    assert_eq!(ours.len(), 1);
    assert_eq!(ours[0].product_id, SC_WIRED_PID);
    assert_eq!(ours[0].product, "Wired Controller");
    assert_eq!(ours[0].interface_number, 2);
    assert_eq!(ours[0].usage_page, 0xff00);
}
