use radio::HwAction;
use radio::Packet;
use radio::Radio;
use radio::RadioError;
use radio::RadioState;
use radio::ReadySignal;

#[test]
fn decode_defined_codes() {
    assert_eq!(RadioState::from_code(0), Ok(RadioState::Disabled));
    assert_eq!(RadioState::from_code(1), Ok(RadioState::RxRu));
    assert_eq!(RadioState::from_code(2), Ok(RadioState::RxIdle));
    assert_eq!(RadioState::from_code(3), Ok(RadioState::Rx));
    assert_eq!(RadioState::from_code(4), Ok(RadioState::RxDisable));
    assert_eq!(RadioState::from_code(9), Ok(RadioState::TxRu));
    assert_eq!(RadioState::from_code(10), Ok(RadioState::TxIdle));
    assert_eq!(RadioState::from_code(11), Ok(RadioState::Tx));
    assert_eq!(RadioState::from_code(12), Ok(RadioState::TxDisable));
}

#[test]
fn decode_is_total_over_undefined_codes() {
    for code in [5u32, 6, 7, 8, 13, 14, 100, 0xFFFF, u32::MAX] {
        assert_eq!(RadioState::from_code(code), Err(RadioError::UnrecognizedMode));
    }
}

#[test]
fn check_state_reports_mode_or_unrecognized() {
    let r = Radio::new(1, 0);
    assert_eq!(r.check_state(3), Ok(RadioState::Rx));
    assert_eq!(r.check_state(7), Err(RadioError::UnrecognizedMode));
}

#[test]
fn packet_construction_at_the_bound() {
    // S0 of 1 byte, no S1: 1 + 1 + 0 + 252 == 254, exactly the bound.
    let p = Packet::new(vec![0u8], vec![], vec![0u8; 252]);
    assert!(p.is_ok());
    let p = p.unwrap();
    assert_eq!(p.total_len(), 254);
    assert_eq!(p.length(), 252);

    // One payload byte more crosses the bound.
    let p = Packet::new(vec![0u8], vec![], vec![0u8; 253]);
    assert!(matches!(p, Err(RadioError::OversizedFrame)));

    // The spec's explicit failing example: S0 of 1 byte with 254 payload bytes.
    let p = Packet::new(vec![0u8], vec![], vec![0u8; 254]);
    assert!(matches!(p, Err(RadioError::OversizedFrame)));

    // No S0, no S1: 0 + 1 + 0 + 253 == 254 still fits.
    let p = Packet::new(vec![], vec![], vec![0u8; 253]);
    assert!(p.is_ok());

    // The empty frame is just its LENGTH byte.
    let p = Packet::new(vec![], vec![], vec![]).unwrap();
    assert_eq!(p.total_len(), 1);
    assert_eq!(p.length(), 0);

    // An S1 byte counts against the bound like any other.
    let p = Packet::new(vec![0u8], vec![0u8], vec![0u8; 252]);
    assert!(matches!(p, Err(RadioError::OversizedFrame)));
}

#[test]
fn packet_wire_image() {
    let p = Packet::new(vec![0xAAu8], vec![0xBBu8], vec![1, 2, 3]).unwrap();
    assert_eq!(p.to_bytes(), vec![0xAA, 3, 0xBB, 1, 2, 3]);
    assert_eq!(p.s0(), &vec![0xAAu8]);
    assert_eq!(p.s1(), &vec![0xBBu8]);
    assert_eq!(p.payload(), &vec![1u8, 2, 3]);
}

#[test]
fn switch_receive_disables_first() {
    let mut r = Radio::new(1, 0);
    r.switch_receive();
    assert_eq!(r.take_actions(), vec![HwAction::Disable, HwAction::RxEn]);
}

#[test]
fn switch_transmit_disables_first() {
    let mut r = Radio::new(1, 0);
    r.switch_transmit();
    assert_eq!(r.take_actions(), vec![HwAction::Disable, HwAction::TxEn]);
}

#[test]
fn switch_disables_first_from_any_history() {
    // Whatever was issued before, the appended pair keeps DISABLE ahead of the
    // enable task.
    let mut r = Radio::new(1, 0);
    r.enable_ready_ie();
    r.switch_transmit();
    r.switch_receive();
    assert_eq!(
        r.take_actions(),
        vec![
            HwAction::EnableReadyInterrupt,
            HwAction::Disable,
            HwAction::TxEn,
            HwAction::Disable,
            HwAction::RxEn,
        ]
    );
}

#[test]
fn disable_and_stop_are_single_tasks() {
    let mut r = Radio::new(0, 0);
    r.disable();
    r.disable();
    r.stop();
    assert_eq!(
        r.take_actions(),
        vec![HwAction::Disable, HwAction::Disable, HwAction::Stop]
    );
    // Draining leaves nothing behind.
    assert_eq!(r.take_actions(), vec![]);
}

#[test]
fn start_receive_sequence() {
    let mut r = Radio::new(1, 0);
    r.start_receive();
    assert_eq!(
        r.take_actions(),
        vec![
            HwAction::SetPacketPtr,
            HwAction::Disable,
            HwAction::RxEn,
            HwAction::Start,
        ]
    );
}

#[test]
fn receive_rejects_length_beyond_capacity() {
    let r = Radio::new(1, 0);
    // Five bytes of capacity, but the LENGTH byte claims ten payload bytes.
    let raw = vec![0x00u8, 10, 1, 2, 3];
    assert!(matches!(r.receive_packet(&raw), Err(RadioError::FramingOverrun)));
}

#[test]
fn receive_rejects_buffer_without_header() {
    let r = Radio::new(1, 0);
    let raw: Vec<u8> = vec![];
    assert!(matches!(r.receive_packet(&raw), Err(RadioError::FramingOverrun)));
    let raw = vec![0x00u8];
    assert!(matches!(r.receive_packet(&raw), Err(RadioError::FramingOverrun)));
}

#[test]
fn receive_rejects_frame_over_the_frame_bound() {
    let r = Radio::new(0, 0);
    // The buffer is large enough for the claimed 255 payload bytes, but
    // 1 + 255 exceeds the 254-byte frame bound.
    let mut raw = vec![0u8; 300];
    raw[0] = 255;
    assert!(matches!(r.receive_packet(&raw), Err(RadioError::OversizedFrame)));
}

#[test]
fn receive_reads_exactly_the_reported_frame() {
    let r = Radio::new(1, 0);
    // S0 = 0xAB, LENGTH = 2, payload = [7, 8]; trailing capacity is ignored.
    let raw = vec![0xABu8, 2, 7, 8, 99, 99, 99];
    let p = r.receive_packet(&raw).unwrap();
    assert_eq!(p.s0(), &vec![0xABu8]);
    assert_eq!(p.s1(), &vec![]);
    assert_eq!(p.payload(), &vec![7u8, 8]);
}

#[test]
fn transmit_receive_loopback() {
    // A frame with a one-byte S0 of 0x00, LENGTH 5 and payload [1,2,3,4,5],
    // carried over the wire image and received back.
    let sent = Packet::new(vec![0x00u8], vec![], vec![1, 2, 3, 4, 5]).unwrap();
    assert_eq!(sent.length(), 5);
    let wire = sent.to_bytes();

    let receiver = Radio::new(1, 0);
    let got = receiver.receive_packet(&wire).unwrap();
    assert_eq!(got.s0(), &vec![0x00u8]);
    assert_eq!(got.payload(), &vec![1u8, 2, 3, 4, 5]);
}

#[test]
fn complete_transfer_with_nothing_in_flight() {
    let mut r = Radio::new(1, 0);
    assert!(r.complete_transfer().is_none());
}

#[test]
fn ready_signal_posts_and_clears() {
    let mut s = ReadySignal::new();
    assert!(!s.take());
    s.post();
    s.post();
    assert!(s.take());
    assert!(!s.take());
}
