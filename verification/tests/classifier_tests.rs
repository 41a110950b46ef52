use xpressnet_decoder::classifier::classify;
use xpressnet_decoder::classifier::CallKind;
use xpressnet_decoder::errors::DecodeError;

#[test]
fn send_request_call() {
    let frame = classify(0b01000011, 7).unwrap();
    assert_eq!(frame.kind, CallKind::SendRequest);
    assert_eq!(frame.target_address, 3);
    assert!(!frame.is_broadcast);
    assert_eq!(frame.raw_byte, 0b01000011);
    assert_eq!(frame.received_at, 7);
}

#[test]
fn request_resend_call() {
    let frame = classify(0b00000001, 0).unwrap();
    assert_eq!(frame.kind, CallKind::RequestResend);
    assert_eq!(frame.target_address, 1);
    assert!(!frame.is_broadcast);
}

#[test]
fn broadcast_feedback_poll_call() {
    let frame = classify(0b00100000, 0).unwrap();
    assert_eq!(frame.kind, CallKind::BroadcastFeedbackPoll);
    assert_eq!(frame.target_address, 0);
    assert!(frame.is_broadcast);
}

#[test]
fn parity_error_call() {
    let err = classify(0b01000001, 0).unwrap_err();
    assert_eq!(err, DecodeError::ParityError);
}

#[test]
fn framed_broadcast_call_relaxes_parity() {
    // 0b01100000 has an even population count with a clear parity bit, so
    // its parity is formally invalid; broadcast framed calls accept it.
    let frame = classify(0b01100000, 0).unwrap();
    assert_eq!(frame.kind, CallKind::FramedMessage);
    assert!(frame.is_broadcast);
}

#[test]
fn framed_addressed_call_requires_parity() {
    let frame = classify(0b01100001, 0).unwrap();
    assert_eq!(frame.kind, CallKind::FramedMessage);
    assert!(!frame.is_broadcast);
    assert_eq!(classify(0b01100011, 0).unwrap_err(), DecodeError::ParityError);
}

#[test]
fn reserved_call_classifies_as_unknown() {
    let frame = classify(0b00100011, 0).unwrap();
    assert_eq!(frame.kind, CallKind::Unknown);
    assert_eq!(frame.target_address, 3);
    assert!(!frame.is_broadcast);
}

#[test]
fn classifier_is_deterministic() {
    for byte in 0u16..=255 {
        let byte = byte as u8;
        let first = classify(byte, 11);
        let second = classify(byte, 11);
        assert_eq!(first, second);
        // The timestamp never influences the classification itself.
        let other_time = classify(byte, 99);
        match (&first, &other_time) {
            (Ok(a), Ok(b)) => {
                assert_eq!(a.kind, b.kind);
                assert_eq!(a.target_address, b.target_address);
                assert_eq!(a.is_broadcast, b.is_broadcast);
                assert_eq!(a.raw_byte, b.raw_byte);
            }
            (Err(a), Err(b)) => assert_eq!(a, b),
            _ => panic!("classification depends on the timestamp"),
        }
    }
}
