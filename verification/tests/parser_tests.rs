use xpressnet_decoder::catalog::LZMessageName;
use xpressnet_decoder::errors::DecodeError;
use xpressnet_decoder::parser::MessageParser;
use xpressnet_decoder::parser::MessageParserState;

const V23: u16 = 23;
const V30: u16 = 30;
const V36: u16 = 36;
const V40: u16 = 40;

fn feed_expecting_more(parser: &mut MessageParser, bytes: &[u8], version: u16) {
    for &byte in bytes {
        let outcome = parser.parse_data(byte, 0, version).unwrap();
        assert!(outcome.is_none());
    }
}

#[test]
fn send_request_emits_call_only_message() {
    let mut parser = MessageParser::new();
    let message = parser.parse_data(0b01000011, 5, V36).unwrap().unwrap();
    assert_eq!(message.definition_name, LZMessageName::NormalRequest);
    assert_eq!(message.call_frame.target_address, 3);
    assert_eq!(message.call_frame.received_at, 5);
    assert_eq!(message.header_byte, None);
    assert_eq!(message.identifier_byte, None);
    assert!(message.payload.is_empty());
    assert!(!message.checksum_valid);
    assert_eq!(parser.current_state(), MessageParserState::WaitingForCall);
}

#[test]
fn resend_and_poll_emit_call_only_messages() {
    let mut parser = MessageParser::new();
    let message = parser.parse_data(0b00000001, 0, V36).unwrap().unwrap();
    assert_eq!(message.definition_name, LZMessageName::RequestAcknowledge);
    let message = parser.parse_data(0b00100000, 0, V36).unwrap().unwrap();
    assert_eq!(message.definition_name, LZMessageName::BroadcastFeedback);
    assert!(message.call_frame.is_broadcast);
    let message = parser.parse_data(0b00100011, 0, V36).unwrap().unwrap();
    assert_eq!(message.definition_name, LZMessageName::TBD);
}

#[test]
fn parity_failure_is_reported_and_resynchronizes() {
    let mut parser = MessageParser::new();
    let err = parser.parse_data(0b01000001, 0, V36).unwrap_err();
    assert_eq!(err, DecodeError::ParityError);
    assert_eq!(parser.current_state(), MessageParserState::WaitingForCall);
    // The next call byte starts a fresh decode.
    let message = parser.parse_data(0b01000011, 0, V36).unwrap().unwrap();
    assert_eq!(message.definition_name, LZMessageName::NormalRequest);
}

#[test]
fn broadcast_feedback_extended_with_checksum() {
    let mut parser = MessageParser::new();
    feed_expecting_more(&mut parser, &[0x60, 0x43, 0x10, 0x20, 0x31], V36);
    assert_eq!(parser.current_state(), MessageParserState::ProcessingData);
    let message = parser.parse_data(0x42, 0, V36).unwrap().unwrap();
    assert_eq!(message.definition_name, LZMessageName::BroadcastFeedbackExtended);
    assert_eq!(message.header_byte, Some(0x43));
    assert_eq!(message.identifier_byte, None);
    assert_eq!(message.payload, vec![0x10, 0x20, 0x31]);
    assert!(message.checksum_valid);
    assert_eq!(parser.current_state(), MessageParserState::WaitingForCall);
}

#[test]
fn flipped_payload_bit_fails_the_checksum() {
    let mut parser = MessageParser::new();
    feed_expecting_more(&mut parser, &[0x60, 0x43, 0x10, 0x24, 0x31], V36);
    let err = parser.parse_data(0x42, 0, V36).unwrap_err();
    assert_eq!(err, DecodeError::ChecksumError);
    assert_eq!(parser.current_state(), MessageParserState::WaitingForCall);
}

#[test]
fn plain_broadcast_feedback_takes_length_from_header_nibble() {
    // Under an old protocol version the same header byte selects the plain
    // feedback shape, whose payload length is the header's low nibble.
    let mut parser = MessageParser::new();
    feed_expecting_more(&mut parser, &[0x60, 0x43, 0x10, 0x20, 0x31], V30);
    let message = parser.parse_data(0x42, 0, V30).unwrap().unwrap();
    assert_eq!(message.definition_name, LZMessageName::BroadcastFeedback);
    assert_eq!(message.payload, vec![0x10, 0x20, 0x31]);
    assert!(message.checksum_valid);

    let mut parser = MessageParser::new();
    feed_expecting_more(&mut parser, &[0x60, 0x42, 0xAA, 0x55], V30);
    let message = parser.parse_data(0x42 ^ 0xAA ^ 0x55, 0, V30).unwrap().unwrap();
    assert_eq!(message.definition_name, LZMessageName::BroadcastFeedback);
    assert_eq!(message.payload, vec![0xAA, 0x55]);
}

#[test]
fn identifier_and_version_resolve_shared_header() {
    // Header 0xE3 is shared by several shapes that differ only by
    // identifier and version window; an identifier byte matching one shape
    // and a version outside the others' windows resolve uniquely.
    let mut parser = MessageParser::new();
    feed_expecting_more(&mut parser, &[0x61, 0xE3], V30);
    assert_eq!(parser.current_state(), MessageParserState::WaitingForIdentifier);
    feed_expecting_more(&mut parser, &[0x50, 0x12, 0x34], V30);
    let message = parser.parse_data(0x95, 0, V30).unwrap().unwrap();
    assert_eq!(message.definition_name, LZMessageName::LocoFunctionStateF0F12V30);
    assert_eq!(message.header_byte, Some(0xE3));
    assert_eq!(message.identifier_byte, Some(0x50));
    assert_eq!(message.payload, vec![0x12, 0x34]);
    assert!(message.checksum_valid);
}

#[test]
fn partial_identifier_match_selects_family() {
    // LocoInfoSearch matches identifiers 0x30..0x3F by their high nibble.
    let mut parser = MessageParser::new();
    feed_expecting_more(&mut parser, &[0x61, 0xE3, 0x37, 0x01, 0x02], V30);
    let message = parser.parse_data(0xE3 ^ 0x37 ^ 0x01 ^ 0x02, 0, V30).unwrap().unwrap();
    assert_eq!(message.definition_name, LZMessageName::LocoInfoSearchV30);
    assert_eq!(message.identifier_byte, Some(0x37));
}

#[test]
fn version_window_gates_the_software_version_report() {
    let mut parser = MessageParser::new();
    feed_expecting_more(&mut parser, &[0x61, 0x62, 0x21, 0x23], V23);
    let message = parser.parse_data(0x62 ^ 0x21 ^ 0x23, 0, V23).unwrap().unwrap();
    assert_eq!(message.definition_name, LZMessageName::SoftwareVersionReport23);

    // The same frame under a newer believed version matches nothing.
    let mut parser = MessageParser::new();
    feed_expecting_more(&mut parser, &[0x61, 0x62, 0x21, 0x23], V30);
    let err = parser.parse_data(0x62 ^ 0x21 ^ 0x23, 0, V30).unwrap_err();
    assert_eq!(err, DecodeError::NoMatchingDefinition);
}

#[test]
fn version_window_separates_shapes_sharing_a_header() {
    let data = [0x61, 0x64, 0x01, 0x02, 0x03, 0x04];
    let checksum = 0x64 ^ 0x01 ^ 0x02 ^ 0x03 ^ 0x04;

    let mut parser = MessageParser::new();
    feed_expecting_more(&mut parser, &data, V30);
    let message = parser.parse_data(checksum, 0, V30).unwrap().unwrap();
    assert_eq!(message.definition_name, LZMessageName::PoMEventReport);

    let mut parser = MessageParser::new();
    feed_expecting_more(&mut parser, &data, V40);
    let message = parser.parse_data(checksum, 0, V40).unwrap().unwrap();
    assert_eq!(message.definition_name, LZMessageName::ModelTime);
}

#[test]
fn broadcast_all_on_frame() {
    let mut parser = MessageParser::new();
    feed_expecting_more(&mut parser, &[0x60, 0x61, 0x01], V36);
    let message = parser.parse_data(0x60, 0, V36).unwrap().unwrap();
    assert_eq!(message.definition_name, LZMessageName::BroadcastAllOn);
    assert_eq!(message.header_byte, Some(0x61));
    assert_eq!(message.identifier_byte, Some(0x01));
    assert!(message.payload.is_empty());
    assert!(message.checksum_valid);
}

#[test]
fn broadcast_all_off_accepts_relaxed_parity_call() {
    // The broadcast framed call byte never carries a valid parity bit; the
    // emergency-off broadcast must decode regardless.
    let mut parser = MessageParser::new();
    feed_expecting_more(&mut parser, &[0x60, 0x61, 0x00], V36);
    let message = parser.parse_data(0x61, 0, V36).unwrap().unwrap();
    assert_eq!(message.definition_name, LZMessageName::BroadcastAllOff);
    assert!(message.checksum_valid);
}

#[test]
fn broadcast_programming_mode_frame() {
    let mut parser = MessageParser::new();
    feed_expecting_more(&mut parser, &[0x60, 0x61, 0x02], V36);
    let message = parser.parse_data(0x63, 0, V36).unwrap().unwrap();
    assert_eq!(message.definition_name, LZMessageName::BroadcastProgrammingMode);
}

#[test]
fn transmission_error_frame() {
    let mut parser = MessageParser::new();
    feed_expecting_more(&mut parser, &[0x61, 0x61, 0x80], V36);
    let message = parser.parse_data(0x61 ^ 0x80, 0, V36).unwrap().unwrap();
    assert_eq!(message.definition_name, LZMessageName::TransmissionError);
}

#[test]
fn unknown_header_empties_the_candidate_set() {
    let mut parser = MessageParser::new();
    feed_expecting_more(&mut parser, &[0x61], V36);
    let err = parser.parse_data(0xFF, 0, V36).unwrap_err();
    assert_eq!(err, DecodeError::NoMatchingDefinition);
    assert_eq!(parser.current_state(), MessageParserState::WaitingForCall);
}

#[test]
fn zero_data_frame_with_partial_identifier() {
    // LZErrors carries its error code in the low nibble of the identifier
    // and declares no further data bytes.
    let mut parser = MessageParser::new();
    feed_expecting_more(&mut parser, &[0x61, 0xE1, 0x85], V30);
    let message = parser.parse_data(0xE1 ^ 0x85, 0, V30).unwrap().unwrap();
    assert_eq!(message.definition_name, LZMessageName::LZErrorsV30);
    assert_eq!(message.identifier_byte, Some(0x85));
    assert!(message.payload.is_empty());
    assert!(message.checksum_valid);
}

#[test]
fn shared_header_resolved_by_identifier_family() {
    // Header 0x63 is shared by the service-value report (identifier family
    // 0x10..0x1F) and the newer software-version report (identifier 0x21).
    let mut parser = MessageParser::new();
    feed_expecting_more(&mut parser, &[0x61, 0x63, 0x14, 0x08, 0x2A], V36);
    let message = parser.parse_data(0x63 ^ 0x14 ^ 0x08 ^ 0x2A, 0, V36).unwrap().unwrap();
    assert_eq!(message.definition_name, LZMessageName::ServiceValueReport);

    let mut parser = MessageParser::new();
    feed_expecting_more(&mut parser, &[0x61, 0x63, 0x21, 0x36, 0x01], V36);
    let message = parser.parse_data(0x63 ^ 0x21 ^ 0x36 ^ 0x01, 0, V36).unwrap().unwrap();
    assert_eq!(message.definition_name, LZMessageName::SoftwareVersionReport30);
    assert_eq!(message.payload, vec![0x36, 0x01]);
}

#[test]
fn seven_byte_extended_version_frame() {
    let data = [0x11, 0x22, 0x33, 0x44, 0x55, 0x66, 0x77];
    let mut checksum = 0x67u8;
    for byte in data {
        checksum ^= byte;
    }
    let mut parser = MessageParser::new();
    feed_expecting_more(&mut parser, &[0x61, 0x67], V36);
    feed_expecting_more(&mut parser, &data, V36);
    let message = parser.parse_data(checksum, 0, V36).unwrap().unwrap();
    assert_eq!(message.definition_name, LZMessageName::ExtendedVersionInformation);
    assert_eq!(message.payload, data.to_vec());
}

#[test]
fn state_machine_walks_declared_states() {
    let mut parser = MessageParser::new();
    assert_eq!(parser.current_state(), MessageParserState::WaitingForCall);
    assert!(parser.parse_data(0x61, 0, V30).unwrap().is_none());
    assert_eq!(parser.current_state(), MessageParserState::WaitingForHeader);
    assert!(parser.parse_data(0xE3, 0, V30).unwrap().is_none());
    assert_eq!(parser.current_state(), MessageParserState::WaitingForIdentifier);
    assert!(parser.parse_data(0x50, 0, V30).unwrap().is_none());
    assert_eq!(parser.current_state(), MessageParserState::WaitingForData);
    assert!(parser.parse_data(0x12, 0, V30).unwrap().is_none());
    assert_eq!(parser.current_state(), MessageParserState::WaitingForData);
    assert!(parser.parse_data(0x34, 0, V30).unwrap().is_none());
    assert_eq!(parser.current_state(), MessageParserState::ProcessingData);
    assert!(parser.parse_data(0x95, 0, V30).unwrap().is_some());
    assert_eq!(parser.current_state(), MessageParserState::WaitingForCall);
}
