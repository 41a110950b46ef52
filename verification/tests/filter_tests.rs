use xpressnet_decoder::classifier::classify;
use xpressnet_decoder::errors::DecodeError;
use xpressnet_decoder::filter::LZMessageDefinitionFilter;

#[test]
fn candidate_set_only_shrinks() {
    let frame = classify(0b01100001, 0).unwrap();
    let mut filter = LZMessageDefinitionFilter::new();
    let full = filter.possible_definitions.len();
    filter.filter_call(&frame);
    let seeded = filter.possible_definitions.len();
    assert!(seeded <= full);
    filter.apply_header(0xE3);
    let after_header = filter.possible_definitions.len();
    assert!(after_header <= seeded);
    filter.apply_identifier(0x50);
    let after_identifier = filter.possible_definitions.len();
    assert!(after_identifier <= after_header);
    filter.apply_version(30);
    let after_version = filter.possible_definitions.len();
    assert!(after_version <= after_identifier);
    assert_eq!(after_version, 1);
}

#[test]
fn apply_steps_are_idempotent() {
    let frame = classify(0b01100001, 0).unwrap();
    let mut filter = LZMessageDefinitionFilter::new();
    filter.filter_call(&frame);
    filter.apply_header(0x61);
    let once = filter.possible_definitions.len();
    filter.apply_header(0x61);
    assert_eq!(filter.possible_definitions.len(), once);
    filter.apply_identifier(0x80);
    let id_once = filter.possible_definitions.len();
    filter.apply_identifier(0x80);
    assert_eq!(filter.possible_definitions.len(), id_once);
}

#[test]
fn finalize_reports_empty_set() {
    let filter = LZMessageDefinitionFilter { possible_definitions: Vec::new() };
    assert_eq!(filter.finalize().unwrap_err(), DecodeError::NoMatchingDefinition);
}

#[test]
fn finalize_reports_ambiguity() {
    let filter = LZMessageDefinitionFilter::new();
    assert_eq!(filter.finalize().unwrap_err(), DecodeError::AmbiguousDefinition);
}

#[test]
fn finalize_yields_unique_survivor() {
    let frame = classify(0b01100001, 0).unwrap();
    let mut filter = LZMessageDefinitionFilter::new();
    filter.filter_call(&frame);
    filter.apply_header(0xE3);
    filter.apply_identifier(0x50);
    filter.apply_version(30);
    let survivor = filter.finalize().unwrap();
    assert_eq!(survivor.header_byte_value, 0xE3);
    assert_eq!(survivor.identifier_value, 0x50);
}
