use xpressnet_decoder::catalog::check_catalog_integrity;
use xpressnet_decoder::catalog::get_definitions;

#[test]
fn check_duplicates() {
    let definitions = get_definitions();
    for definition in definitions {
        let definitions2 = get_definitions();
        for definition2 in definitions2 {
            if definition.header_byte_value == definition2.header_byte_value
                && definition.has_header == definition2.has_header
                && definition.call_byte_value == definition2.call_byte_value
                && definition.name != definition2.name
            {
                println!("Double found");
            }
        }
    }
}

#[test]
fn catalog_passes_integrity_check() {
    let definitions = get_definitions();
    assert!(check_catalog_integrity(&definitions));
}

#[test]
fn integrity_check_rejects_overlapping_versions() {
    // Two copies of the same definition coincide in every requirement and
    // share a version window, which the integrity check must refuse.
    let definitions = get_definitions();
    let mut doubled = Vec::new();
    doubled.push(definitions[3]);
    doubled.push(definitions[3]);
    assert!(!check_catalog_integrity(&doubled));
}
