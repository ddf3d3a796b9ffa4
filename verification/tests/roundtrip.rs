use walrus_fuzz::FuzzError;
use walrus_fuzz::transform::round_trip_through_walrus;

#[test]
fn empty_module_round_trips() {
    // The eight-byte binary encoding of an empty wasm module: magic, then
    // version 1.
    let wasm: Vec<u8> = vec![0x00, 0x61, 0x73, 0x6d, 0x01, 0x00, 0x00, 0x00];
    let out = round_trip_through_walrus(&wasm).expect("empty module must round trip");
    assert_eq!(&out[0..4], &[0x00, 0x61, 0x73, 0x6d]);
    // The emitted module must itself survive another round trip.
    let again = round_trip_through_walrus(&out).expect("emitted module must re-parse");
    assert_eq!(&again[0..4], &[0x00, 0x61, 0x73, 0x6d]);
}

#[test]
fn garbage_is_a_transform_error_not_a_divergence() {
    let wasm: Vec<u8> = vec![0xde, 0xad, 0xbe, 0xef];
    match round_trip_through_walrus(&wasm) {
        Ok(_) => panic!("garbage must not parse"),
        Err(FuzzError::Transform { context }) => {
            assert!(context.starts_with("walrus failed to parse the wasm buffer"));
        }
        Err(_) => panic!("a parse failure must be reported as a transform error"),
    }
}

#[test]
fn truncated_module_is_rejected() {
    let wasm: Vec<u8> = vec![0x00, 0x61, 0x73];
    assert!(round_trip_through_walrus(&wasm).is_err());
}

#[test]
fn round_trip_is_deterministic() {
    let wasm: Vec<u8> = vec![0x00, 0x61, 0x73, 0x6d, 0x01, 0x00, 0x00, 0x00];
    let a = round_trip_through_walrus(&wasm).expect("empty module must round trip");
    let b = round_trip_through_walrus(&wasm).expect("empty module must round trip");
    assert_eq!(a, b);
}
