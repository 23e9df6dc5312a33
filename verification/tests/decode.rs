use relayer::log::{decode_log, DecodeError, Log};

#[test]
fn decodes_identity_and_body() {
    // Identity is the first eight payload bytes, little endian.
    let data = vec![0x01, 0x02, 0, 0, 0, 0, 0, 0, 0xaa, 0xbb];
    let log = Log { address: 7, block_height: 42, data };
    let message = decode_log(&log).unwrap();
    assert_eq!(message.id, 0x0201);
    assert_eq!(message.da_height, 42);
    assert_eq!(message.data, vec![0xaa, 0xbb]);
}

#[test]
fn decodes_largest_identity() {
    let data = vec![0xff; 8];
    let log = Log { address: 0, block_height: 1, data };
    let message = decode_log(&log).unwrap();
    assert_eq!(message.id, u64::MAX);
    assert_eq!(message.data, Vec::<u8>::new());
}

#[test]
fn rejects_short_payload() {
    let log = Log { address: 0, block_height: 5, data: vec![1, 2, 3] };
    assert_eq!(decode_log(&log).unwrap_err(), DecodeError::PayloadTooShort);
}

#[test]
fn rejects_empty_payload() {
    let log = Log { address: 0, block_height: 5, data: Vec::new() };
    assert_eq!(decode_log(&log).unwrap_err(), DecodeError::PayloadTooShort);
}
