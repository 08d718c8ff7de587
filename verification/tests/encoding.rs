use pump_instructions::address::Address;
use pump_instructions::encode::build_buy_instruction_data;
use pump_instructions::encode::build_create_instruction_data;
use pump_instructions::encode::build_sell_instruction_data;
use pump_instructions::encode::decode_buy_instruction_data;
use pump_instructions::encode::decode_create_instruction_data;
use pump_instructions::encode::decode_sell_instruction_data;
use pump_instructions::PumpError;

#[test]
fn sell_payload_layout_is_exact() {
    let data = build_sell_instruction_data(0x0102030405060708, 0x1112131415161718);
    assert_eq!(data.len(), 24);
    assert_eq!(&data[0..8], &[0x33, 0xE6, 0x85, 0xA4, 0x01, 0x7F, 0x83, 0xAD]);
    assert_eq!(&data[8..16], &0x0102030405060708u64.to_le_bytes());
    assert_eq!(&data[16..24], &0x1112131415161718u64.to_le_bytes());
}

#[test]
fn buy_payload_layout_is_exact() {
    let data = build_buy_instruction_data(999_999, 1_000_000_000);
    assert_eq!(data.len(), 24);
    assert_eq!(&data[0..8], &[0x66, 0x06, 0x3d, 0x12, 0x01, 0xda, 0xeb, 0xea]);
    assert_eq!(&data[8..16], &999_999u64.to_le_bytes());
    assert_eq!(&data[16..24], &1_000_000_000u64.to_le_bytes());
}

#[test]
fn create_payload_layout_is_exact() {
    let name = b"My Token".to_vec();
    let symbol = b"MTK".to_vec();
    let uri = b"https://example.com/metadata.json".to_vec();
    let creator = Address::new([7u8; 32]);
    let data = build_create_instruction_data(&name, &symbol, &uri, &creator).unwrap();

    let mut expected: Vec<u8> = Vec::new();
    expected.extend_from_slice(&[0x63, 0x72, 0x65, 0x61, 0x74, 0x65, 0x00, 0x00]);
    expected.extend_from_slice(&(name.len() as u32).to_le_bytes());
    expected.extend_from_slice(&name);
    expected.extend_from_slice(&(symbol.len() as u32).to_le_bytes());
    expected.extend_from_slice(&symbol);
    expected.extend_from_slice(&(uri.len() as u32).to_le_bytes());
    expected.extend_from_slice(&uri);
    expected.extend_from_slice(&[7u8; 32]);
    assert_eq!(data, expected);
}

#[test]
fn sell_round_trip() {
    let data = build_sell_instruction_data(5, 7);
    assert_eq!(decode_sell_instruction_data(&data), Some((5, 7)));
    let data = build_sell_instruction_data(u64::MAX, 0);
    assert_eq!(decode_sell_instruction_data(&data), Some((u64::MAX, 0)));
}

#[test]
fn buy_round_trip() {
    let data = build_buy_instruction_data(123_456_789_012, 987_654_321);
    assert_eq!(decode_buy_instruction_data(&data), Some((123_456_789_012, 987_654_321)));
}

#[test]
fn create_round_trip() {
    let name = b"AB".to_vec();
    let symbol = b"C".to_vec();
    let uri = b"u".to_vec();
    let creator = Address::new([9u8; 32]);
    let data = build_create_instruction_data(&name, &symbol, &uri, &creator).unwrap();
    let (n, s, u, c) = decode_create_instruction_data(&data).unwrap();
    assert_eq!(n, name);
    assert_eq!(s, symbol);
    assert_eq!(u, uri);
    assert_eq!(c.bytes, [9u8; 32]);
}

#[test]
fn decoders_reject_foreign_payloads() {
    // Wrong discriminator: a sell payload is no buy payload.
    let sell = build_sell_instruction_data(5, 7);
    assert_eq!(decode_buy_instruction_data(&sell), None);
    let buy = build_buy_instruction_data(5, 7);
    assert_eq!(decode_sell_instruction_data(&buy), None);
    // Wrong length.
    let mut short = build_sell_instruction_data(5, 7);
    short.pop();
    assert_eq!(decode_sell_instruction_data(&short), None);
    assert_eq!(decode_create_instruction_data(&short), None);
    // A truncated creation payload.
    let name = b"AB".to_vec();
    let creator = Address::new([0u8; 32]);
    let mut create =
        build_create_instruction_data(&name, &name, &name, &creator).unwrap();
    create.pop();
    assert_eq!(decode_create_instruction_data(&create), None);
}

#[test]
fn create_encoder_rejects_empty_fields() {
    let creator = Address::new([0u8; 32]);
    let empty: Vec<u8> = Vec::new();
    let ok = b"x".to_vec();
    assert_eq!(
        build_create_instruction_data(&empty, &ok, &ok, &creator),
        Err(PumpError::InvalidCreationRequest)
    );
    assert_eq!(
        build_create_instruction_data(&ok, &empty, &ok, &creator),
        Err(PumpError::InvalidCreationRequest)
    );
    assert_eq!(
        build_create_instruction_data(&ok, &ok, &empty, &creator),
        Err(PumpError::InvalidCreationRequest)
    );
    assert!(build_create_instruction_data(&ok, &ok, &ok, &creator).is_ok());
}
