use stratum_v2_mcp_server::tlv::{decode_tlv_fields, ParseError, TLVField, TlvError};
use stratum_v2_mcp_server::StratumV2MCPServer;

fn encoded(extension_type: u16, field_type: u8, value: &[u8]) -> Vec<u8> {
    TLVField::new(extension_type, field_type, value.to_vec()).unwrap().encode()
}

#[test]
fn round_trip_single_record() {
    let value = b"hello world".to_vec();
    let bytes = encoded(0x1234, 0x07, &value);
    assert_eq!(bytes.len(), 5 + value.len());
    let out = decode_tlv_fields(&bytes);
    assert!(out.parsed_successfully);
    assert!(out.errors.is_empty());
    assert_eq!(out.tlv_fields.len(), 1);
    let f = &out.tlv_fields[0];
    assert_eq!(f.extension_type(), 0x1234);
    assert_eq!(f.field_type(), 0x07);
    assert_eq!(f.length() as usize, value.len());
    assert_eq!(f.value(), &value);
}

#[test]
fn round_trip_empty_value() {
    let bytes = encoded(0xffff, 0xff, &[]);
    assert_eq!(bytes, vec![0xff, 0xff, 0xff, 0x00, 0x00]);
    let out = decode_tlv_fields(&bytes);
    assert!(out.parsed_successfully);
    assert_eq!(out.tlv_fields.len(), 1);
    assert_eq!(out.tlv_fields[0].length(), 0);
    assert!(out.tlv_fields[0].value().is_empty());
}

#[test]
fn length_matches_value_for_built_and_decoded_fields() {
    let f = TLVField::new(3, 4, vec![9; 300]).unwrap();
    assert_eq!(f.length(), 300);
    let bytes = f.encode();
    assert_eq!(&bytes[3..5], &[0x2c, 0x01]);
    let out = decode_tlv_fields(&bytes);
    for g in &out.tlv_fields {
        assert_eq!(g.length() as usize, g.value().len());
    }
}

#[test]
fn boundary_value_too_long() {
    let r = TLVField::new(1, 1, vec![0u8; 65536]);
    assert!(matches!(r, Err(TlvError::ValueTooLong { length: 65536, limit: 65535 })));
}

#[test]
fn boundary_largest_value() {
    let f = TLVField::new(1, 1, vec![0xabu8; 65535]).unwrap();
    assert_eq!(f.length(), 65535);
    let bytes = f.encode();
    assert_eq!(bytes.len(), 65540);
    assert_eq!(&bytes[3..5], &[0xff, 0xff]);
    let out = decode_tlv_fields(&bytes);
    assert!(out.parsed_successfully);
    assert_eq!(out.tlv_fields[0].value().len(), 65535);
}

#[test]
fn server_refuses_long_value() {
    let server = StratumV2MCPServer::new();
    let r = server.create_tlv_field(2, 1, "x".repeat(65536));
    assert!(r.tlv_field.is_none());
    assert!(r.encoded_bytes.is_none());
    let e = r.error.unwrap();
    assert_eq!(e, TlvError::ValueTooLong { length: 65536, limit: 65535 });
    assert_eq!(e.message(), "Value too long: 65536 bytes (max 65535)");
    let ok = server.create_tlv_field(2, 1, "x".repeat(65535));
    assert!(ok.error.is_none());
    assert_eq!(ok.tlv_field.unwrap().length(), 65535);
}

#[test]
fn truncated_last_byte() {
    let mut bytes = encoded(2, 1, b"worker1");
    bytes.pop();
    let out = decode_tlv_fields(&bytes);
    assert!(out.tlv_fields.is_empty());
    assert!(!out.parsed_successfully);
    assert_eq!(
        out.errors,
        vec![ParseError::TruncatedRecord { offset: 0, needed: 7, available: 6 }]
    );
    assert_eq!(
        out.errors[0].message(),
        "Insufficient bytes for TLV value (need 7, have 6)"
    );
}

#[test]
fn truncation_keeps_earlier_records() {
    let mut bytes = encoded(1, 2, b"abc");
    bytes.extend_from_slice(&[5, 0, 6, 0x10, 0x00, 1, 2]);
    let out = decode_tlv_fields(&bytes);
    assert_eq!(out.tlv_fields.len(), 1);
    assert_eq!(out.tlv_fields[0].value(), &b"abc".to_vec());
    assert!(!out.parsed_successfully);
    assert_eq!(
        out.errors,
        vec![ParseError::TruncatedRecord { offset: 8, needed: 16, available: 2 }]
    );
    assert_eq!(out.errors[0].message(), "Insufficient bytes for TLV value (need 16, have 2)");
}

#[test]
fn two_records_in_order() {
    let mut bytes = encoded(2, 1, b"alice");
    bytes.extend(encoded(0x0100, 9, b"bob"));
    let out = decode_tlv_fields(&bytes);
    assert!(out.parsed_successfully);
    assert_eq!(out.tlv_fields.len(), 2);
    assert_eq!(out.tlv_fields[0].extension_type(), 2);
    assert_eq!(out.tlv_fields[0].value(), &b"alice".to_vec());
    assert_eq!(out.tlv_fields[1].extension_type(), 0x0100);
    assert_eq!(out.tlv_fields[1].field_type(), 9);
    assert_eq!(out.tlv_fields[1].value(), &b"bob".to_vec());
}

#[test]
fn empty_buffer_parses() {
    let out = decode_tlv_fields(&[]);
    assert!(out.tlv_fields.is_empty());
    assert!(out.errors.is_empty());
    assert!(out.parsed_successfully);
}

#[test]
fn short_tail_is_ignored() {
    let out = decode_tlv_fields(&[1, 2, 3, 4]);
    assert!(out.tlv_fields.is_empty());
    assert!(out.errors.is_empty());
    assert!(out.parsed_successfully);
    let mut bytes = encoded(7, 7, b"z");
    bytes.extend_from_slice(&[0xde, 0xad]);
    let out = decode_tlv_fields(&bytes);
    assert_eq!(out.tlv_fields.len(), 1);
    assert!(out.parsed_successfully);
}

#[test]
fn worker_name_end_to_end() {
    let server = StratumV2MCPServer::new();
    let r = server.create_tlv_field(0x0002, 0x01, "worker1".to_string());
    assert!(r.error.is_none());
    let hex = r.encoded_bytes.unwrap();
    assert_eq!(hex, "0200010700776f726b657231");
    let f = r.tlv_field.unwrap();
    assert_eq!(f.length(), 7);
    let bytes = vec![0x02, 0x00, 0x01, 0x07, 0x00, 0x77, 0x6f, 0x72, 0x6b, 0x65, 0x72, 0x31];
    assert_eq!(f.encode(), bytes);
    let out = server.parse_tlv_fields(bytes);
    assert!(out.parsed_successfully);
    assert_eq!(out.tlv_fields.len(), 1);
    assert_eq!(out.tlv_fields[0].extension_type(), 0x0002);
    assert_eq!(out.tlv_fields[0].field_type(), 0x01);
    assert_eq!(out.tlv_fields[0].value(), &b"worker1".to_vec());
}

#[test]
fn create_counts_utf8_bytes() {
    let server = StratumV2MCPServer::new();
    let r = server.create_tlv_field(0x0102, 3, "é".to_string());
    assert_eq!(r.encoded_bytes.unwrap(), "0201030200c3a9");
}
