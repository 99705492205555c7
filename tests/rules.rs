use stratum_v2_mcp_server::catalog::{get_extension_info, list_extensions};
use stratum_v2_mcp_server::messages::TestMessageKind;
use stratum_v2_mcp_server::validate::{lookup_rule, validate_tlv_field, ValidationError};
use stratum_v2_mcp_server::StratumV2MCPServer;

#[test]
fn validate_worker_name() {
    let server = StratumV2MCPServer::new();
    let v = server.validate_tlv_field(0x0002, 0x01, "workerName".to_string()).validation;
    assert!(v.valid);
    assert!(v.error.is_none());
    let info = v.field_info.unwrap();
    assert_eq!(info.field_name, "user_identity");
    assert_eq!(info.max_length, 32);
    assert_eq!(info.current_length, 10);
    assert_eq!(info.encoding, "UTF-8");
}

#[test]
fn validate_limit_exactly() {
    let v = validate_tlv_field(2, 1, &[b'a'; 32]);
    assert!(v.valid);
    assert_eq!(v.field_info.unwrap().current_length, 32);
}

#[test]
fn validate_too_long() {
    let server = StratumV2MCPServer::new();
    let v = server.validate_tlv_field(0x0002, 0x01, "a".repeat(33)).validation;
    assert!(!v.valid);
    assert!(v.field_info.is_none());
    let e = v.error.unwrap();
    assert_eq!(
        e,
        ValidationError::ConstraintViolation {
            extension_type: 2,
            field_type: 1,
            max_length: 32,
            actual_length: 33
        }
    );
    assert_eq!(
        e.message(),
        "Value of extension type 0x0002, field type 1 must be 32 bytes or less (got 33)"
    );
}

#[test]
fn validate_unknown_extension() {
    let server = StratumV2MCPServer::new();
    let v = server.validate_tlv_field(0x0099, 0x01, "x".to_string()).validation;
    assert!(!v.valid);
    assert!(v.field_info.is_none());
    let e = v.error.unwrap();
    assert_eq!(e, ValidationError::UnknownField { extension_type: 0x0099, field_type: 1 });
    assert_eq!(e.message(), "Unknown TLV field: extension type 0x0099, field type 1");
}

#[test]
fn validate_unknown_field_of_known_extension() {
    let v = validate_tlv_field(2, 2, b"x");
    assert!(!v.valid);
    assert_eq!(v.error, Some(ValidationError::UnknownField { extension_type: 2, field_type: 2 }));
    assert_eq!(
        v.error.unwrap().message(),
        "Unknown field type 2 for Worker-Specific Hashrate Tracking extension"
    );
}

#[test]
fn rule_table_lookup() {
    let r = lookup_rule(2, 1).unwrap();
    assert_eq!(r.field_name, "user_identity");
    assert_eq!(r.max_length, 32);
    assert_eq!(r.encoding, "UTF-8");
    assert!(lookup_rule(1, 1).is_none());
}

#[test]
fn extension_catalog_agrees_with_rules() {
    let exts = list_extensions();
    assert_eq!(exts.len(), 2);
    assert_eq!(exts[0].extension_type, 1);
    assert_eq!(exts[0].name, "Extensions Negotiation");
    assert_eq!(exts[0].messages.len(), 3);
    assert_eq!(exts[1].extension_type, 2);
    let f = &exts[1].tlv_fields[0];
    let rule = lookup_rule(exts[1].extension_type, f.field_type).unwrap();
    assert_eq!(f.name, rule.field_name);
    assert_eq!(f.max_length, Some(rule.max_length));
}

#[test]
fn extension_info_known_and_unknown() {
    let known = get_extension_info(2);
    assert!(known.error.is_none());
    let info = known.extension_info.unwrap();
    assert_eq!(info.name, "Worker-Specific Hashrate Tracking");
    assert_eq!(info.tlv_fields[0].description, "Worker name/identifier for hashrate tracking");
    let unknown = get_extension_info(0x00ab);
    assert!(unknown.extension_info.is_none());
    assert_eq!(unknown.error.unwrap(), "Unknown extension type 0x00ab");
}

#[test]
fn protocol_overview() {
    let server = StratumV2MCPServer::new();
    let spec = server.analyze_protocol_spec();
    assert_eq!(spec.version, "2.0.0");
    assert_eq!(spec.message_types.len(), 3);
    assert_eq!(spec.message_types[0].fields.len(), 10);
    assert_eq!(spec.message_types[1].fields[3].name, "nonce");
    assert_eq!(spec.extensions.len(), 2);
    assert_eq!(spec.security_features.len(), 7);
}

#[test]
fn message_type_catalog() {
    let names = StratumV2MCPServer::new().list_message_types();
    assert_eq!(names.len(), 22);
    assert_eq!(names[0], "SetupConnection");
    assert_eq!(names[21], "CloseChannel");
}

#[test]
fn test_message_kinds() {
    let server = StratumV2MCPServer::new();
    let r = server.generate_test_message("NewTemplate".to_string());
    assert_eq!(r.message, Some(TestMessageKind::NewTemplate));
    assert!(r.error.is_none());
    assert_eq!(TestMessageKind::DeclareTransaction.name(), "DeclareTransaction");
    let bad = server.generate_test_message("Ping".to_string());
    assert!(bad.message.is_none());
    assert_eq!(
        bad.error.unwrap(),
        "Unknown message type: Ping. Available types: SubmitSharesStandard, SetupConnection, NewTemplate, DeclareTransaction"
    );
}

#[test]
fn whole_message_codec_is_not_offered() {
    let server = StratumV2MCPServer::new();
    let e = server.encode_message("SetupConnection".to_string()).result;
    assert!(!e.success);
    assert!(e.encoded_bytes.is_none());
    assert_eq!(
        e.error.unwrap(),
        "Message encoding for SetupConnection requires complex type conversions. Use the specific SV2 crate methods directly: binary_codec_sv2, codec_sv2"
    );
    let d = server.decode_message(vec![0x0a, 0xff], "NewTemplate".to_string()).result;
    assert!(!d.success);
    assert_eq!(d.encoded_bytes.unwrap(), "0aff");
    assert!(d.error.unwrap().starts_with("Message decoding for NewTemplate"));
}
