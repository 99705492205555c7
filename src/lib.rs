use vstd::prelude::*;
use vstd::slice::slice_to_vec;
use vstd::utf8::encode_utf8;

pub mod catalog;
pub mod messages;
pub mod text;
pub mod tlv;
pub mod validate;

use crate::catalog::{
    advertised_fields_match_rules, is_extension_catalog, is_hashrate_extension, is_known_extension,
    is_negotiation_extension, is_protocol_overview, message_type_names, ExtensionInfo,
    GetExtensionInfoResponse, ProtocolSpec,
};
use crate::messages::{
    unknown_message_text, unsupported_text, DecodeMessageResponse, EncodeMessageResponse,
    GenerateTestMessageResponse, TestMessageKind,
};
use crate::text::{hex_bytes, hex_encode, hex_fixed};
use crate::tlv::{
    decode_error, decode_records, encode_record, error_list, field_views, model_of,
    ParseTLVFieldsResponse, TLVField, TlvError, MAX_VALUE_LEN,
};
use crate::validate::{describes, rule_for, TLVValidationResult, ValidationError};

verus! {

/// The answer to a request to build a TLV field: the field and its wire bytes as lowercase
/// hex, or the reason it could not be built.
pub struct CreateTLVFieldResponse {
    pub tlv_field: Option<TLVField>,
    pub encoded_bytes: Option<String>,
    pub error: Option<TlvError>,
}

/// The answer to a request to validate a TLV field.
pub struct ValidateTLVFieldResponse {
    pub validation: TLVValidationResult,
}

/// Entry point for the informational and TLV operations. It holds no state.
#[derive(Clone, Copy)]
pub struct StratumV2MCPServer;

impl StratumV2MCPServer {
    pub fn new() -> (r: StratumV2MCPServer)
        ensures
            r == StratumV2MCPServer,
    {
        StratumV2MCPServer
    }

    /// The protocol overview.
    pub fn analyze_protocol_spec(&self) -> (r: ProtocolSpec)
        ensures
            is_protocol_overview(r),
    {
        crate::catalog::analyze_protocol_spec()
    }

    /// The names of all message types.
    pub fn list_message_types(&self) -> (r: Vec<String>)
        ensures
            r@.map_values(|s: String| s@) == message_type_names(),
    {
        crate::catalog::list_message_types()
    }

    /// The extension catalog.
    pub fn list_extensions(&self) -> (r: Vec<ExtensionInfo>)
        ensures
            is_extension_catalog(r@),
    {
        crate::catalog::list_extensions()
    }

    /// Details of one extension, or an error naming the unknown type.
    pub fn get_extension_info(&self, extension_type: u16) -> (r: GetExtensionInfoResponse)
        ensures
            r.extension_info is Some <==> is_known_extension(extension_type),
            r.extension_info matches Some(info) ==> info.extension_type == extension_type
                && advertised_fields_match_rules(info),
            r.extension_info matches Some(info) ==> (extension_type == 0x0001
                ==> is_negotiation_extension(info)),
            r.extension_info matches Some(info) ==> (extension_type == 0x0002
                ==> is_hashrate_extension(info)),
            r.error is Some <==> !is_known_extension(extension_type),
            r.error matches Some(e) ==> e@ == "Unknown extension type 0x"@ + hex_fixed(
                extension_type as nat,
                4,
            ),
    {
        crate::catalog::get_extension_info(extension_type)
    }

    /// Builds a TLV field whose value is the UTF-8 bytes of `value` and encodes it. A value of
    /// more than 65535 bytes is refused with `ValueTooLong` and nothing is encoded.
    pub fn create_tlv_field(&self, extension_type: u16, field_type: u8, value: String) -> (r:
        CreateTLVFieldResponse)
        ensures
            encode_utf8(value@).len() <= MAX_VALUE_LEN ==> {
                &&& r.tlv_field matches Some(f) && f@ == model_of(
                    extension_type,
                    field_type,
                    encode_utf8(value@),
                )
                &&& r.encoded_bytes matches Some(h) && h@ == hex_bytes(
                    encode_record(extension_type, field_type, encode_utf8(value@)),
                )
                &&& r.error is None
            },
            encode_utf8(value@).len() > MAX_VALUE_LEN ==> {
                &&& r.tlv_field is None
                &&& r.encoded_bytes is None
                &&& r.error == Some(
                    TlvError::ValueTooLong {
                        length: encode_utf8(value@).len() as usize,
                        limit: MAX_VALUE_LEN,
                    },
                )
            },
    {
        let bytes = slice_to_vec(value.as_str().as_bytes());
        match TLVField::new(extension_type, field_type, bytes) {
            Ok(field) => {
                let encoded = field.encode();
                let hex = hex_encode(encoded.as_slice());
                CreateTLVFieldResponse { tlv_field: Some(field), encoded_bytes: Some(hex), error: None }
            },
            Err(e) => CreateTLVFieldResponse { tlv_field: None, encoded_bytes: None, error: Some(e) },
        }
    }

    /// Decodes a buffer of consecutive TLV records.
    pub fn parse_tlv_fields(&self, bytes: Vec<u8>) -> (r: ParseTLVFieldsResponse)
        ensures
            field_views(r.tlv_fields@) == decode_records(bytes@),
            r.tlv_fields@.len() == decode_records(bytes@).len(),
            r.errors@ == error_list(decode_error(bytes@)),
            r.parsed_successfully == (decode_error(bytes@) is None),
    {
        crate::tlv::decode_tlv_fields(bytes.as_slice())
    }

    /// Checks the UTF-8 bytes of `value` against the rule registered for the pair.
    pub fn validate_tlv_field(&self, extension_type: u16, field_type: u8, value: String) -> (r:
        ValidateTLVFieldResponse)
        ensures
            r.validation.valid <==> (rule_for(extension_type, field_type) matches Some(rule)
                && encode_utf8(value@).len() <= rule.max_length),
            r.validation.valid <==> r.validation.field_info is Some,
            r.validation.valid ==> r.validation.error is None,
            r.validation.field_info matches Some(info) ==> describes(
                info,
                rule_for(extension_type, field_type).unwrap(),
                encode_utf8(value@).len(),
            ),
            rule_for(extension_type, field_type) is None ==> r.validation.error == Some(
                ValidationError::UnknownField { extension_type, field_type },
            ),
            rule_for(extension_type, field_type) matches Some(rule) ==> (encode_utf8(value@).len()
                > rule.max_length ==> r.validation.error == Some(
                ValidationError::ConstraintViolation {
                    extension_type,
                    field_type,
                    max_length: rule.max_length as usize,
                    actual_length: encode_utf8(value@).len() as usize,
                },
            )),
    {
        let validation = crate::validate::validate_tlv_field(
            extension_type,
            field_type,
            value.as_str().as_bytes(),
        );
        ValidateTLVFieldResponse { validation }
    }

    /// The sample message for a type name, or an error listing the available types.
    pub fn generate_test_message(&self, message_type: String) -> (r: GenerateTestMessageResponse)
        ensures
            r.message matches Some(k) ==> k.spec_name() == message_type@,
            r.message is None <==> forall|k: TestMessageKind| k.spec_name() != message_type@,
            r.error is Some <==> r.message is None,
            r.error matches Some(e) ==> e@ == unknown_message_text(message_type@),
    {
        crate::messages::generate_test_message(&message_type)
    }

    /// Whole-message encoding is not offered; the answer says so.
    pub fn encode_message(&self, message_type: String) -> (r: EncodeMessageResponse)
        ensures
            !r.result.success,
            r.result.encoded_bytes is None,
            r.result.error matches Some(e) && e@ == unsupported_text("encoding"@, message_type@),
    {
        crate::messages::encode_message(&message_type)
    }

    /// Whole-message decoding is not offered; the answer says so and echoes the bytes as hex.
    pub fn decode_message(&self, bytes: Vec<u8>, message_type: String) -> (r:
        DecodeMessageResponse)
        ensures
            !r.result.success,
            r.result.encoded_bytes matches Some(h) && h@ == hex_bytes(bytes@),
            r.result.error matches Some(e) && e@ == unsupported_text("decoding"@, message_type@),
    {
        crate::messages::decode_message(bytes.as_slice(), &message_type)
    }
}

} // verus!
