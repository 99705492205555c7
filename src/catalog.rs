use vstd::prelude::*;
use vstd::string::StringExecFns;
use crate::text::{hex_fixed, push_hex4};
use crate::validate::{rule_for, USER_IDENTITY_MAX_LEN};

verus! {

/// One field of a protocol message.
pub struct MessageField {
    pub name: String,
    pub field_type: String,
    pub description: String,
    pub required: bool,
}

/// A protocol message and its fields.
pub struct MessageType {
    pub name: String,
    pub direction: String,
    pub fields: Vec<MessageField>,
    pub description: String,
}

/// A TLV field that an extension defines.
pub struct TLVFieldInfo {
    pub field_type: u8,
    pub name: String,
    pub data_type: String,
    pub max_length: Option<usize>,
    pub description: String,
}

/// A protocol extension and what it adds.
pub struct ExtensionInfo {
    pub extension_type: u16,
    pub name: String,
    pub description: String,
    pub negotiation_required: bool,
    pub messages: Vec<String>,
    pub tlv_fields: Vec<TLVFieldInfo>,
}

/// Overview of the protocol suite.
pub struct ProtocolSpec {
    pub version: String,
    pub description: String,
    pub message_types: Vec<MessageType>,
    pub extensions: Vec<ExtensionInfo>,
    pub security_features: Vec<String>,
}

/// The answer to a lookup of one extension: its details, or an error naming the unknown type.
pub struct GetExtensionInfoResponse {
    pub extension_info: Option<ExtensionInfo>,
    pub error: Option<String>,
}

/// Every TLV field that `ext` advertises has a rule in the validator's table with the same
/// name and the same maximum length.
pub open spec fn advertised_fields_match_rules(ext: ExtensionInfo) -> bool {
    forall|j: int|
        0 <= j < ext.tlv_fields@.len() ==> {
            let f = #[trigger] ext.tlv_fields@[j];
            &&& rule_for(ext.extension_type, f.field_type) matches Some(rule)
            &&& f.name@ == rule.field_name
            &&& f.max_length == Some(rule.max_length as usize)
        }
}

/// The names of the messages of the extensions negotiation extension.
pub open spec fn negotiation_message_names() -> Seq<Seq<char>> {
    seq!["RequestExtensions"@, "RequestExtensions.Success"@, "RequestExtensions.Error"@]
}

/// Extension 0x0001: negotiation, always required, three messages and no TLV fields.
pub open spec fn is_negotiation_extension(e: ExtensionInfo) -> bool {
    &&& e.extension_type == 0x0001
    &&& e.name@ == extension_name(0x0001)
    &&& e.negotiation_required
    &&& e.messages@.map_values(|m: String| m@) == negotiation_message_names()
    &&& e.messages@.len() == 3
    &&& e.tlv_fields@.len() == 0
}

/// Extension 0x0002: worker-specific hashrate tracking, always required, no messages of its
/// own and one TLV field, the worker identity, a UTF-8 string of at most 32 bytes, which
/// agrees with the validator's rule.
pub open spec fn is_hashrate_extension(e: ExtensionInfo) -> bool {
    &&& e.extension_type == 0x0002
    &&& e.name@ == extension_name(0x0002)
    &&& e.negotiation_required
    &&& e.messages@.len() == 0
    &&& e.tlv_fields@.len() == 1
    &&& e.tlv_fields@[0].field_type == 0x01
    &&& e.tlv_fields@[0].name@ == "user_identity"@
    &&& e.tlv_fields@[0].data_type@ == "UTF-8 string"@
    &&& e.tlv_fields@[0].max_length == Some(USER_IDENTITY_MAX_LEN)
    &&& advertised_fields_match_rules(e)
}

/// The extension catalog: extension 0x0001, then extension 0x0002.
pub open spec fn is_extension_catalog(exts: Seq<ExtensionInfo>) -> bool {
    &&& exts.len() == 2
    &&& is_negotiation_extension(exts[0])
    &&& is_hashrate_extension(exts[1])
}

/// A message's fields, as (name, wire type) pairs.
pub open spec fn field_signature(m: MessageType) -> Seq<(Seq<char>, Seq<char>)> {
    m.fields@.map_values(|f: MessageField| (f.name@, f.field_type@))
}

pub open spec fn setup_connection_fields() -> Seq<(Seq<char>, Seq<char>)> {
    seq![
        ("protocol"@, "STR0_255"@),
        ("min_version"@, "U16"@),
        ("max_version"@, "U16"@),
        ("flags"@, "U32"@),
        ("endpoint_host"@, "STR0_255"@),
        ("endpoint_port"@, "U16"@),
        ("vendor"@, "STR0_255"@),
        ("hardware_version"@, "STR0_255"@),
        ("firmware"@, "STR0_255"@),
        ("device_id"@, "STR0_255"@),
    ]
}

pub open spec fn submit_shares_standard_fields() -> Seq<(Seq<char>, Seq<char>)> {
    seq![
        ("channel_id"@, "U32"@),
        ("sequence_number"@, "U32"@),
        ("job_id"@, "U32"@),
        ("nonce"@, "U32"@),
        ("ntime"@, "U32"@),
        ("version"@, "U32"@),
    ]
}

pub open spec fn new_template_fields() -> Seq<(Seq<char>, Seq<char>)> {
    seq![
        ("template_id"@, "U64"@),
        ("future_template"@, "BOOL"@),
        ("version"@, "U32"@),
        ("coinbase_tx_version"@, "U32"@),
        ("coinbase_prefix"@, "B0_64K"@),
        ("coinbase_tx_suffix"@, "B0_64K"@),
    ]
}

/// The protocol overview: version 2.0.0; the messages SetupConnection (10 fields),
/// SubmitSharesStandard (6 fields) and NewTemplate (6 fields) with their field names and
/// types; the extension catalog; seven security features.
pub open spec fn is_protocol_overview(p: ProtocolSpec) -> bool {
    &&& p.version@ == "2.0.0"@
    &&& p.message_types@.len() == 3
    &&& p.message_types@[0].name@ == "SetupConnection"@
    &&& p.message_types@[0].fields@.len() == 10
    &&& field_signature(p.message_types@[0]) == setup_connection_fields()
    &&& p.message_types@[1].name@ == "SubmitSharesStandard"@
    &&& p.message_types@[1].fields@.len() == 6
    &&& field_signature(p.message_types@[1]) == submit_shares_standard_fields()
    &&& p.message_types@[2].name@ == "NewTemplate"@
    &&& p.message_types@[2].fields@.len() == 6
    &&& field_signature(p.message_types@[2]) == new_template_fields()
    &&& is_extension_catalog(p.extensions@)
    &&& p.security_features@.len() == 7
}

/// Whether a type has an entry in the extension catalog.
pub open spec fn is_known_extension(extension_type: u16) -> bool {
    extension_type == 0x0001 || extension_type == 0x0002
}

/// The display name of a catalogued extension.
pub open spec fn extension_name(extension_type: u16) -> Seq<char> {
    if extension_type == 0x0001 {
        "Extensions Negotiation"@
    } else {
        "Worker-Specific Hashrate Tracking"@
    }
}

fn text(t: &str) -> (r: String)
    ensures
        r@ == t@,
{
    String::from_str(t)
}

fn negotiation_messages() -> (r: Vec<String>)
    ensures
        r@.map_values(|m: String| m@) == negotiation_message_names(),
        r@.len() == 3,
{
    let r = vec![
        text("RequestExtensions"),
        text("RequestExtensions.Success"),
        text("RequestExtensions.Error"),
    ];
    assert(r@.map_values(|m: String| m@) =~= negotiation_message_names());
    r
}

fn user_identity_field(description: &str) -> (r: TLVFieldInfo)
    ensures
        r.field_type == 0x01,
        r.name@ == "user_identity"@,
        r.data_type@ == "UTF-8 string"@,
        r.max_length == Some(USER_IDENTITY_MAX_LEN),
{
    TLVFieldInfo {
        field_type: 0x01,
        name: text("user_identity"),
        data_type: text("UTF-8 string"),
        max_length: Some(USER_IDENTITY_MAX_LEN),
        description: text(description),
    }
}

fn negotiation_extension(description: &str) -> (r: ExtensionInfo)
    ensures
        is_negotiation_extension(r),
        advertised_fields_match_rules(r),
{
    ExtensionInfo {
        extension_type: 0x0001,
        name: text("Extensions Negotiation"),
        description: text(description),
        negotiation_required: true,
        messages: negotiation_messages(),
        tlv_fields: Vec::new(),
    }
}

fn hashrate_extension(description: &str, field_description: &str) -> (r: ExtensionInfo)
    ensures
        is_hashrate_extension(r),
{
    ExtensionInfo {
        extension_type: 0x0002,
        name: text("Worker-Specific Hashrate Tracking"),
        description: text(description),
        negotiation_required: true,
        messages: Vec::new(),
        tlv_fields: vec![user_identity_field(field_description)],
    }
}

/// The extension catalog, with short descriptions.
pub fn list_extensions() -> (r: Vec<ExtensionInfo>)
    ensures
        is_extension_catalog(r@),
{
    vec![
        negotiation_extension(
            "Negotiates support for other protocol extensions between clients and servers",
        ),
        hashrate_extension(
            "Enables mining pools to track individual workers within extended channels",
            "Worker name/identifier",
        ),
    ]
}

/// The names of the message types, in catalog order.
pub open spec fn message_type_names() -> Seq<Seq<char>> {
    seq![
        "SetupConnection"@,
        "SetupConnectionSuccess"@,
        "SetupConnectionError"@,
        "OpenStandardMiningChannel"@,
        "OpenStandardMiningChannelSuccess"@,
        "OpenStandardMiningChannelError"@,
        "OpenExtendedMiningChannel"@,
        "OpenExtendedMiningChannelSuccess"@,
        "OpenExtendedMiningChannelError"@,
        "UpdateChannel"@,
        "UpdateChannelError"@,
        "SubmitSharesStandard"@,
        "SubmitSharesSuccess"@,
        "SubmitSharesError"@,
        "SubmitSharesExtended"@,
        "SetNewPrevHash"@,
        "SetTarget"@,
        "SetCustomMiningJob"@,
        "NewTemplate"@,
        "DeclareTransaction"@,
        "Reconnect"@,
        "CloseChannel"@,
    ]
}

/// The message type catalog.
pub fn list_message_types() -> (r: Vec<String>)
    ensures
        r@.map_values(|s: String| s@) == message_type_names(),
{
    let r = vec![
        text("SetupConnection"),
        text("SetupConnectionSuccess"),
        text("SetupConnectionError"),
        text("OpenStandardMiningChannel"),
        text("OpenStandardMiningChannelSuccess"),
        text("OpenStandardMiningChannelError"),
        text("OpenExtendedMiningChannel"),
        text("OpenExtendedMiningChannelSuccess"),
        text("OpenExtendedMiningChannelError"),
        text("UpdateChannel"),
        text("UpdateChannelError"),
        text("SubmitSharesStandard"),
        text("SubmitSharesSuccess"),
        text("SubmitSharesError"),
        text("SubmitSharesExtended"),
        text("SetNewPrevHash"),
        text("SetTarget"),
        text("SetCustomMiningJob"),
        text("NewTemplate"),
        text("DeclareTransaction"),
        text("Reconnect"),
        text("CloseChannel"),
    ];
    assert(r@.map_values(|s: String| s@) =~= message_type_names());
    r
}

/// Details of one extension, or an error naming the unknown type.
pub fn get_extension_info(extension_type: u16) -> (r: GetExtensionInfoResponse)
    ensures
        r.extension_info is Some <==> is_known_extension(extension_type),
        r.extension_info matches Some(info) ==> info.extension_type == extension_type
            && advertised_fields_match_rules(info),
        r.extension_info matches Some(info) ==> (extension_type == 0x0001
            ==> is_negotiation_extension(info)),
        r.extension_info matches Some(info) ==> (extension_type == 0x0002
            ==> is_hashrate_extension(info)),
        r.error is Some <==> !is_known_extension(extension_type),
        r.error matches Some(e) ==> e@ == "Unknown extension type 0x"@ + hex_fixed(
            extension_type as nat,
            4,
        ),
{
    if extension_type == 0x0001 {
        let info = negotiation_extension(
            "This extension defines the basic protocol for requesting and negotiating support for other protocol extensions between clients and servers.",
        );
        GetExtensionInfoResponse { extension_info: Some(info), error: None }
    } else if extension_type == 0x0002 {
        let info = hashrate_extension(
            "This extension modifies the existing SubmitSharesExtended message by introducing a new TLV field that contains the user_identity (worker name).",
            "Worker name/identifier for hashrate tracking",
        );
        GetExtensionInfoResponse { extension_info: Some(info), error: None }
    } else {
        let mut e = text("Unknown extension type 0x");
        push_hex4(&mut e, extension_type);
        GetExtensionInfoResponse { extension_info: None, error: Some(e) }
    }
}

fn field(name: &str, field_type: &str, description: &str) -> (r: MessageField)
    ensures
        r.name@ == name@,
        r.field_type@ == field_type@,
        r.required,
{
    MessageField {
        name: text(name),
        field_type: text(field_type),
        description: text(description),
        required: true,
    }
}

fn setup_connection() -> (r: MessageType)
    ensures
        r.name@ == "SetupConnection"@,
        field_signature(r) == setup_connection_fields(),
        r.fields@.len() == 10,
{
    let r = MessageType {
        name: text("SetupConnection"),
        direction: text("Client -> Server"),
        fields: vec![
            field("protocol", "STR0_255", "Protocol identifier"),
            field("min_version", "U16", "Minimum supported protocol version"),
            field("max_version", "U16", "Maximum supported protocol version"),
            field("flags", "U32", "Connection flags"),
            field("endpoint_host", "STR0_255", "Host endpoint"),
            field("endpoint_port", "U16", "Port endpoint"),
            field("vendor", "STR0_255", "Vendor identifier"),
            field("hardware_version", "STR0_255", "Hardware version"),
            field("firmware", "STR0_255", "Firmware version"),
            field("device_id", "STR0_255", "Device identifier"),
        ],
        description: text("Initial connection setup message with noise handshake support"),
    };
    assert(field_signature(r) =~= setup_connection_fields());
    r
}

fn submit_shares_standard() -> (r: MessageType)
    ensures
        r.name@ == "SubmitSharesStandard"@,
        field_signature(r) == submit_shares_standard_fields(),
        r.fields@.len() == 6,
{
    let r = MessageType {
        name: text("SubmitSharesStandard"),
        direction: text("Client -> Server"),
        fields: vec![
            field("channel_id", "U32", "Mining channel identifier"),
            field("sequence_number", "U32", "Sequence number for ordering"),
            field("job_id", "U32", "Job identifier"),
            field("nonce", "U32", "Nonce value"),
            field("ntime", "U32", "Block time"),
            field("version", "U32", "Block version"),
        ],
        description: text("Standard share submission with binary encoding"),
    };
    assert(field_signature(r) =~= submit_shares_standard_fields());
    r
}

fn new_template() -> (r: MessageType)
    ensures
        r.name@ == "NewTemplate"@,
        field_signature(r) == new_template_fields(),
        r.fields@.len() == 6,
{
    let r = MessageType {
        name: text("NewTemplate"),
        direction: text("Server -> Client"),
        fields: vec![
            field("template_id", "U64", "Template identifier"),
            field("future_template", "BOOL", "Whether this is a future template"),
            field("version", "U32", "Template version"),
            field("coinbase_tx_version", "U32", "Coinbase transaction version"),
            field("coinbase_prefix", "B0_64K", "Coinbase prefix"),
            field("coinbase_tx_suffix", "B0_64K", "Coinbase suffix"),
        ],
        description: text("Template distribution protocol message"),
    };
    assert(field_signature(r) =~= new_template_fields());
    r
}

/// The protocol overview: version, three described messages, the extension catalog and the
/// security features.
pub fn analyze_protocol_spec() -> (r: ProtocolSpec)
    ensures
        is_protocol_overview(r),
{
    ProtocolSpec {
        version: text("2.0.0"),
        description: text(
            "Stratum V2 is a comprehensive mining protocol suite with multiple subprotocols, binary message format, noise encryption, and role-based architecture.",
        ),
        message_types: vec![setup_connection(), submit_shares_standard(), new_template()],
        extensions: list_extensions(),
        security_features: vec![
            text("Noise protocol encryption for secure communication"),
            text("Binary protocol with efficient message encoding"),
            text("TLV (Type-Length-Value) extension support"),
            text("Role-based architecture (Pool, Proxy, Miner, Job Declarator)"),
            text("Multiple subprotocols (Mining, Job Declaration, Template Distribution)"),
            text("Channel-based communication with sequence numbers"),
            text("Backward compatibility with Stratum V1 via translator"),
        ],
    }
}

} // verus!
