use vstd::prelude::*;
use vstd::string::StringExecFns;
use crate::text::{hex_bytes, hex_encode};

verus! {

/// The message types for which a sample message can be produced.
#[derive(Debug, Clone, Copy, PartialEq, Eq, Structural)]
pub enum TestMessageKind {
    SubmitSharesStandard,
    SetupConnection,
    NewTemplate,
    DeclareTransaction,
}

impl TestMessageKind {
    pub open spec fn spec_name(self) -> Seq<char> {
        match self {
            TestMessageKind::SubmitSharesStandard => "SubmitSharesStandard"@,
            TestMessageKind::SetupConnection => "SetupConnection"@,
            TestMessageKind::NewTemplate => "NewTemplate"@,
            TestMessageKind::DeclareTransaction => "DeclareTransaction"@,
        }
    }

    /// The message type's name.
    pub fn name(&self) -> (r: &'static str)
        ensures
            r@ == self.spec_name(),
    {
        match self {
            TestMessageKind::SubmitSharesStandard => "SubmitSharesStandard",
            TestMessageKind::SetupConnection => "SetupConnection",
            TestMessageKind::NewTemplate => "NewTemplate",
            TestMessageKind::DeclareTransaction => "DeclareTransaction",
        }
    }

    /// The kind whose name is `name`, if there is one.
    pub fn from_name(name: &String) -> (r: Option<TestMessageKind>)
        ensures
            r matches Some(k) ==> k.spec_name() == name@,
            r is None ==> forall|k: TestMessageKind| k.spec_name() != name@,
    {
        if *name == String::from_str("SubmitSharesStandard") {
            Some(TestMessageKind::SubmitSharesStandard)
        } else if *name == String::from_str("SetupConnection") {
            Some(TestMessageKind::SetupConnection)
        } else if *name == String::from_str("NewTemplate") {
            Some(TestMessageKind::NewTemplate)
        } else if *name == String::from_str("DeclareTransaction") {
            Some(TestMessageKind::DeclareTransaction)
        } else {
            proof {
                assert forall|k: TestMessageKind| k.spec_name() != name@ by {
                    match k {
                        TestMessageKind::SubmitSharesStandard => {},
                        TestMessageKind::SetupConnection => {},
                        TestMessageKind::NewTemplate => {},
                        TestMessageKind::DeclareTransaction => {},
                    }
                }
            }
            None
        }
    }
}

/// The answer to a request for a sample message: its kind, or an error naming the unknown type.
pub struct GenerateTestMessageResponse {
    pub message: Option<TestMessageKind>,
    pub error: Option<String>,
}

/// The outcome of a whole-message encode or decode request.
pub struct MessageEncodingResult {
    pub success: bool,
    pub encoded_bytes: Option<String>,
    pub error: Option<String>,
}

pub struct EncodeMessageResponse {
    pub result: MessageEncodingResult,
}

pub struct DecodeMessageResponse {
    pub result: MessageEncodingResult,
}

pub open spec fn unknown_message_text(name: Seq<char>) -> Seq<char> {
    "Unknown message type: "@ + name
        + ". Available types: SubmitSharesStandard, SetupConnection, NewTemplate, DeclareTransaction"@
}

/// Picks the sample message for a type name.
pub fn generate_test_message(message_type: &String) -> (r: GenerateTestMessageResponse)
    ensures
        r.message matches Some(k) ==> k.spec_name() == message_type@,
        r.message is None <==> forall|k: TestMessageKind| k.spec_name() != message_type@,
        r.error is Some <==> r.message is None,
        r.error matches Some(e) ==> e@ == unknown_message_text(message_type@),
{
    match TestMessageKind::from_name(message_type) {
        Some(k) => GenerateTestMessageResponse { message: Some(k), error: None },
        None => {
            let mut e = String::from_str("Unknown message type: ");
            e.append(message_type.as_str());
            e.append(
                ". Available types: SubmitSharesStandard, SetupConnection, NewTemplate, DeclareTransaction",
            );
            GenerateTestMessageResponse { message: None, error: Some(e) }
        },
    }
}

pub open spec fn unsupported_text(operation: Seq<char>, name: Seq<char>) -> Seq<char> {
    "Message "@ + operation + " for "@ + name
        + " requires complex type conversions. Use the specific SV2 crate methods directly: binary_codec_sv2, codec_sv2"@
}

fn unsupported(operation: &str, message_type: &String) -> (r: String)
    ensures
        r@ == unsupported_text(operation@, message_type@),
{
    let mut e = String::from_str("Message ");
    e.append(operation);
    e.append(" for ");
    e.append(message_type.as_str());
    e.append(
        " requires complex type conversions. Use the specific SV2 crate methods directly: binary_codec_sv2, codec_sv2",
    );
    e
}

/// Whole-message encoding is not offered: always reports failure, naming the type.
pub fn encode_message(message_type: &String) -> (r: EncodeMessageResponse)
    ensures
        !r.result.success,
        r.result.encoded_bytes is None,
        r.result.error matches Some(e) && e@ == unsupported_text("encoding"@, message_type@),
{
    let error = unsupported("encoding", message_type);
    EncodeMessageResponse {
        result: MessageEncodingResult { success: false, encoded_bytes: None, error: Some(error) },
    }
}

/// Whole-message decoding is not offered: always reports failure, naming the type, and
/// echoes the input as hex.
pub fn decode_message(bytes: &[u8], message_type: &String) -> (r: DecodeMessageResponse)
    ensures
        !r.result.success,
        r.result.encoded_bytes matches Some(h) && h@ == hex_bytes(bytes@),
        r.result.error matches Some(e) && e@ == unsupported_text("decoding"@, message_type@),
{
    let error = unsupported("decoding", message_type);
    let hex = hex_encode(bytes);
    DecodeMessageResponse {
        result: MessageEncodingResult {
            success: false,
            encoded_bytes: Some(hex),
            error: Some(error),
        },
    }
}

} // verus!
