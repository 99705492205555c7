use vstd::prelude::*;
use vstd::string::StringExecFns;
use crate::text::{decimal, hex_fixed, push_decimal, push_hex4};

verus! {

/// Largest worker identity accepted by the worker-specific hashrate tracking extension.
pub const USER_IDENTITY_MAX_LEN: usize = 32;

/// A registered rule for one (extension type, field type) pair.
#[derive(Debug, Clone, Copy)]
pub struct FieldRule {
    pub field_name: &'static str,
    pub max_length: usize,
    pub encoding: &'static str,
}

/// The content of a rule.
pub struct RuleModel {
    pub field_name: Seq<char>,
    pub max_length: nat,
    pub encoding: Seq<char>,
}

impl View for FieldRule {
    type V = RuleModel;

    open spec fn view(&self) -> RuleModel {
        RuleModel {
            field_name: self.field_name@,
            max_length: self.max_length as nat,
            encoding: self.encoding@,
        }
    }
}

/// The rule table: which pairs are known, and what each allows.
pub open spec fn rule_for(extension_type: u16, field_type: u8) -> Option<RuleModel> {
    if extension_type == 0x0002 && field_type == 0x01 {
        Some(
            RuleModel {
                field_name: "user_identity"@,
                max_length: USER_IDENTITY_MAX_LEN as nat,
                encoding: "UTF-8"@,
            },
        )
    } else {
        None
    }
}

/// Looks a pair up in the rule table.
pub fn lookup_rule(extension_type: u16, field_type: u8) -> (r: Option<FieldRule>)
    ensures
        r is Some <==> rule_for(extension_type, field_type) is Some,
        r matches Some(rule) ==> rule_for(extension_type, field_type) == Some(rule@),
{
    if extension_type == 0x0002 && field_type == 0x01 {
        Some(
            FieldRule {
                field_name: "user_identity",
                max_length: USER_IDENTITY_MAX_LEN,
                encoding: "UTF-8",
            },
        )
    } else {
        None
    }
}

/// Why a candidate field was rejected.
#[derive(Debug, Clone, Copy, PartialEq, Eq, Structural)]
pub enum ValidationError {
    /// No rule is registered for the pair.
    UnknownField { extension_type: u16, field_type: u8 },
    /// The value is longer than the rule allows.
    ConstraintViolation {
        extension_type: u16,
        field_type: u8,
        max_length: usize,
        actual_length: usize,
    },
}

impl ValidationError {
    pub open spec fn spec_message(self) -> Seq<char> {
        match self {
            ValidationError::UnknownField { extension_type, field_type } => if extension_type
                == 0x0002 {
                "Unknown field type "@ + decimal(field_type as nat)
                    + " for Worker-Specific Hashrate Tracking extension"@
            } else {
                "Unknown TLV field: extension type 0x"@ + hex_fixed(extension_type as nat, 4)
                    + ", field type "@ + decimal(field_type as nat)
            },
            ValidationError::ConstraintViolation {
                extension_type,
                field_type,
                max_length,
                actual_length,
            } => "Value of extension type 0x"@ + hex_fixed(extension_type as nat, 4)
                + ", field type "@ + decimal(field_type as nat) + " must be "@ + decimal(
                max_length as nat,
            ) + " bytes or less (got "@ + decimal(actual_length as nat) + ")"@,
        }
    }

    /// A one-line description of the violated constraint.
    pub fn message(&self) -> (r: String)
        ensures
            r@ == self.spec_message(),
    {
        match self {
            ValidationError::UnknownField { extension_type, field_type } => {
                if *extension_type == 0x0002 {
                    let mut s = String::from_str("Unknown field type ");
                    push_decimal(&mut s, *field_type as u64);
                    s.append(" for Worker-Specific Hashrate Tracking extension");
                    return s;
                }
                let mut s = String::from_str("Unknown TLV field: extension type 0x");
                push_hex4(&mut s, *extension_type);
                s.append(", field type ");
                push_decimal(&mut s, *field_type as u64);
                s
            },
            ValidationError::ConstraintViolation {
                extension_type,
                field_type,
                max_length,
                actual_length,
            } => {
                let mut s = String::from_str("Value of extension type 0x");
                push_hex4(&mut s, *extension_type);
                s.append(", field type ");
                push_decimal(&mut s, *field_type as u64);
                s.append(" must be ");
                push_decimal(&mut s, *max_length as u64);
                s.append(" bytes or less (got ");
                push_decimal(&mut s, *actual_length as u64);
                s.append(")");
                s
            },
        }
    }
}

/// Descriptive metadata about an accepted field, for display.
pub struct FieldInfo {
    pub field_name: String,
    pub max_length: usize,
    pub current_length: usize,
    pub encoding: String,
}

/// The outcome of validating a candidate field: `error` is present exactly when the field
/// is not valid, `field_info` exactly when it is.
pub struct TLVValidationResult {
    pub valid: bool,
    pub error: Option<ValidationError>,
    pub field_info: Option<FieldInfo>,
}

/// Whether `info` describes a value of `len` bytes under `rule`.
pub open spec fn describes(info: FieldInfo, rule: RuleModel, len: nat) -> bool {
    &&& info.field_name@ == rule.field_name
    &&& info.max_length == rule.max_length
    &&& info.current_length == len
    &&& info.encoding@ == rule.encoding
}

/// Checks a candidate field against the rule registered for its pair.
pub fn validate_tlv_field(extension_type: u16, field_type: u8, value: &[u8]) -> (r:
    TLVValidationResult)
    ensures
        r.valid <==> (rule_for(extension_type, field_type) matches Some(rule) && value@.len()
            <= rule.max_length),
        r.valid ==> r.error is None,
        r.valid <==> r.field_info is Some,
        r.field_info matches Some(info) ==> describes(
            info,
            rule_for(extension_type, field_type).unwrap(),
            value@.len(),
        ),
        rule_for(extension_type, field_type) is None ==> r.error == Some(
            ValidationError::UnknownField { extension_type, field_type },
        ),
        rule_for(extension_type, field_type) matches Some(rule) ==> (value@.len() > rule.max_length
            ==> r.error == Some(
            ValidationError::ConstraintViolation {
                extension_type,
                field_type,
                max_length: rule.max_length as usize,
                actual_length: value@.len() as usize,
            },
        )),
{
    match lookup_rule(extension_type, field_type) {
        None => TLVValidationResult {
            valid: false,
            error: Some(ValidationError::UnknownField { extension_type, field_type }),
            field_info: None,
        },
        Some(rule) => {
            let len = value.len();
            if len > rule.max_length {
                TLVValidationResult {
                    valid: false,
                    error: Some(
                        ValidationError::ConstraintViolation {
                            extension_type,
                            field_type,
                            max_length: rule.max_length,
                            actual_length: len,
                        },
                    ),
                    field_info: None,
                }
            } else {
                let info = FieldInfo {
                    field_name: String::from_str(rule.field_name),
                    max_length: rule.max_length,
                    current_length: len,
                    encoding: String::from_str(rule.encoding),
                };
                TLVValidationResult { valid: true, error: None, field_info: Some(info) }
            }
        },
    }
}

} // verus!
