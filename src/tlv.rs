use vstd::prelude::*;
use vstd::slice::{slice_subrange, slice_to_vec};
use vstd::string::StringExecFns;
use crate::text::{decimal, push_decimal};

verus! {

/// Size of the fixed record header: extension type (2), field type (1), length (2).
pub const HEADER_LEN: usize = 5;

/// Largest value that a record's 16-bit length can describe.
pub const MAX_VALUE_LEN: usize = 65535;

/// The mathematical content of a TLV record; its length is `value.len()`.
pub struct TLVFieldModel {
    pub extension_type: u16,
    pub field_type: u8,
    pub value: Seq<u8>,
}

/// A single Type-Length-Value record. Its length always equals the length of its value.
pub struct TLVField {
    extension_type: u16,
    field_type: u8,
    length: u16,
    value: Vec<u8>,
}

impl View for TLVField {
    type V = TLVFieldModel;

    closed spec fn view(&self) -> TLVFieldModel {
        TLVFieldModel {
            extension_type: self.extension_type,
            field_type: self.field_type,
            value: self.value@,
        }
    }
}

/// Why a record could not be built.
#[derive(Debug, Clone, Copy, PartialEq, Eq, Structural)]
pub enum TlvError {
    /// The value has more bytes than a 16-bit length can describe.
    ValueTooLong { length: usize, limit: usize },
}

/// Why decoding stopped before the end of a buffer.
#[derive(Debug, Clone, Copy, PartialEq, Eq, Structural)]
pub enum ParseError {
    /// The record whose header starts at `offset` declares `needed` value bytes, but only
    /// `available` bytes follow its header.
    TruncatedRecord { offset: usize, needed: u16, available: usize },
}

/// The outcome of decoding a buffer: the records read in buffer order, the failure that
/// stopped the scan (at most one), and whether the scan ended without a failure.
pub struct ParseTLVFieldsResponse {
    pub tlv_fields: Vec<TLVField>,
    pub errors: Vec<ParseError>,
    pub parsed_successfully: bool,
}

impl TlvError {
    pub open spec fn spec_message(self) -> Seq<char> {
        match self {
            TlvError::ValueTooLong { length, limit } => "Value too long: "@ + decimal(length as nat)
                + " bytes (max "@ + decimal(limit as nat) + ")"@,
        }
    }

    /// A one-line description of the failure.
    pub fn message(&self) -> (r: String)
        ensures
            r@ == self.spec_message(),
    {
        match self {
            TlvError::ValueTooLong { length, limit } => {
                let mut s = String::from_str("Value too long: ");
                push_decimal(&mut s, *length as u64);
                s.append(" bytes (max ");
                push_decimal(&mut s, *limit as u64);
                s.append(")");
                s
            },
        }
    }
}

impl ParseError {
    pub open spec fn spec_message(self) -> Seq<char> {
        match self {
            ParseError::TruncatedRecord { needed, available, .. } =>
                "Insufficient bytes for TLV value (need "@ + decimal(needed as nat) + ", have "@
                + decimal(available as nat) + ")"@,
        }
    }

    /// A one-line description of the failure: the bytes needed and the bytes available.
    /// The record's offset is kept in the error itself.
    pub fn message(&self) -> (r: String)
        ensures
            r@ == self.spec_message(),
    {
        match self {
            ParseError::TruncatedRecord { needed, available, .. } => {
                let mut s = String::from_str("Insufficient bytes for TLV value (need ");
                push_decimal(&mut s, *needed as u64);
                s.append(", have ");
                push_decimal(&mut s, *available as u64);
                s.append(")");
                s
            },
        }
    }
}

/// Little-endian byte `i` (0 or 1) of a 16-bit quantity.
pub open spec fn le_byte(n: nat, i: int) -> u8 {
    if i == 0 {
        (n % 256) as u8
    } else {
        (n / 256) as u8
    }
}

/// The 16-bit little-endian number held by two bytes.
pub open spec fn le_u16(lo: u8, hi: u8) -> nat {
    lo as nat + 256 * hi as nat
}

/// The canonical wire bytes of one record.
pub open spec fn encode_record(extension_type: u16, field_type: u8, value: Seq<u8>) -> Seq<u8> {
    seq![
        le_byte(extension_type as nat, 0),
        le_byte(extension_type as nat, 1),
        field_type,
        le_byte(value.len(), 0),
        le_byte(value.len(), 1),
    ] + value
}

/// The record whose header starts at `pos`, when its whole value lies inside `bytes`.
pub open spec fn record_at(bytes: Seq<u8>, pos: int) -> TLVFieldModel {
    TLVFieldModel {
        extension_type: le_u16(bytes[pos], bytes[pos + 1]) as u16,
        field_type: bytes[pos + 2],
        value: bytes.subrange(pos + 5, pos + 5 + le_u16(bytes[pos + 3], bytes[pos + 4])),
    }
}

/// Value length declared by the header at `pos`.
pub open spec fn declared_len(bytes: Seq<u8>, pos: int) -> nat {
    le_u16(bytes[pos + 3], bytes[pos + 4])
}

/// Where the record after the one whose header starts at `pos` begins.
pub open spec fn next_pos(bytes: Seq<u8>, pos: nat) -> nat {
    (pos + HEADER_LEN + declared_len(bytes, pos as int)) as nat
}

/// The records read by scanning `bytes` from `pos`: a record is taken while a whole header
/// fits and its value fits too; the scan stops at a short tail or at a truncated record.
pub open spec fn records_from(bytes: Seq<u8>, pos: nat) -> Seq<TLVFieldModel>
    decreases bytes.len() - pos,
{
    if pos + HEADER_LEN > bytes.len() {
        seq![]
    } else if pos + HEADER_LEN + declared_len(bytes, pos as int) > bytes.len() {
        seq![]
    } else {
        seq![record_at(bytes, pos as int)] + records_from(bytes, next_pos(bytes, pos))
    }
}

/// The truncated record that stops a scan of `bytes` from `pos`, if there is one.
pub open spec fn truncation_from(bytes: Seq<u8>, pos: nat) -> Option<ParseError>
    decreases bytes.len() - pos,
{
    if pos + HEADER_LEN > bytes.len() {
        None
    } else if pos + HEADER_LEN + declared_len(bytes, pos as int) > bytes.len() {
        Some(
            ParseError::TruncatedRecord {
                offset: pos as usize,
                needed: declared_len(bytes, pos as int) as u16,
                available: (bytes.len() - pos - HEADER_LEN) as usize,
            },
        )
    } else {
        truncation_from(bytes, next_pos(bytes, pos))
    }
}

/// The records that a whole buffer decodes to.
pub open spec fn decode_records(bytes: Seq<u8>) -> Seq<TLVFieldModel> {
    records_from(bytes, 0)
}

/// The failure, if any, that decoding a whole buffer reports.
pub open spec fn decode_error(bytes: Seq<u8>) -> Option<ParseError> {
    truncation_from(bytes, 0)
}

/// An optional failure as the list of failures it stands for.
pub open spec fn error_list(e: Option<ParseError>) -> Seq<ParseError> {
    match e {
        Some(x) => seq![x],
        None => seq![],
    }
}

pub open spec fn field_views(fs: Seq<TLVField>) -> Seq<TLVFieldModel> {
    fs.map_values(|f: TLVField| f@)
}

/// The model of the record built from a header's values and a value.
pub open spec fn model_of(extension_type: u16, field_type: u8, value: Seq<u8>) -> TLVFieldModel {
    TLVFieldModel { extension_type, field_type, value }
}

/// Bytes placed in front of a buffer do not change what a scan from inside the buffer reads.
proof fn lemma_scan_after_prefix(prefix: Seq<u8>, rest: Seq<u8>, pos: nat)
    ensures
        records_from(prefix + rest, prefix.len() + pos) == records_from(rest, pos),
        truncation_from(rest, pos) is None ==> truncation_from(
            prefix + rest,
            prefix.len() + pos,
        ) is None,
    decreases rest.len() - pos,
{
    let whole = prefix + rest;
    let k = prefix.len() as int;
    let p = pos as int;
    if pos + HEADER_LEN <= rest.len() {
        assert(whole[k + p + 3] == rest[p + 3] && whole[k + p + 4] == rest[p + 4]);
        if pos + HEADER_LEN + declared_len(rest, pos as int) <= rest.len() {
            let n = next_pos(rest, pos);
            assert(whole[k + p] == rest[p] && whole[k + p + 1] == rest[p + 1]);
            assert(whole[k + p + 2] == rest[p + 2]);
            assert(whole.subrange(k + p + 5, k + n) =~= rest.subrange(p + 5, n as int));
            assert(next_pos(whole, prefix.len() + pos) == prefix.len() + n);
            lemma_scan_after_prefix(prefix, rest, n);
        }
    }
}

/// Decoding a buffer that starts with one encoded record reads that record, then decodes the
/// rest of the buffer on its own.
proof fn lemma_decode_leading_record(
    extension_type: u16,
    field_type: u8,
    value: Seq<u8>,
    rest: Seq<u8>,
)
    requires
        value.len() <= MAX_VALUE_LEN,
    ensures
        decode_records(encode_record(extension_type, field_type, value) + rest) == seq![
            model_of(extension_type, field_type, value),
        ] + decode_records(rest),
        decode_error(rest) is None ==> decode_error(
            encode_record(extension_type, field_type, value) + rest,
        ) is None,
{
    let enc = encode_record(extension_type, field_type, value);
    let whole = enc + rest;
    let n = value.len();
    assert(le_u16(le_byte(n, 0), le_byte(n, 1)) == n);
    assert(le_u16(le_byte(extension_type as nat, 0), le_byte(extension_type as nat, 1))
        == extension_type);
    assert(declared_len(whole, 0) == n);
    assert(whole.subrange(5, 5 + n as int) =~= value);
    assert(record_at(whole, 0) == model_of(extension_type, field_type, value));
    assert(next_pos(whole, 0) == enc.len());
    lemma_scan_after_prefix(enc, rest, 0);
}

/// Decoding the encoding of a record yields exactly that record, with no failure.
pub proof fn lemma_round_trip(extension_type: u16, field_type: u8, value: Seq<u8>)
    requires
        value.len() <= MAX_VALUE_LEN,
    ensures
        decode_records(encode_record(extension_type, field_type, value)) == seq![
            model_of(extension_type, field_type, value),
        ],
        decode_error(encode_record(extension_type, field_type, value)) is None,
{
    let enc = encode_record(extension_type, field_type, value);
    let empty = Seq::<u8>::empty();
    lemma_decode_leading_record(extension_type, field_type, value, empty);
    assert(enc + empty =~= enc);
    assert(decode_records(empty) =~= Seq::<TLVFieldModel>::empty());
    assert(seq![model_of(extension_type, field_type, value)] + Seq::<TLVFieldModel>::empty()
        =~= seq![model_of(extension_type, field_type, value)]);
}

/// Decoding two encoded records laid end to end yields both, in order, with no failure.
pub proof fn lemma_two_records(
    ext_a: u16,
    type_a: u8,
    value_a: Seq<u8>,
    ext_b: u16,
    type_b: u8,
    value_b: Seq<u8>,
)
    requires
        value_a.len() <= MAX_VALUE_LEN,
        value_b.len() <= MAX_VALUE_LEN,
    ensures
        decode_records(encode_record(ext_a, type_a, value_a) + encode_record(ext_b, type_b, value_b))
            == seq![model_of(ext_a, type_a, value_a), model_of(ext_b, type_b, value_b)],
        decode_error(encode_record(ext_a, type_a, value_a) + encode_record(ext_b, type_b, value_b))
            is None,
{
    let enc_b = encode_record(ext_b, type_b, value_b);
    lemma_round_trip(ext_b, type_b, value_b);
    lemma_decode_leading_record(ext_a, type_a, value_a, enc_b);
    assert(seq![model_of(ext_a, type_a, value_a)] + seq![model_of(ext_b, type_b, value_b)]
        =~= seq![model_of(ext_a, type_a, value_a), model_of(ext_b, type_b, value_b)]);
}

/// Removing the last byte of an encoded record with a non-empty value leaves a buffer that
/// decodes to no record and one truncation failure at offset 0, one byte short.
pub proof fn lemma_truncated_record(extension_type: u16, field_type: u8, value: Seq<u8>)
    requires
        1 <= value.len() <= MAX_VALUE_LEN,
    ensures
        decode_records(encode_record(extension_type, field_type, value).drop_last())
            == Seq::<TLVFieldModel>::empty(),
        decode_error(encode_record(extension_type, field_type, value).drop_last()) == Some(
            ParseError::TruncatedRecord {
                offset: 0,
                needed: value.len() as u16,
                available: (value.len() - 1) as usize,
            },
        ),
{
    let t = encode_record(extension_type, field_type, value).drop_last();
    let n = value.len();
    assert(le_u16(le_byte(n, 0), le_byte(n, 1)) == n);
    assert(t[3] == le_byte(n, 0) && t[4] == le_byte(n, 1));
    assert(declared_len(t, 0) == n);
}

/// Decodes a buffer into consecutive records, starting at offset 0 and ending at the buffer's
/// end. A truncated record stops the scan with one error; records read before it are kept,
/// and the scan does not try to resynchronize.
///
/// Open question: a tail shorter than a header (1 to 4 bytes) is ignored without an error,
/// so a buffer of 1 to 4 stray bytes decodes as a success with no records. This is kept for
/// compatibility with existing callers; it may not be intended.
pub fn decode_tlv_fields(bytes: &[u8]) -> (r: ParseTLVFieldsResponse)
    ensures
        field_views(r.tlv_fields@) == decode_records(bytes@),
        r.tlv_fields@.len() == decode_records(bytes@).len(),
        r.errors@ == error_list(decode_error(bytes@)),
        r.parsed_successfully == (decode_error(bytes@) is None),
{
    let mut tlv_fields: Vec<TLVField> = Vec::new();
    let mut errors: Vec<ParseError> = Vec::new();
    let mut offset: usize = 0;
    while bytes.len() - offset >= HEADER_LEN
        invariant_except_break
            errors@ == Seq::<ParseError>::empty(),
            field_views(tlv_fields@) + records_from(bytes@, offset as nat) == decode_records(
                bytes@,
            ),
            truncation_from(bytes@, offset as nat) == decode_error(bytes@),
        invariant
            offset <= bytes@.len(),
        ensures
            field_views(tlv_fields@) == decode_records(bytes@),
            errors@ == error_list(decode_error(bytes@)),
        decreases bytes@.len() - offset,
    {
        let extension_type: u16 = bytes[offset] as u16 + 256 * (bytes[offset + 1] as u16);
        let field_type: u8 = bytes[offset + 2];
        let length: u16 = bytes[offset + 3] as u16 + 256 * (bytes[offset + 4] as u16);
        let available: usize = bytes.len() - offset - HEADER_LEN;
        if length as usize > available {
            errors.push(ParseError::TruncatedRecord { offset, needed: length, available });
            proof {
                assert(records_from(bytes@, offset as nat) == Seq::<TLVFieldModel>::empty());
                assert(field_views(tlv_fields@) =~= field_views(tlv_fields@) + Seq::<
                    TLVFieldModel,
                >::empty());
            }
            break;
        }
        let start: usize = offset + HEADER_LEN;
        let end: usize = start + length as usize;
        let value = slice_to_vec(slice_subrange(bytes, start, end));
        let field = TLVField { extension_type, field_type, length, value };
        let ghost before = tlv_fields@;
        tlv_fields.push(field);
        proof {
            assert(field@ == record_at(bytes@, offset as int));
            assert(field_views(tlv_fields@) =~= field_views(before) + seq![field@]);
        }
        offset = end;
    }
    proof {
        if bytes@.len() - offset < HEADER_LEN {
            assert(field_views(tlv_fields@) =~= field_views(tlv_fields@) + Seq::<
                TLVFieldModel,
            >::empty());
        }
    }
    let parsed_successfully = errors.len() == 0;
    ParseTLVFieldsResponse { tlv_fields, errors, parsed_successfully }
}

impl TLVField {
    #[verifier::type_invariant]
    spec fn length_matches(&self) -> bool {
        self.length as int == self.value@.len()
    }

    /// Builds a record, refusing a value longer than 65535 bytes.
    pub fn new(extension_type: u16, field_type: u8, value: Vec<u8>) -> (r: Result<TLVField, TlvError>)
        ensures
            value@.len() <= MAX_VALUE_LEN ==> (r matches Ok(f) && f@ == (TLVFieldModel {
                extension_type,
                field_type,
                value: value@,
            })),
            value@.len() > MAX_VALUE_LEN ==> r == Err::<TLVField, TlvError>(
                TlvError::ValueTooLong { length: value@.len() as usize, limit: MAX_VALUE_LEN },
            ),
    {
        let n = value.len();
        if n > MAX_VALUE_LEN {
            return Err(TlvError::ValueTooLong { length: n, limit: MAX_VALUE_LEN });
        }
        Ok(TLVField { extension_type, field_type, length: n as u16, value })
    }

    pub fn extension_type(&self) -> (r: u16)
        ensures
            r == self@.extension_type,
    {
        self.extension_type
    }

    pub fn field_type(&self) -> (r: u8)
        ensures
            r == self@.field_type,
    {
        self.field_type
    }

    /// The declared length, which always equals the number of value bytes.
    pub fn length(&self) -> (r: u16)
        ensures
            r as int == self@.value.len(),
    {
        proof {
            use_type_invariant(self);
        }
        self.length
    }

    pub fn value(&self) -> (r: &Vec<u8>)
        ensures
            r@ == self@.value,
    {
        &self.value
    }

    /// The canonical wire bytes of this record: a 5-byte little-endian header, then the value.
    pub fn encode(&self) -> (r: Vec<u8>)
        ensures
            r@ == encode_record(self@.extension_type, self@.field_type, self@.value),
    {
        proof {
            use_type_invariant(self);
        }
        let mut out: Vec<u8> = Vec::new();
        out.push((self.extension_type % 256) as u8);
        out.push((self.extension_type / 256) as u8);
        out.push(self.field_type);
        out.push((self.length % 256) as u8);
        out.push((self.length / 256) as u8);
        let ghost header = out@;
        let mut i: usize = 0;
        while i < self.value.len()
            invariant
                i <= self.value@.len(),
                out@ == header + self.value@.subrange(0, i as int),
            decreases self.value@.len() - i,
        {
            out.push(self.value[i]);
            i = i + 1;
            assert(self.value@.subrange(0, i as int) =~= self.value@.subrange(0, i - 1 as int).push(
                self.value@[i - 1],
            ));
        }
        assert(self.value@.subrange(0, i as int) =~= self.value@);
        assert(out@ =~= encode_record(self@.extension_type, self@.field_type, self@.value));
        out
    }
}

} // verus!
