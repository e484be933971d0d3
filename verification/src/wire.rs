//! The byte layouts of the structures that are exchanged with the kernel.
//!
//! Every integer is laid out lowest byte first, and every byte that no
//! field claims is zero.

use crate::chip::{ChipInfo, ChipInfoView};
use crate::codec::{field_text, name_field, offsets_field, read_field, write_field, LineRequest};
use crate::error::Error;
use crate::values::{LineId, Values};
use vstd::prelude::*;

verus! {

/// The size of the structure that a chip describes itself in.
pub const CHIP_INFO_SIZE: usize = 68;

/// The size of the structure that describes one line.
pub const LINE_INFO_SIZE: usize = 256;

/// The size of the structure that asks for lines.
pub const LINE_REQUEST_SIZE: usize = 592;

/// The size of the structure that carries line values.
pub const LINE_VALUES_SIZE: usize = 16;

/// The identifier of the attribute that carries initial output values.
pub const ATTR_ID_OUTPUT_VALUES: u32 = 2;

/// The four bytes from `at` on, read as an integer, lowest byte first.
pub open spec fn le_u32_spec(bytes: Seq<u8>, at: int) -> u32 {
    (bytes[at] + 256 * (bytes[at + 1] + 256 * (bytes[at + 2] + 256 * bytes[at + 3]))) as u32
}

/// The eight bytes from `at` on, read as an integer, lowest byte first.
pub open spec fn le_u64_spec(bytes: Seq<u8>, at: int) -> u64 {
    (le_u32_spec(bytes, at) + 0x1_0000_0000 * le_u32_spec(bytes, at + 4)) as u64
}

/// Reads four bytes as an integer, lowest byte first.
pub fn le_u32(bytes: &[u8], at: usize) -> (value: u32)
    requires
        at + 4 <= bytes@.len(),
    ensures
        value == le_u32_spec(bytes@, at as int),
{
    let b0: u32 = bytes[at] as u32;
    let b1: u32 = bytes[at + 1] as u32;
    let b2: u32 = bytes[at + 2] as u32;
    let b3: u32 = bytes[at + 3] as u32;
    let high: u32 = b2 + 256 * b3;
    let middle: u32 = b1 + 256 * high;
    b0 + 256 * middle
}

/// Reads eight bytes as an integer, lowest byte first.
pub fn le_u64(bytes: &[u8], at: usize) -> (value: u64)
    requires
        at + 8 <= bytes@.len(),
    ensures
        value == le_u64_spec(bytes@, at as int),
{
    proof {
        assert(at + 8 <= bytes.len());
    }
    let low: u64 = le_u32(bytes, at) as u64;
    let high: u64 = le_u32(bytes, at + 4) as u64;
    low + 0x1_0000_0000 * high
}

/// Appends `part` to `out`.
pub fn append(out: &mut Vec<u8>, part: &[u8])
    ensures
        final(out)@ == old(out)@ + part@,
{
    let mut i: usize = 0;
    while i < part.len()
        invariant
            i <= part@.len(),
            out@ == old(out)@ + part@.take(i as int),
        decreases part@.len() - i,
    {
        out.push(part[i]);
        proof {
            assert(part@.take(i + 1) =~= part@.take(i as int).push(part@[i as int]));
            assert(out@ =~= old(out)@ + part@.take(i + 1));
        }
        i += 1;
    }
    proof {
        assert(part@.take(part@.len() as int) =~= part@);
    }
}

/// The four bytes of an integer, lowest first.
pub open spec fn le_bytes32(value: u32) -> Seq<u8> {
    seq![
        (value % 256) as u8,
        (value / 256 % 256) as u8,
        (value / 65536 % 256) as u8,
        (value / 16777216) as u8,
    ]
}

/// The eight bytes of an integer, lowest first.
pub open spec fn le_bytes64(value: u64) -> Seq<u8> {
    le_bytes32((value % 0x1_0000_0000) as u32) + le_bytes32((value / 0x1_0000_0000) as u32)
}

/// `count` zero bytes.
pub open spec fn zeros(count: nat) -> Seq<u8> {
    Seq::new(count, |i: int| 0u8)
}

/// Reading the bytes of an integer gives the integer back.
pub proof fn lemma_le32_round_trip(value: u32)
    ensures
        le_u32_spec(le_bytes32(value), 0) == value,
{
}

/// Reading the bytes of an integer gives the integer back.
pub proof fn lemma_le64_round_trip(value: u64)
    ensures
        le_u64_spec(le_bytes64(value), 0) == value,
{
    let low = (value % 0x1_0000_0000) as u32;
    let high = (value / 0x1_0000_0000) as u32;
    let bytes = le_bytes64(value);
    assert(bytes.subrange(0, 4) =~= le_bytes32(low));
    assert(bytes.subrange(4, 8) =~= le_bytes32(high));
    lemma_le32_round_trip(low);
    lemma_le32_round_trip(high);
    assert(le_u32_spec(bytes, 0) == le_u32_spec(le_bytes32(low), 0));
    assert(le_u32_spec(bytes, 4) == le_u32_spec(le_bytes32(high), 0));
}

/// Appends the four bytes of `value`.
pub fn append_u32(out: &mut Vec<u8>, value: u32)
    ensures
        final(out)@ == old(out)@ + le_bytes32(value),
{
    out.push((value % 256) as u8);
    out.push((value / 256 % 256) as u8);
    out.push((value / 65536 % 256) as u8);
    out.push((value / 16777216) as u8);
    proof {
        assert(out@ =~= old(out)@ + le_bytes32(value));
    }
}

/// Appends the eight bytes of `value`.
pub fn append_u64(out: &mut Vec<u8>, value: u64)
    ensures
        final(out)@ == old(out)@ + le_bytes64(value),
{
    append_u32(out, (value % 0x1_0000_0000) as u32);
    append_u32(out, (value / 0x1_0000_0000) as u32);
    proof {
        assert(out@ =~= old(out)@ + le_bytes64(value));
    }
}

/// Appends `count` zero bytes.
pub fn append_zeros(out: &mut Vec<u8>, count: usize)
    ensures
        final(out)@ == old(out)@ + zeros(count as nat),
{
    let mut i: usize = 0;
    while i < count
        invariant
            i <= count,
            out@ == old(out)@ + zeros(i as nat),
        decreases count - i,
    {
        out.push(0);
        proof {
            assert(out@ =~= old(out)@ + zeros((i + 1) as nat));
        }
        i += 1;
    }
    proof {
        assert(old(out)@ + zeros(0) =~= old(out)@);
    }
}

/// The bytes of an array of integers.
pub open spec fn le32_array(values: Seq<u32>) -> Seq<u8>
    decreases values.len(),
{
    if values.len() == 0 {
        Seq::empty()
    } else {
        le32_array(values.drop_last()) + le_bytes32(values.last())
    }
}

/// An array of `n` integers takes `4 * n` bytes.
pub proof fn lemma_le32_array_len(values: Seq<u32>)
    ensures
        le32_array(values).len() == 4 * values.len(),
    decreases values.len(),
{
    if values.len() > 0 {
        lemma_le32_array_len(values.drop_last());
    }
}

/// The attribute slots of a request: the one that carries the initial
/// output values, where there are any, and zero bytes.
pub open spec fn attrs_bytes(values: Option<Values>) -> Seq<u8> {
    match values {
        Some(values) => le_bytes32(2) + zeros(4) + le_bytes64(values.bits) + le_bytes64(
            values.mask,
        ) + zeros(216),
        None => zeros(240),
    }
}

/// The configuration part of a request: the flags word, the number of
/// attributes, padding, and the attribute slots.
pub open spec fn config_bytes(flags: u64, values: Option<Values>) -> Seq<u8> {
    le_bytes64(flags) + le_bytes32(
        if values is Some {
            1u32
        } else {
            0u32
        },
    ) + zeros(20) + attrs_bytes(values)
}

/// The structure that asks the kernel for lines: the offsets, the consumer
/// label, the configuration, the number of lines, the size of the event
/// buffer (left to the kernel), padding, and room for the descriptor that
/// the kernel answers with.
pub open spec fn request_bytes(request: LineRequest) -> Seq<u8> {
    le32_array(offsets_field(request.offsets@)) + name_field(request.consumer@) + config_bytes(
        request.flags,
        request.output_values,
    ) + le_bytes32(request.num_lines) + le_bytes32(0) + zeros(20) + le_bytes32(0)
}

fn attrs_to_bytes(values: Option<Values>) -> (bytes: Vec<u8>)
    ensures
        bytes@ == attrs_bytes(values),
        bytes@.len() == 240,
{
    let mut bytes: Vec<u8> = Vec::new();
    match values {
        Some(values) => {
            append_u32(&mut bytes, ATTR_ID_OUTPUT_VALUES);
            append_zeros(&mut bytes, 4);
            append_u64(&mut bytes, values.bits);
            append_u64(&mut bytes, values.mask);
            append_zeros(&mut bytes, 216);
            proof {
                assert(bytes@ =~= attrs_bytes(Some(values)));
            }
        },
        None => {
            append_zeros(&mut bytes, 240);
            proof {
                assert(bytes@ =~= attrs_bytes(None));
            }
        },
    }
    bytes
}

fn config_to_bytes(flags: u64, values: Option<Values>) -> (bytes: Vec<u8>)
    ensures
        bytes@ == config_bytes(flags, values),
        bytes@.len() == 272,
{
    let mut bytes: Vec<u8> = Vec::new();
    let attrs = attrs_to_bytes(values);
    append_u64(&mut bytes, flags);
    append_u32(&mut bytes, if values.is_some() { 1 } else { 0 });
    append_zeros(&mut bytes, 20);
    append(&mut bytes, attrs.as_slice());
    proof {
        assert(bytes@ =~= config_bytes(flags, values));
    }
    bytes
}

/// Lays the offsets array of a request out, padded with zeros.
pub fn offsets_to_bytes(offsets: &[LineId]) -> (bytes: Vec<u8>)
    ensures
        bytes@ == le32_array(offsets_field(offsets@)),
        bytes@.len() == 256,
{
    let mut bytes: Vec<u8> = Vec::new();
    let mut i: usize = 0;
    let ghost field = offsets_field(offsets@);
    while i < 64
        invariant
            i <= 64,
            field == offsets_field(offsets@),
            bytes@ == le32_array(field.take(i as int)),
        decreases 64 - i,
    {
        let offset: LineId = if i < offsets.len() { offsets[i] } else { 0 };
        proof {
            assert(field.take(i + 1).drop_last() =~= field.take(i as int));
        }
        append_u32(&mut bytes, offset);
        i += 1;
    }
    proof {
        assert(field.take(64) =~= field);
        lemma_le32_array_len(field);
    }
    bytes
}

impl LineRequest {
    /// Lays the request out as the kernel reads it.
    pub fn to_bytes(&self) -> (bytes: Vec<u8>)
        ensures
            bytes@ == request_bytes(*self),
            bytes@.len() == 592,
    {
        let mut bytes: Vec<u8> = offsets_to_bytes(self.offsets.as_slice());
        let consumer = write_field(self.consumer.as_slice());
        let config = config_to_bytes(self.flags, self.output_values);
        append(&mut bytes, consumer.as_slice());
        append(&mut bytes, config.as_slice());
        append_u32(&mut bytes, self.num_lines);
        append_u32(&mut bytes, 0);
        append_zeros(&mut bytes, 20);
        append_u32(&mut bytes, 0);
        bytes
    }
}

/// The descriptor in the kernel's answer to a request: the last field of
/// the structure, read as a signed integer.
pub open spec fn response_fd_spec(response: Seq<u8>) -> int {
    let raw = le_u32_spec(response, 588);
    if raw <= 0x7fff_ffff {
        raw as int
    } else {
        raw - 0x1_0000_0000
    }
}

/// Takes the descriptor of the granted request out of the kernel's answer.
///
/// Fails with [`Error::UnexpectedSize`] exactly when `response` does not
/// have the size of the request structure.
pub fn response_fd(response: &[u8]) -> (r: Result<i32, Error>)
    ensures
        response@.len() != 592 <==> r is Err,
        r matches Err(e) ==> e == Error::UnexpectedSize,
        r matches Ok(fd) ==> fd == response_fd_spec(response@),
{
    if response.len() != LINE_REQUEST_SIZE {
        return Err(Error::UnexpectedSize);
    }
    let raw: u32 = le_u32(response, 588);
    if raw <= 0x7fff_ffff {
        Ok(raw as i32)
    } else {
        Ok((raw as i64 - 0x1_0000_0000) as i32)
    }
}

/// The structure that carries line values: the value word, then the
/// presence word.
pub open spec fn values_bytes(values: Values) -> Seq<u8> {
    le_bytes64(values.bits) + le_bytes64(values.mask)
}

/// The value words that a structure of the right size carries.
pub open spec fn parse_values_spec(bytes: Seq<u8>) -> Values {
    Values { bits: le_u64_spec(bytes, 0), mask: le_u64_spec(bytes, 8) }
}

/// Reading the structure that value words were laid out in gives the
/// words back.
pub proof fn lemma_values_round_trip(values: Values)
    ensures
        values_bytes(values).len() == 16,
        parse_values_spec(values_bytes(values)) == values,
{
    let bytes = values_bytes(values);
    lemma_le64_round_trip(values.bits);
    lemma_le64_round_trip(values.mask);
    assert(forall|k: int| 0 <= k < 8 ==> bytes[k] == le_bytes64(values.bits)[k]);
    assert(forall|k: int| 0 <= k < 8 ==> bytes[8 + k] == le_bytes64(values.mask)[k]);
}

impl Values {
    /// Lays the value words out as the kernel reads them.
    pub fn to_bytes(&self) -> (bytes: Vec<u8>)
        ensures
            bytes@ == values_bytes(*self),
            bytes@.len() == 16,
    {
        let mut bytes: Vec<u8> = Vec::new();
        append_u64(&mut bytes, self.bits);
        append_u64(&mut bytes, self.mask);
        proof {
            assert(bytes@ =~= values_bytes(*self));
        }
        bytes
    }

    /// Reads the value words that the kernel wrote.
    ///
    /// Fails with [`Error::UnexpectedSize`] exactly when `bytes` does not
    /// have the size of the structure.
    pub fn from_bytes(bytes: &[u8]) -> (r: Result<Values, Error>)
        ensures
            bytes@.len() != 16 <==> r is Err,
            r matches Err(e) ==> e == Error::UnexpectedSize,
            r matches Ok(values) ==> values == parse_values_spec(bytes@),
    {
        if bytes.len() != LINE_VALUES_SIZE {
            return Err(Error::UnexpectedSize);
        }
        Ok(Values { bits: le_u64(bytes, 0), mask: le_u64(bytes, 8) })
    }
}

impl ChipInfo {
    /// Reads the structure in which a chip describes itself: the name
    /// field, the label field, and the number of lines.
    ///
    /// Fails with [`Error::UnexpectedSize`] exactly when `bytes` does not
    /// have the size of the structure.
    pub fn from_bytes(bytes: &[u8]) -> (r: Result<ChipInfo, Error>)
        ensures
            bytes@.len() != 68 <==> r is Err,
            r matches Err(e) ==> e == Error::UnexpectedSize,
            r matches Ok(info) ==> info@ == (ChipInfoView {
                name: field_text(bytes@.subrange(0, 32)),
                label: field_text(bytes@.subrange(32, 64)),
                num_lines: le_u32_spec(bytes@, 64),
            }),
    {
        if bytes.len() != CHIP_INFO_SIZE {
            return Err(Error::UnexpectedSize);
        }
        Ok(
            ChipInfo::decode(
                vstd::slice::slice_subrange(bytes, 0, 32),
                vstd::slice::slice_subrange(bytes, 32, 64),
                le_u32(bytes, 64),
            ),
        )
    }
}

/// The fields of the structure that describes one line.
pub struct RawLineInfo {
    /// The name of the line.
    pub name: Vec<u8>,
    /// The label of the consumer that holds the line.
    pub consumer: Vec<u8>,
    /// The offset of the line on its chip.
    pub offset: LineId,
    /// The flags word.
    pub flags: u64,
}

/// The structure that asks for the description of the line `offset`: the
/// offset in its field, and zero bytes.
pub open spec fn line_info_query_spec(offset: LineId) -> Seq<u8> {
    zeros(64) + le_bytes32(offset) + zeros(188)
}

impl RawLineInfo {
    /// Lays out the structure that asks for the description of a line.
    pub fn query(offset: LineId) -> (bytes: Vec<u8>)
        ensures
            bytes@ == line_info_query_spec(offset),
            bytes@.len() == 256,
    {
        let mut bytes: Vec<u8> = Vec::new();
        append_zeros(&mut bytes, 64);
        append_u32(&mut bytes, offset);
        append_zeros(&mut bytes, 188);
        proof {
            assert(bytes@ =~= line_info_query_spec(offset));
        }
        bytes
    }

    /// Reads the structure in which the kernel describes a line.
    ///
    /// Fails with [`Error::UnexpectedSize`] exactly when `bytes` does not
    /// have the size of the structure.
    pub fn from_bytes(bytes: &[u8]) -> (r: Result<RawLineInfo, Error>)
        ensures
            bytes@.len() != 256 <==> r is Err,
            r matches Err(e) ==> e == Error::UnexpectedSize,
            r matches Ok(info) ==> info.name@ == field_text(bytes@.subrange(0, 32))
                && info.consumer@ == field_text(bytes@.subrange(32, 64)) && info.offset
                == le_u32_spec(bytes@, 64) && info.flags == le_u64_spec(bytes@, 72),
    {
        if bytes.len() != LINE_INFO_SIZE {
            return Err(Error::UnexpectedSize);
        }
        Ok(
            RawLineInfo {
                name: read_field(vstd::slice::slice_subrange(bytes, 0, 32)),
                consumer: read_field(vstd::slice::slice_subrange(bytes, 32, 64)),
                offset: le_u32(bytes, 64),
                flags: le_u64(bytes, 72),
            },
        )
    }
}

} // verus!
