//! The older form of the protocol, for kernels that lack the current one:
//! a handle request with a narrow flags word, one byte per line value, and
//! a short event record.

use crate::codec::{
    check_lines, field_text, name_field, offsets_field, pad_offsets, read_field,
    some_line_outside, write_field, LineFlags,
};
use crate::error::Error;
use crate::event::{edge_spec, Event};
use crate::options::{
    Active, Bias, Direction, DirectionType, Drive, Edge, EdgeDetect, Options, OptionsView,
};
use crate::values::{BitId, LineId, Values, MAX_VALUES};
use crate::wire::{
    append, append_u32, append_zeros, le32_array, le_bytes32, le_u32, le_u32_spec, le_u64,
    le_u64_spec, offsets_to_bytes, zeros,
};
use vstd::prelude::*;

verus! {

/// The lines are requested as inputs.
pub const HANDLE_INPUT: u32 = 0x01;

/// The lines are requested as outputs.
pub const HANDLE_OUTPUT: u32 = 0x02;

/// The active level of the lines is low.
pub const HANDLE_ACTIVE_LOW: u32 = 0x04;

/// The outputs are open drain.
pub const HANDLE_OPEN_DRAIN: u32 = 0x08;

/// The outputs are open source.
pub const HANDLE_OPEN_SOURCE: u32 = 0x10;

/// The lines are pulled up.
pub const HANDLE_BIAS_PULL_UP: u32 = 0x20;

/// The lines are pulled down.
pub const HANDLE_BIAS_PULL_DOWN: u32 = 0x40;

/// The bias of the lines is switched off.
pub const HANDLE_BIAS_DISABLE: u32 = 0x80;

/// The line is held by the kernel or by a request.
pub const LINE_KERNEL: u32 = 0x01;

/// The line is an output.
pub const LINE_IS_OUT: u32 = 0x02;

/// The active level of the line is low.
pub const LINE_ACTIVE_LOW: u32 = 0x04;

/// The output is open drain.
pub const LINE_OPEN_DRAIN: u32 = 0x08;

/// The output is open source.
pub const LINE_OPEN_SOURCE: u32 = 0x10;

/// The line is pulled up.
pub const LINE_BIAS_PULL_UP: u32 = 0x20;

/// The line is pulled down.
pub const LINE_BIAS_PULL_DOWN: u32 = 0x40;

/// The size of the structure that asks for a handle.
pub const HANDLE_REQUEST_SIZE: usize = 364;

/// The size of the structure that carries line values.
pub const HANDLE_DATA_SIZE: usize = 64;

/// The size of the structure that describes one line.
pub const LINE_INFO_SIZE: usize = 72;

/// The size of one event record.
pub const EVENT_DATA_SIZE: usize = 16;

/// The flags word of a handle request. It has no flag for edges, and no
/// drive flag for an input.
pub open spec fn handle_flags_spec(
    direction: Direction,
    active: Active,
    bias: Option<Bias>,
    drive: Option<Drive>,
) -> u32 {
    (match direction {
        Direction::Input => HANDLE_INPUT,
        Direction::Output => HANDLE_OUTPUT,
    }) | (match active {
        Active::Low => HANDLE_ACTIVE_LOW,
        Active::High => 0,
    }) | (match bias {
        Some(Bias::PullUp) => HANDLE_BIAS_PULL_UP,
        Some(Bias::PullDown) => HANDLE_BIAS_PULL_DOWN,
        Some(Bias::Disable) => HANDLE_BIAS_DISABLE,
        None => 0,
    }) | (match (direction, drive) {
        (Direction::Output, Some(Drive::OpenDrain)) => HANDLE_OPEN_DRAIN,
        (Direction::Output, Some(Drive::OpenSource)) => HANDLE_OPEN_SOURCE,
        _ => 0,
    })
}

/// Assembles the flags word of a handle request.
pub fn handle_flags(
    direction: Direction,
    active: Active,
    bias: Option<Bias>,
    drive: Option<Drive>,
) -> (flags: u32)
    ensures
        flags == handle_flags_spec(direction, active, bias, drive),
{
    let direction_part: u32 = match direction {
        Direction::Input => HANDLE_INPUT,
        Direction::Output => HANDLE_OUTPUT,
    };
    let active_part: u32 = match active {
        Active::Low => HANDLE_ACTIVE_LOW,
        Active::High => 0,
    };
    let bias_part: u32 = match bias {
        Some(Bias::PullUp) => HANDLE_BIAS_PULL_UP,
        Some(Bias::PullDown) => HANDLE_BIAS_PULL_DOWN,
        Some(Bias::Disable) => HANDLE_BIAS_DISABLE,
        None => 0,
    };
    let drive_part: u32 = match (direction, drive) {
        (Direction::Output, Some(Drive::OpenDrain)) => HANDLE_OPEN_DRAIN,
        (Direction::Output, Some(Drive::OpenSource)) => HANDLE_OPEN_SOURCE,
        _ => 0,
    };
    direction_part | active_part | bias_part | drive_part
}

/// Whether every bit of `flag` is set in `flags`.
pub open spec fn is_set(flags: u32, flag: u32) -> bool {
    flags & flag == flag
}

/// The reading of the flags word of a line. The word says nothing of
/// edges.
pub open spec fn line_flags_spec(flags: u32) -> LineFlags {
    LineFlags {
        direction: if is_set(flags, LINE_IS_OUT) {
            Direction::Output
        } else {
            Direction::Input
        },
        active: if is_set(flags, LINE_ACTIVE_LOW) {
            Active::Low
        } else {
            Active::High
        },
        edge: EdgeDetect::Disable,
        used: is_set(flags, LINE_KERNEL),
        bias: if is_set(flags, LINE_BIAS_PULL_UP) && !is_set(flags, LINE_BIAS_PULL_DOWN) {
            Bias::PullUp
        } else if is_set(flags, LINE_BIAS_PULL_DOWN) && !is_set(flags, LINE_BIAS_PULL_UP) {
            Bias::PullDown
        } else {
            Bias::Disable
        },
        drive: if is_set(flags, LINE_OPEN_DRAIN) && !is_set(flags, LINE_OPEN_SOURCE) {
            Drive::OpenDrain
        } else if is_set(flags, LINE_OPEN_SOURCE) && !is_set(flags, LINE_OPEN_DRAIN) {
            Drive::OpenSource
        } else {
            Drive::PushPull
        },
    }
}

fn has_flag(flags: u32, flag: u32) -> (set: bool)
    ensures
        set == is_set(flags, flag),
{
    flags & flag == flag
}

/// Reads the flags word that the kernel reports for a line.
pub fn line_flags(flags: u32) -> (info: LineFlags)
    ensures
        info == line_flags_spec(flags),
{
    let pull_up = has_flag(flags, LINE_BIAS_PULL_UP);
    let pull_down = has_flag(flags, LINE_BIAS_PULL_DOWN);
    let open_drain = has_flag(flags, LINE_OPEN_DRAIN);
    let open_source = has_flag(flags, LINE_OPEN_SOURCE);
    LineFlags {
        direction: if has_flag(flags, LINE_IS_OUT) {
            Direction::Output
        } else {
            Direction::Input
        },
        active: if has_flag(flags, LINE_ACTIVE_LOW) {
            Active::Low
        } else {
            Active::High
        },
        edge: EdgeDetect::Disable,
        used: has_flag(flags, LINE_KERNEL),
        bias: match (pull_up, pull_down) {
            (true, false) => Bias::PullUp,
            (false, true) => Bias::PullDown,
            _ => Bias::Disable,
        },
        drive: match (open_drain, open_source) {
            (true, false) => Drive::OpenDrain,
            (false, true) => Drive::OpenSource,
            _ => Drive::PushPull,
        },
    }
}

/// The fields of the structure that asks the kernel for a handle. The
/// default values of the structure are left at zero.
pub struct HandleRequest {
    /// The line offsets, padded with zeros.
    pub offsets: Vec<LineId>,
    /// The flags word.
    pub flags: u32,
    /// The consumer label, NUL-padded.
    pub consumer: Vec<u8>,
    /// The number of offsets that count.
    pub num_lines: u32,
}

/// Whether `request` is the handle request that `options` describes in
/// the given direction.
pub open spec fn handle_encodes(
    request: HandleRequest,
    options: OptionsView,
    direction: Direction,
) -> bool {
    &&& request.offsets@ == offsets_field(options.lines)
    &&& request.consumer@ == name_field(options.consumer)
    &&& request.flags == handle_flags_spec(
        direction,
        options.active,
        options.bias,
        options.drive,
    )
    &&& request.num_lines == options.lines.len()
}

/// Builds the handle request for the lines of `options` on a chip that has
/// `chip_lines` lines. Edge detection and initial values have no place in
/// it.
///
/// Fails with [`Error::LineOutOfRange`] when a line is not on the chip,
/// else with [`Error::DuplicateLine`] when a line is named twice.
pub fn encode_handle_request<D: DirectionType>(options: &Options<D>, chip_lines: LineId) -> (r:
    Result<HandleRequest, Error>)
    ensures
        r is Err <==> some_line_outside(options@.lines, chip_lines)
            || !options@.lines.no_duplicates(),
        r matches Err(e) ==> e == (if some_line_outside(options@.lines, chip_lines) {
            Error::LineOutOfRange
        } else {
            Error::DuplicateLine
        }),
        r matches Ok(request) ==> handle_encodes(request, options@, D::direction_spec()),
{
    let lines = options.lines();
    match check_lines(lines, chip_lines) {
        Ok(()) => {},
        Err(e) => {
            return Err(e);
        },
    }
    Ok(
        HandleRequest {
            offsets: pad_offsets(lines),
            flags: handle_flags(
                D::direction(),
                options.get_active(),
                options.get_bias(),
                options.get_drive(),
            ),
            consumer: write_field(options.get_consumer()),
            num_lines: lines.len() as u32,
        },
    )
}

/// The structure that asks the kernel for a handle: the offsets, the
/// flags word, the default values (zero), the consumer label, the number
/// of lines, and room for the descriptor that the kernel answers with.
pub open spec fn handle_request_bytes(request: HandleRequest) -> Seq<u8> {
    le32_array(offsets_field(request.offsets@)) + le_bytes32(request.flags) + zeros(64)
        + name_field(request.consumer@) + le_bytes32(request.num_lines) + le_bytes32(0)
}

impl HandleRequest {
    /// Lays the request out as the kernel reads it.
    pub fn to_bytes(&self) -> (bytes: Vec<u8>)
        ensures
            bytes@ == handle_request_bytes(*self),
            bytes@.len() == 364,
    {
        let mut bytes: Vec<u8> = offsets_to_bytes(self.offsets.as_slice());
        let consumer = write_field(self.consumer.as_slice());
        append_u32(&mut bytes, self.flags);
        append_zeros(&mut bytes, 64);
        append(&mut bytes, consumer.as_slice());
        append_u32(&mut bytes, self.num_lines);
        append_u32(&mut bytes, 0);
        bytes
    }
}

/// The structure that carries line values: one byte for each position,
/// 1 for a line that is active, and zeros up to the full width.
pub open spec fn data_bytes(values: Seq<bool>) -> Seq<u8> {
    Seq::new(64, |i: int| if i < values.len() && values[i] { 1u8 } else { 0u8 })
}

/// The values of the first `length` positions of a values structure: a
/// line is active where its byte is not zero.
pub open spec fn data_values(data: Seq<u8>, length: nat) -> Seq<bool> {
    Seq::new(length, |i: int| data[i] != 0)
}

/// Reading the structure that values were laid out in gives the values
/// back.
pub proof fn lemma_data_round_trip(values: Seq<bool>)
    requires
        values.len() <= 64,
    ensures
        data_values(data_bytes(values), values.len()) == values,
{
    assert(data_values(data_bytes(values), values.len()) =~= values);
}

/// Lays values out one byte for each position.
///
/// Fails with [`Error::TooManyValues`] exactly when there are more values
/// than the structure has positions.
pub fn values_to_data(values: &[bool]) -> (r: Result<Vec<u8>, Error>)
    ensures
        values@.len() > 64 <==> r is Err,
        r matches Err(e) ==> e == Error::TooManyValues,
        r matches Ok(data) ==> data@ == data_bytes(values@),
{
    if values.len() > MAX_VALUES {
        return Err(Error::TooManyValues);
    }
    let mut data: Vec<u8> = Vec::new();
    let mut i: usize = 0;
    while i < 64
        invariant
            i <= 64,
            data@.len() == i,
            forall|k: int| 0 <= k < i ==> data@[k] == data_bytes(values@)[k],
        decreases 64 - i,
    {
        let byte: u8 = if i < values.len() && values[i] { 1 } else { 0 };
        data.push(byte);
        i += 1;
    }
    proof {
        assert(data@ =~= data_bytes(values@));
    }
    Ok(data)
}

/// Reads the values of the first `length` positions of a values
/// structure.
///
/// Fails with [`Error::UnexpectedSize`] when `data` does not have the size
/// of the structure, else with [`Error::TooManyValues`] when `length` is
/// more than the structure has positions.
pub fn data_to_values(data: &[u8], length: usize) -> (r: Result<Vec<bool>, Error>)
    ensures
        r is Err <==> data@.len() != 64 || length > 64,
        r matches Err(e) ==> e == (if data@.len() != 64 {
            Error::UnexpectedSize
        } else {
            Error::TooManyValues
        }),
        r matches Ok(values) ==> values@ == data_values(data@, length as nat),
{
    if data.len() != HANDLE_DATA_SIZE {
        return Err(Error::UnexpectedSize);
    }
    if length > MAX_VALUES {
        return Err(Error::TooManyValues);
    }
    let mut values: Vec<bool> = Vec::new();
    let mut i: usize = 0;
    while i < length
        invariant
            i <= length <= 64,
            data@.len() == 64,
            values@ == data_values(data@, i as nat),
        decreases length - i,
    {
        values.push(data[i] != 0);
        proof {
            assert(values@ =~= data_values(data@, (i + 1) as nat));
        }
        i += 1;
    }
    Ok(values)
}

/// The values structure that writes a masked set over `length` lines: a
/// position that holds no value is written as inactive.
pub open spec fn masked_data_bytes(values: Values, length: nat) -> Seq<u8> {
    Seq::new(
        64,
        |i: int| if i < length && values.get_spec(i) == Some(true) {
            1u8
        } else {
            0u8
        },
    )
}

/// Lays a masked set out one byte for each of `length` positions. The
/// structure has no way to leave a line out: a position without a value
/// is written as inactive.
///
/// Fails with [`Error::TooManyValues`] exactly when `length` is more than
/// the structure has positions.
pub fn masked_to_data(values: &Values, length: usize) -> (r: Result<Vec<u8>, Error>)
    ensures
        length > 64 <==> r is Err,
        r matches Err(e) ==> e == Error::TooManyValues,
        r matches Ok(data) ==> data@ == masked_data_bytes(*values, length as nat),
{
    if length > MAX_VALUES {
        return Err(Error::TooManyValues);
    }
    let mut data: Vec<u8> = Vec::new();
    let mut i: usize = 0;
    while i < 64
        invariant
            i <= 64,
            data@.len() == i,
            forall|k: int| 0 <= k < i ==> data@[k] == masked_data_bytes(*values, length as nat)[k],
        decreases 64 - i,
    {
        let active: bool = i < length && match values.get(i as BitId) {
            Some(value) => value,
            None => false,
        };
        data.push(if active { 1 } else { 0 });
        i += 1;
    }
    proof {
        assert(data@ =~= masked_data_bytes(*values, length as nat));
    }
    Ok(data)
}

/// The fields of the structure that describes one line.
pub struct RawLineInfo {
    /// The offset of the line on its chip.
    pub offset: LineId,
    /// The flags word.
    pub flags: u32,
    /// The name of the line.
    pub name: Vec<u8>,
    /// The label of the consumer that holds the line.
    pub consumer: Vec<u8>,
}

/// The structure that asks for the description of the line `offset`: the
/// offset, and zero bytes.
pub open spec fn line_info_query_spec(offset: LineId) -> Seq<u8> {
    le_bytes32(offset) + zeros(68)
}

impl RawLineInfo {
    /// Lays out the structure that asks for the description of a line.
    pub fn query(offset: LineId) -> (bytes: Vec<u8>)
        ensures
            bytes@ == line_info_query_spec(offset),
            bytes@.len() == 72,
    {
        let mut bytes: Vec<u8> = Vec::new();
        append_u32(&mut bytes, offset);
        append_zeros(&mut bytes, 68);
        proof {
            assert(bytes@ =~= line_info_query_spec(offset));
        }
        bytes
    }

    /// Reads the structure in which the kernel describes a line.
    ///
    /// Fails with [`Error::UnexpectedSize`] exactly when `bytes` does not
    /// have the size of the structure.
    pub fn from_bytes(bytes: &[u8]) -> (r: Result<RawLineInfo, Error>)
        ensures
            bytes@.len() != 72 <==> r is Err,
            r matches Err(e) ==> e == Error::UnexpectedSize,
            r matches Ok(info) ==> info.offset == le_u32_spec(bytes@, 0) && info.flags
                == le_u32_spec(bytes@, 4) && info.name@ == field_text(bytes@.subrange(8, 40))
                && info.consumer@ == field_text(bytes@.subrange(40, 72)),
    {
        if bytes.len() != LINE_INFO_SIZE {
            return Err(Error::UnexpectedSize);
        }
        Ok(
            RawLineInfo {
                offset: le_u32(bytes, 0),
                flags: le_u32(bytes, 4),
                name: read_field(vstd::slice::slice_subrange(bytes, 8, 40)),
                consumer: read_field(vstd::slice::slice_subrange(bytes, 40, 72)),
            },
        )
    }
}

/// The event that a short event record stands for, on the line at
/// position `line` of its request.
pub open spec fn event_spec(record: Seq<u8>, line: BitId) -> Result<Event, Error> {
    match edge_spec(le_u32_spec(record, 8)) {
        None => Err(Error::UnknownEdge),
        Some(edge) => Ok(Event { line, edge, time_ns: le_u64_spec(record, 0) }),
    }
}

/// Reads one event from the bytes of one read. The record does not name
/// its line: the caller says at which position of the request it is.
///
/// Fails with [`Error::UnexpectedSize`] when `record` does not have the
/// size of one record, else with [`Error::UnknownEdge`] when the edge is
/// neither rising nor falling.
pub fn read_event(record: &[u8], line: BitId) -> (r: Result<Event, Error>)
    ensures
        record@.len() != 16 ==> r == Err::<Event, Error>(Error::UnexpectedSize),
        record@.len() == 16 ==> r == event_spec(record@, line),
{
    if record.len() != EVENT_DATA_SIZE {
        return Err(Error::UnexpectedSize);
    }
    let id: u32 = le_u32(record, 8);
    let edge: Edge = if id == 1 {
        Edge::Rising
    } else if id == 2 {
        Edge::Falling
    } else {
        return Err(Error::UnknownEdge);
    };
    Ok(Event { line, edge, time_ns: le_u64(record, 0) })
}

} // verus!
