//! The encoding of a line request and the decoding of what the kernel
//! reports about lines and edges.

use crate::error::Error;
use crate::options::{
    Active, Bias, Direction, DirectionType, Drive, EdgeDetect, Options, OptionsView,
};
use crate::values::{BitId, LineId, Values};
use vstd::prelude::*;

verus! {

/// The line is held by some request.
pub const LINE_FLAG_USED: u64 = 0x001;

/// The active level of the line is low.
pub const LINE_FLAG_ACTIVE_LOW: u64 = 0x002;

/// The line is an input.
pub const LINE_FLAG_INPUT: u64 = 0x004;

/// The line is an output.
pub const LINE_FLAG_OUTPUT: u64 = 0x008;

/// Rising edges are reported.
pub const LINE_FLAG_EDGE_RISING: u64 = 0x010;

/// Falling edges are reported.
pub const LINE_FLAG_EDGE_FALLING: u64 = 0x020;

/// The output is open drain.
pub const LINE_FLAG_OPEN_DRAIN: u64 = 0x040;

/// The output is open source.
pub const LINE_FLAG_OPEN_SOURCE: u64 = 0x080;

/// The input is pulled up.
pub const LINE_FLAG_BIAS_PULL_UP: u64 = 0x100;

/// The input is pulled down.
pub const LINE_FLAG_BIAS_PULL_DOWN: u64 = 0x200;

/// The bias of the input is switched off.
pub const LINE_FLAG_BIAS_DISABLED: u64 = 0x400;

/// The edge identifier of a rising edge in an event record.
pub const EVENT_RISING_EDGE: u32 = 1;

/// The edge identifier of a falling edge in an event record.
pub const EVENT_FALLING_EDGE: u32 = 2;

/// The number of offsets a request structure has room for.
pub const LINES_MAX: usize = 64;

/// The width of a name field in a kernel structure.
pub const NAME_SIZE: usize = 32;

/// The size of one event record.
pub const EVENT_SIZE: usize = 48;

/// The flag that states the direction.
pub open spec fn direction_flag(direction: Direction) -> u64 {
    match direction {
        Direction::Input => LINE_FLAG_INPUT,
        Direction::Output => LINE_FLAG_OUTPUT,
    }
}

/// The flag that states the active level.
pub open spec fn active_flag(active: Active) -> u64 {
    match active {
        Active::Low => LINE_FLAG_ACTIVE_LOW,
        Active::High => 0,
    }
}

/// The flags that state the edge detection; there are none for an output.
pub open spec fn edge_flags(direction: Direction, edge: Option<EdgeDetect>) -> u64 {
    match (direction, edge) {
        (Direction::Input, Some(EdgeDetect::Rising)) => LINE_FLAG_EDGE_RISING,
        (Direction::Input, Some(EdgeDetect::Falling)) => LINE_FLAG_EDGE_FALLING,
        (Direction::Input, Some(EdgeDetect::Both)) => LINE_FLAG_EDGE_RISING
            | LINE_FLAG_EDGE_FALLING,
        _ => 0,
    }
}

/// The flag that states the bias, where one was chosen.
pub open spec fn bias_flag(bias: Option<Bias>) -> u64 {
    match bias {
        Some(Bias::PullUp) => LINE_FLAG_BIAS_PULL_UP,
        Some(Bias::PullDown) => LINE_FLAG_BIAS_PULL_DOWN,
        Some(Bias::Disable) => LINE_FLAG_BIAS_DISABLED,
        None => 0,
    }
}

/// The flag that states the drive mode; there is none for an input.
pub open spec fn drive_flag(direction: Direction, drive: Option<Drive>) -> u64 {
    match (direction, drive) {
        (Direction::Output, Some(Drive::OpenDrain)) => LINE_FLAG_OPEN_DRAIN,
        (Direction::Output, Some(Drive::OpenSource)) => LINE_FLAG_OPEN_SOURCE,
        _ => 0,
    }
}

/// The flags word of a request.
pub open spec fn request_flags_spec(
    direction: Direction,
    active: Active,
    edge: Option<EdgeDetect>,
    bias: Option<Bias>,
    drive: Option<Drive>,
) -> u64 {
    direction_flag(direction) | active_flag(active) | edge_flags(direction, edge) | bias_flag(bias)
        | drive_flag(direction, drive)
}

/// Assembles the flags word of a request.
pub fn request_flags(
    direction: Direction,
    active: Active,
    edge: Option<EdgeDetect>,
    bias: Option<Bias>,
    drive: Option<Drive>,
) -> (flags: u64)
    ensures
        flags == request_flags_spec(direction, active, edge, bias, drive),
{
    let direction_part: u64 = match direction {
        Direction::Input => LINE_FLAG_INPUT,
        Direction::Output => LINE_FLAG_OUTPUT,
    };
    let active_part: u64 = match active {
        Active::Low => LINE_FLAG_ACTIVE_LOW,
        Active::High => 0,
    };
    let edge_part: u64 = match (direction, edge) {
        (Direction::Input, Some(EdgeDetect::Rising)) => LINE_FLAG_EDGE_RISING,
        (Direction::Input, Some(EdgeDetect::Falling)) => LINE_FLAG_EDGE_FALLING,
        (Direction::Input, Some(EdgeDetect::Both)) => LINE_FLAG_EDGE_RISING
            | LINE_FLAG_EDGE_FALLING,
        _ => 0,
    };
    let bias_part: u64 = match bias {
        Some(Bias::PullUp) => LINE_FLAG_BIAS_PULL_UP,
        Some(Bias::PullDown) => LINE_FLAG_BIAS_PULL_DOWN,
        Some(Bias::Disable) => LINE_FLAG_BIAS_DISABLED,
        None => 0,
    };
    let drive_part: u64 = match (direction, drive) {
        (Direction::Output, Some(Drive::OpenDrain)) => LINE_FLAG_OPEN_DRAIN,
        (Direction::Output, Some(Drive::OpenSource)) => LINE_FLAG_OPEN_SOURCE,
        _ => 0,
    };
    direction_part | active_part | edge_part | bias_part | drive_part
}

/// Whether every bit of `flag` is set in `flags`.
pub open spec fn is_set(flags: u64, flag: u64) -> bool {
    flags & flag == flag
}

/// What the flags word of a line says about it.
#[derive(Clone, Copy, Debug, PartialEq, Eq, Structural)]
pub struct LineFlags {
    pub direction: Direction,
    pub active: Active,
    pub edge: EdgeDetect,
    pub used: bool,
    pub bias: Bias,
    pub drive: Drive,
}

/// The reading of a flags word.
pub open spec fn line_flags_spec(flags: u64) -> LineFlags {
    LineFlags {
        direction: if is_set(flags, LINE_FLAG_OUTPUT) {
            Direction::Output
        } else {
            Direction::Input
        },
        active: if is_set(flags, LINE_FLAG_ACTIVE_LOW) {
            Active::Low
        } else {
            Active::High
        },
        edge: if is_set(flags, LINE_FLAG_EDGE_RISING) {
            if is_set(flags, LINE_FLAG_EDGE_FALLING) {
                EdgeDetect::Both
            } else {
                EdgeDetect::Rising
            }
        } else if is_set(flags, LINE_FLAG_EDGE_FALLING) {
            EdgeDetect::Falling
        } else {
            EdgeDetect::Disable
        },
        used: is_set(flags, LINE_FLAG_USED),
        bias: if is_set(flags, LINE_FLAG_BIAS_PULL_UP) && !is_set(flags, LINE_FLAG_BIAS_PULL_DOWN) {
            Bias::PullUp
        } else if is_set(flags, LINE_FLAG_BIAS_PULL_DOWN) && !is_set(
            flags,
            LINE_FLAG_BIAS_PULL_UP,
        ) {
            Bias::PullDown
        } else {
            Bias::Disable
        },
        drive: if is_set(flags, LINE_FLAG_OPEN_DRAIN) && !is_set(flags, LINE_FLAG_OPEN_SOURCE) {
            Drive::OpenDrain
        } else if is_set(flags, LINE_FLAG_OPEN_SOURCE) && !is_set(flags, LINE_FLAG_OPEN_DRAIN) {
            Drive::OpenSource
        } else {
            Drive::PushPull
        },
    }
}

/// The settings that the flags of a request read back as: what was
/// chosen, as far as the direction has it, and the resting state of
/// everything else.
pub open spec fn chosen_flags(
    direction: Direction,
    active: Active,
    edge: Option<EdgeDetect>,
    bias: Option<Bias>,
    drive: Option<Drive>,
) -> LineFlags {
    LineFlags {
        direction,
        active,
        edge: match (direction, edge) {
            (Direction::Input, Some(edge)) => edge,
            _ => EdgeDetect::Disable,
        },
        used: false,
        bias: match bias {
            Some(bias) => bias,
            None => Bias::Disable,
        },
        drive: match (direction, drive) {
            (Direction::Output, Some(drive)) => drive,
            _ => Drive::PushPull,
        },
    }
}

proof fn lemma_flag_parts(d: u64, a: u64, e: u64, b: u64, r: u64)
    by (bit_vector)
    requires
        d == 4 || d == 8,
        a == 0 || a == 2,
        e == 0 || e == 0x10 || e == 0x20 || e == 0x30,
        b == 0 || b == 0x100 || b == 0x200 || b == 0x400,
        r == 0 || r == 0x40 || r == 0x80,
    ensures
        ((d | a | e | b | r) & 0x008 == 0x008) == (d == 8),
        ((d | a | e | b | r) & 0x002 == 0x002) == (a == 2),
        ((d | a | e | b | r) & 0x010 == 0x010) == (e == 0x10 || e == 0x30),
        ((d | a | e | b | r) & 0x020 == 0x020) == (e == 0x20 || e == 0x30),
        ((d | a | e | b | r) & 0x001 == 0x001) == false,
        ((d | a | e | b | r) & 0x100 == 0x100) == (b == 0x100),
        ((d | a | e | b | r) & 0x200 == 0x200) == (b == 0x200),
        ((d | a | e | b | r) & 0x040 == 0x040) == (r == 0x40),
        ((d | a | e | b | r) & 0x080 == 0x080) == (r == 0x80),
{
}

/// The flags word of a request reads back as the settings it was built
/// from.
pub proof fn lemma_flags_round_trip(
    direction: Direction,
    active: Active,
    edge: Option<EdgeDetect>,
    bias: Option<Bias>,
    drive: Option<Drive>,
)
    ensures
        line_flags_spec(request_flags_spec(direction, active, edge, bias, drive)) == chosen_flags(
            direction,
            active,
            edge,
            bias,
            drive,
        ),
{
    assert(0x010u64 | 0x020u64 == 0x030u64) by (bit_vector);
    lemma_flag_parts(
        direction_flag(direction),
        active_flag(active),
        edge_flags(direction, edge),
        bias_flag(bias),
        drive_flag(direction, drive),
    );
}

fn has_flag(flags: u64, flag: u64) -> (set: bool)
    ensures
        set == is_set(flags, flag),
{
    flags & flag == flag
}

/// Reads the flags word that the kernel reports for a line.
pub fn line_flags(flags: u64) -> (info: LineFlags)
    ensures
        info == line_flags_spec(flags),
{
    let rising = has_flag(flags, LINE_FLAG_EDGE_RISING);
    let falling = has_flag(flags, LINE_FLAG_EDGE_FALLING);
    let pull_up = has_flag(flags, LINE_FLAG_BIAS_PULL_UP);
    let pull_down = has_flag(flags, LINE_FLAG_BIAS_PULL_DOWN);
    let open_drain = has_flag(flags, LINE_FLAG_OPEN_DRAIN);
    let open_source = has_flag(flags, LINE_FLAG_OPEN_SOURCE);
    LineFlags {
        direction: if has_flag(flags, LINE_FLAG_OUTPUT) {
            Direction::Output
        } else {
            Direction::Input
        },
        active: if has_flag(flags, LINE_FLAG_ACTIVE_LOW) {
            Active::Low
        } else {
            Active::High
        },
        edge: match (rising, falling) {
            (true, false) => EdgeDetect::Rising,
            (false, true) => EdgeDetect::Falling,
            (true, true) => EdgeDetect::Both,
            _ => EdgeDetect::Disable,
        },
        used: has_flag(flags, LINE_FLAG_USED),
        bias: match (pull_up, pull_down) {
            (true, false) => Bias::PullUp,
            (false, true) => Bias::PullDown,
            _ => Bias::Disable,
        },
        drive: match (open_drain, open_source) {
            (true, false) => Drive::OpenDrain,
            (false, true) => Drive::OpenSource,
            _ => Drive::PushPull,
        },
    }
}

/// The length of `field` without the NUL bytes at its end.
pub open spec fn text_len(field: Seq<u8>) -> nat
    decreases field.len(),
{
    if field.len() == 0 || field.last() != 0 {
        field.len()
    } else {
        text_len(field.drop_last())
    }
}

/// The text of a fixed-width field: the field without the NUL bytes at its
/// end.
pub open spec fn field_text(field: Seq<u8>) -> Seq<u8> {
    field.take(text_len(field) as int)
}

/// Reads the text of a NUL-padded field of a kernel structure.
pub fn read_field(field: &[u8]) -> (text: Vec<u8>)
    ensures
        text@ == field_text(field@),
{
    let mut end: usize = field.len();
    proof {
        assert(field@.take(end as int) =~= field@);
    }
    while end > 0 && field[end - 1] == 0
        invariant
            end <= field@.len(),
            text_len(field@) == text_len(field@.take(end as int)),
        decreases end,
    {
        proof {
            assert(field@.take(end as int).drop_last() =~= field@.take(end - 1));
        }
        end -= 1;
    }
    proof {
        assert(text_len(field@.take(end as int)) == end);
    }
    vstd::slice::slice_to_vec(vstd::slice::slice_subrange(field, 0, end))
}

/// The name field that carries `text`: its first bytes, as many as leave
/// room for a NUL, then NUL bytes up to the field's width.
pub open spec fn name_field(text: Seq<u8>) -> Seq<u8> {
    Seq::new(32, |i: int| if i < text.len() && i < 31 { text[i] } else { 0u8 })
}

/// Writes a text into a name field of a kernel structure.
pub fn write_field(text: &[u8]) -> (field: Vec<u8>)
    ensures
        field@ == name_field(text@),
{
    let mut field: Vec<u8> = Vec::new();
    let mut i: usize = 0;
    while i < NAME_SIZE
        invariant
            i <= 32,
            field@.len() == i,
            forall|k: int| 0 <= k < i ==> field@[k] == name_field(text@)[k],
        decreases 32 - i,
    {
        let byte: u8 = if i < text.len() && i < NAME_SIZE - 1 { text[i] } else { 0 };
        field.push(byte);
        i += 1;
    }
    proof {
        assert(field@ =~= name_field(text@));
    }
    field
}

/// A field whose bytes from `n` on are NUL, and whose byte before `n` is
/// not, holds a text of `n` bytes.
pub proof fn lemma_text_len(field: Seq<u8>, n: nat)
    requires
        n <= field.len(),
        forall|k: int| n <= k < field.len() ==> field[k] == 0,
        n == 0 || field[n - 1] != 0,
    ensures
        text_len(field) == n,
    decreases field.len() - n,
{
    if field.len() > n {
        lemma_text_len(field.drop_last(), n);
    }
}

/// A text that fits a name field and does not end in NUL reads back from
/// the field as it was written.
pub proof fn lemma_field_round_trip(text: Seq<u8>)
    requires
        text.len() <= 31,
        text.len() == 0 || text.last() != 0,
    ensures
        field_text(name_field(text)) == text,
{
    lemma_text_len(name_field(text), text.len());
    assert(name_field(text).take(text.len() as int) =~= text);
}

/// The offsets array of a request: the lines, then zeros.
pub open spec fn offsets_field(lines: Seq<LineId>) -> Seq<LineId> {
    Seq::new(64, |i: int| if i < lines.len() { lines[i] } else { 0u32 })
}

/// The fields of the structure that asks the kernel for lines. Every field
/// that is not listed is zero.
pub struct LineRequest {
    /// The line offsets, padded with zeros.
    pub offsets: Vec<LineId>,
    /// The consumer label, NUL-padded.
    pub consumer: Vec<u8>,
    /// The flags word.
    pub flags: u64,
    /// The number of offsets that count.
    pub num_lines: u32,
    /// The initial output values, where the request carries them.
    pub output_values: Option<Values>,
}

/// The initial values a request carries: those chosen for an output, cut
/// to the request's length.
pub open spec fn initial_values(direction: Direction, values: Option<Values>, count: nat) -> Option<
    Values,
> {
    match (direction, values) {
        (Direction::Output, Some(values)) => Some(values.truncate_spec(count as BitId)),
        _ => None,
    }
}

/// Whether some line of the request is not a line of a chip with
/// `chip_lines` lines.
pub open spec fn some_line_outside(lines: Seq<LineId>, chip_lines: LineId) -> bool {
    exists|i: int| 0 <= i < lines.len() && lines[i] >= chip_lines
}

fn any_line_outside(lines: &[LineId], chip_lines: LineId) -> (outside: bool)
    ensures
        outside == some_line_outside(lines@, chip_lines),
{
    let mut i: usize = 0;
    while i < lines.len()
        invariant
            i <= lines@.len(),
            forall|k: int| 0 <= k < i ==> lines@[k] < chip_lines,
        decreases lines@.len() - i,
    {
        if lines[i] >= chip_lines {
            return true;
        }
        i += 1;
    }
    false
}

fn any_line_twice(lines: &[LineId]) -> (twice: bool)
    ensures
        twice == !lines@.no_duplicates(),
{
    let mut i: usize = 0;
    while i < lines.len()
        invariant
            i <= lines@.len(),
            forall|a: int, b: int| 0 <= a < b < i ==> lines@[a] != lines@[b],
        decreases lines@.len() - i,
    {
        let mut j: usize = 0;
        while j < i
            invariant
                j <= i < lines@.len(),
                forall|a: int| 0 <= a < j ==> lines@[a] != lines@[i as int],
            decreases i - j,
        {
            if lines[j] == lines[i] {
                return true;
            }
            j += 1;
        }
        i += 1;
    }
    false
}

/// Tests whether `lines` can be requested together from a chip that has
/// `chip_lines` lines.
///
/// Fails with [`Error::LineOutOfRange`] when a line is not on the chip,
/// else with [`Error::DuplicateLine`] when a line is named twice.
pub fn check_lines(lines: &[LineId], chip_lines: LineId) -> (r: Result<(), Error>)
    ensures
        r is Err <==> some_line_outside(lines@, chip_lines) || !lines@.no_duplicates(),
        r matches Err(e) ==> e == (if some_line_outside(lines@, chip_lines) {
            Error::LineOutOfRange
        } else {
            Error::DuplicateLine
        }),
{
    if any_line_outside(lines, chip_lines) {
        return Err(Error::LineOutOfRange);
    }
    if any_line_twice(lines) {
        return Err(Error::DuplicateLine);
    }
    Ok(())
}

/// Fills the offsets array of a request.
pub fn pad_offsets(lines: &[LineId]) -> (offsets: Vec<LineId>)
    ensures
        offsets@ == offsets_field(lines@),
{
    let mut offsets: Vec<LineId> = Vec::new();
    let mut i: usize = 0;
    while i < LINES_MAX
        invariant
            i <= 64,
            offsets@.len() == i,
            forall|k: int| 0 <= k < i ==> offsets@[k] == offsets_field(lines@)[k],
        decreases 64 - i,
    {
        let offset: LineId = if i < lines.len() { lines[i] } else { 0 };
        offsets.push(offset);
        i += 1;
    }
    proof {
        assert(offsets@ =~= offsets_field(lines@));
    }
    offsets
}

/// Whether `request` is the request that `options` describes in the given
/// direction.
pub open spec fn request_encodes(
    request: LineRequest,
    options: OptionsView,
    direction: Direction,
) -> bool {
    &&& request.offsets@ == offsets_field(options.lines)
    &&& request.consumer@ == name_field(options.consumer)
    &&& request.flags == request_flags_spec(
        direction,
        options.active,
        options.edge,
        options.bias,
        options.drive,
    )
    &&& request.num_lines == options.lines.len()
    &&& request.output_values == initial_values(direction, options.values, options.lines.len())
}

/// Builds the request for the lines of `options` on a chip that has
/// `chip_lines` lines.
///
/// Nothing is built unless every line can be requested: the call fails
/// with [`Error::LineOutOfRange`] when a line is not on the chip, else with
/// [`Error::DuplicateLine`] when a line is named twice.
pub fn encode_request<D: DirectionType>(options: &Options<D>, chip_lines: LineId) -> (r: Result<
    LineRequest,
    Error,
>)
    ensures
        r is Err <==> some_line_outside(options@.lines, chip_lines)
            || !options@.lines.no_duplicates(),
        r matches Err(e) ==> e == (if some_line_outside(options@.lines, chip_lines) {
            Error::LineOutOfRange
        } else {
            Error::DuplicateLine
        }),
        r matches Ok(request) ==> request_encodes(request, options@, D::direction_spec()),
{
    let lines = options.lines();
    match check_lines(lines, chip_lines) {
        Ok(()) => {},
        Err(e) => {
            return Err(e);
        },
    }
    let direction = D::direction();
    let count: usize = lines.len();
    let output_values = match (direction, options.get_values()) {
        (Direction::Output, Some(values)) => {
            let mut values = values;
            values.truncate(count as BitId);
            Some(values)
        },
        _ => None,
    };
    Ok(
        LineRequest {
            offsets: pad_offsets(lines),
            consumer: write_field(options.get_consumer()),
            flags: request_flags(
                direction,
                options.get_active(),
                options.get_edge(),
                options.get_bias(),
                options.get_drive(),
            ),
            num_lines: count as u32,
            output_values,
        },
    )
}

} // verus!
