//! A GPIO chip: where its device node is found, how a device node is told
//! from other files, and what the chip says of itself.
//!
//! Paths and names are byte strings, as the file system holds them.

use crate::codec::{
    encode_request, field_text, line_flags, line_flags_spec, read_field, request_encodes,
    some_line_outside, LineFlags, LineRequest,
};
use crate::error::{Error, ErrorKind};
use crate::lines::{Lines, ValuesInfo, ValuesInfoView};
use crate::options::{Active, Bias, Direction, DirectionType, Drive, EdgeDetect, Options};
use crate::values::LineId;
use crate::wire::append;
use vstd::prelude::*;

verus! {

/// The bytes of `/dev/`.
pub open spec fn dev_dir() -> Seq<u8> {
    seq![47u8, 100u8, 101u8, 118u8, 47u8]
}

/// The bytes of `/sys/dev/char/`.
pub open spec fn char_dir() -> Seq<u8> {
    seq![
        47u8,
        115u8,
        121u8,
        115u8,
        47u8,
        100u8,
        101u8,
        118u8,
        47u8,
        99u8,
        104u8,
        97u8,
        114u8,
        47u8,
    ]
}

/// The bytes of `/subsystem`.
pub open spec fn subsystem_name() -> Seq<u8> {
    seq![47u8, 115u8, 117u8, 98u8, 115u8, 121u8, 115u8, 116u8, 101u8, 109u8]
}

/// The bytes of `/sys/bus/gpio`, where the subsystem link of every GPIO
/// chip leads.
pub open spec fn gpio_bus() -> Seq<u8> {
    seq![
        47u8,
        115u8,
        121u8,
        115u8,
        47u8,
        98u8,
        117u8,
        115u8,
        47u8,
        103u8,
        112u8,
        105u8,
        111u8,
    ]
}

/// The path of the device node that `path` names: `path` itself where it
/// is absolute, else the entry of that name under `/dev`.
pub open spec fn device_path_spec(path: Seq<u8>) -> Seq<u8> {
    if path.len() > 0 && path[0] == 47u8 {
        path
    } else {
        dev_dir() + path
    }
}

/// Resolves the name or path of a chip to the path of its device node.
pub fn device_path(path: &[u8]) -> (full: Vec<u8>)
    ensures
        full@ == device_path_spec(path@),
{
    let mut full: Vec<u8> = Vec::new();
    if !(path.len() > 0 && path[0] == 47) {
        let dir: [u8; 5] = [47, 100, 101, 118, 47];
        append(&mut full, dir.as_slice());
        proof {
            assert(full@ =~= dev_dir());
        }
    }
    append(&mut full, path);
    proof {
        assert(Seq::<u8>::empty() + path@ =~= path@);
    }
    full
}

/// The major number in a device number.
pub open spec fn major_spec(dev: u64) -> u64 {
    ((dev & 0x0000_0000_000f_ff00) >> 8) | ((dev & 0xffff_f000_0000_0000) >> 32)
}

/// The minor number in a device number.
pub open spec fn minor_spec(dev: u64) -> u64 {
    (dev & 0x0000_0000_0000_00ff) | ((dev & 0x0000_0fff_fff0_0000) >> 12)
}

/// `gpiod_core::major`: bits 8 to 19 of the device number, with bits 44 to
/// 63 placed above them.
#[verifier::external_body]
fn major(dev: u64) -> (number: u64)
    ensures
        number == major_spec(dev),
{
    gpiod_core::major(dev)
}

/// `gpiod_core::minor`: bits 0 to 7 of the device number, with bits 20 to
/// 43 placed above them.
#[verifier::external_body]
fn minor(dev: u64) -> (number: u64)
    ensures
        number == minor_spec(dev),
{
    gpiod_core::minor(dev)
}

/// The digits of `n` in base ten, as text.
pub open spec fn decimal_spec(n: nat) -> Seq<u8>
    decreases n,
{
    if n < 10 {
        seq![(48 + n) as u8]
    } else {
        decimal_spec(n / 10).push((48 + n % 10) as u8)
    }
}

fn append_decimal(out: &mut Vec<u8>, n: u64)
    ensures
        final(out)@ == old(out)@ + decimal_spec(n as nat),
    decreases n,
{
    if n >= 10 {
        append_decimal(out, n / 10);
    }
    out.push(48 + (n % 10) as u8);
    proof {
        if n >= 10 {
            assert(final(out)@ =~= old(out)@ + decimal_spec(n as nat));
        } else {
            assert(final(out)@ =~= old(out)@ + decimal_spec(n as nat));
        }
    }
}

/// The path of the link that tells which subsystem the character device
/// with number `rdev` belongs to:
/// `/sys/dev/char/<major>:<minor>/subsystem`.
pub open spec fn subsystem_link_spec(rdev: u64) -> Seq<u8> {
    char_dir() + decimal_spec(major_spec(rdev) as nat) + seq![58u8] + decimal_spec(
        minor_spec(rdev) as nat,
    ) + subsystem_name()
}

/// The path of the subsystem link of a character device.
pub fn subsystem_link(rdev: u64) -> (link: Vec<u8>)
    ensures
        link@ == subsystem_link_spec(rdev),
{
    let mut link: Vec<u8> = Vec::new();
    let dir: [u8; 14] = [47, 115, 121, 115, 47, 100, 101, 118, 47, 99, 104, 97, 114, 47];
    let colon: [u8; 1] = [58];
    let name: [u8; 10] = [47, 115, 117, 98, 115, 121, 115, 116, 101, 109];
    append(&mut link, dir.as_slice());
    proof {
        assert(link@ =~= char_dir());
    }
    append_decimal(&mut link, major(rdev));
    append(&mut link, colon.as_slice());
    proof {
        assert(colon@ =~= seq![58u8]);
    }
    append_decimal(&mut link, minor(rdev));
    append(&mut link, name.as_slice());
    proof {
        assert(name@ =~= subsystem_name());
    }
    link
}

fn same_bytes(left: &[u8], right: &[u8]) -> (same: bool)
    ensures
        same == (left@ == right@),
{
    if left.len() != right.len() {
        return false;
    }
    let mut i: usize = 0;
    while i < left.len()
        invariant
            i <= left@.len(),
            left@.len() == right@.len(),
            forall|k: int| 0 <= k < i ==> left@[k] == right@[k],
        decreases left@.len() - i,
    {
        if left[i] != right[i] {
            return false;
        }
        i += 1;
    }
    proof {
        assert(left@ =~= right@);
    }
    true
}

/// What the file system says of one path: whether it is a character
/// device, and where the subsystem link of its device number leads.
pub struct DeviceEntry {
    pub path: Vec<u8>,
    pub is_char_device: bool,
    pub subsystem_target: Vec<u8>,
}

/// Whether a path with these properties is the device node of a GPIO chip.
pub open spec fn is_gpio_device(is_char_device: bool, subsystem_target: Seq<u8>) -> bool {
    is_char_device && subsystem_target == gpio_bus()
}

/// The paths of the entries that are device nodes of GPIO chips, in the
/// order of the entries.
pub open spec fn gpio_devices(entries: Seq<DeviceEntry>) -> Seq<Seq<u8>>
    decreases entries.len(),
{
    if entries.len() == 0 {
        Seq::empty()
    } else {
        let rest = gpio_devices(entries.drop_last());
        let entry = entries.last();
        if is_gpio_device(entry.is_char_device, entry.subsystem_target@) {
            rest.push(entry.path@)
        } else {
            rest
        }
    }
}

/// The paths that a list of byte strings holds.
pub open spec fn paths_view(paths: Seq<Vec<u8>>) -> Seq<Seq<u8>> {
    Seq::new(paths.len(), |i: int| paths[i]@)
}

/// What a chip says of itself.
pub ghost struct ChipInfoView {
    pub name: Seq<u8>,
    pub label: Seq<u8>,
    pub num_lines: LineId,
}

/// The name of a chip, its label and the number of its lines.
pub struct ChipInfo {
    name: Vec<u8>,
    label: Vec<u8>,
    num_lines: LineId,
}

impl View for ChipInfo {
    type V = ChipInfoView;

    closed spec fn view(&self) -> ChipInfoView {
        ChipInfoView { name: self.name@, label: self.label@, num_lines: self.num_lines }
    }
}

impl ChipInfo {
    /// Reads what the kernel reported of a chip: two NUL-padded name
    /// fields and the number of lines.
    pub fn decode(name: &[u8], label: &[u8], num_lines: LineId) -> (info: ChipInfo)
        ensures
            info@ == (ChipInfoView {
                name: field_text(name@),
                label: field_text(label@),
                num_lines,
            }),
    {
        ChipInfo { name: read_field(name), label: read_field(label), num_lines }
    }

    pub fn name(&self) -> (name: &[u8])
        ensures
            name@ == self@.name,
    {
        self.name.as_slice()
    }

    pub fn label(&self) -> (label: &[u8])
        ensures
            label@ == self@.label,
    {
        self.label.as_slice()
    }

    pub fn num_lines(&self) -> (count: LineId)
        ensures
            count == self@.num_lines,
    {
        self.num_lines
    }

    /// Whether the chip has a line `line` to ask about.
    ///
    /// Fails with [`Error::LineOutOfRange`] exactly when `line` is not
    /// below the number of lines.
    pub fn check_line(&self, line: LineId) -> (r: Result<(), Error>)
        ensures
            line >= self@.num_lines <==> r is Err,
            r matches Err(e) ==> e == Error::LineOutOfRange,
    {
        if line >= self.num_lines {
            Err(Error::LineOutOfRange)
        } else {
            Ok(())
        }
    }
}

/// What the kernel reports of one line.
pub struct LineInfo {
    pub direction: Direction,
    pub active: Active,
    pub edge: EdgeDetect,
    pub used: bool,
    pub bias: Bias,
    pub drive: Drive,
    pub name: Vec<u8>,
    pub consumer: Vec<u8>,
}

impl LineInfo {
    /// What the flags word of the line said.
    pub open spec fn flags_spec(self) -> LineFlags {
        LineFlags {
            direction: self.direction,
            active: self.active,
            edge: self.edge,
            used: self.used,
            bias: self.bias,
            drive: self.drive,
        }
    }
}

/// An open GPIO chip.
pub struct Chip {
    info: ChipInfo,
}

impl View for Chip {
    type V = ChipInfoView;

    closed spec fn view(&self) -> ChipInfoView {
        self.info@
    }
}

impl Chip {
    /// Tests whether a path is the device node of a GPIO chip, on what the
    /// file system says of it. Where the path is no character device,
    /// `subsystem_target` is not looked at.
    ///
    /// Fails with [`Error::NotCharDevice`] exactly when the path is not a
    /// character device, and with [`Error::NotGpioDevice`] exactly when it
    /// is one whose subsystem link does not lead to the GPIO bus.
    pub fn check_device(is_char_device: bool, subsystem_target: &[u8]) -> (r: Result<(), Error>)
        ensures
            r is Ok <==> is_gpio_device(is_char_device, subsystem_target@),
            r matches Err(e) ==> e == (if is_char_device {
                Error::NotGpioDevice
            } else {
                Error::NotCharDevice
            }) && e.kind_spec() == ErrorKind::InvalidArgument,
    {
        if !is_char_device {
            return Err(Error::NotCharDevice);
        }
        let bus: [u8; 13] = [47, 115, 121, 115, 47, 98, 117, 115, 47, 103, 112, 105, 111];
        proof {
            assert(bus@ =~= gpio_bus());
        }
        if !same_bytes(subsystem_target, bus.as_slice()) {
            return Err(Error::NotGpioDevice);
        }
        Ok(())
    }

    /// Opens a chip from what was read of its device node: the two facts
    /// that tell a GPIO device node, and the chip information as the
    /// kernel reported it.
    ///
    /// Fails as [`Chip::check_device`] does, and on no other input.
    pub fn new(
        is_char_device: bool,
        subsystem_target: &[u8],
        name: &[u8],
        label: &[u8],
        num_lines: LineId,
    ) -> (r: Result<Chip, Error>)
        ensures
            r is Ok <==> is_gpio_device(is_char_device, subsystem_target@),
            r matches Err(e) ==> e == (if is_char_device {
                Error::NotGpioDevice
            } else {
                Error::NotCharDevice
            }) && e.kind_spec() == ErrorKind::InvalidArgument,
            r matches Ok(chip) ==> chip@ == (ChipInfoView {
                name: field_text(name@),
                label: field_text(label@),
                num_lines,
            }),
    {
        match Chip::check_device(is_char_device, subsystem_target) {
            Ok(()) => Ok(Chip { info: ChipInfo::decode(name, label, num_lines) }),
            Err(e) => Err(e),
        }
    }

    /// The paths of those entries that are device nodes of GPIO chips, in
    /// the order of the entries. An entry that is none is left out.
    pub fn list_devices(entries: &[DeviceEntry]) -> (devices: Vec<Vec<u8>>)
        ensures
            paths_view(devices@) == gpio_devices(entries@),
    {
        let mut devices: Vec<Vec<u8>> = Vec::new();
        let mut i: usize = 0;
        proof {
            assert(paths_view(devices@) =~= gpio_devices(entries@.take(0)));
        }
        while i < entries.len()
            invariant
                i <= entries@.len(),
                paths_view(devices@) == gpio_devices(entries@.take(i as int)),
            decreases entries@.len() - i,
        {
            let entry = &entries[i];
            proof {
                assert(entries@.take(i + 1).drop_last() =~= entries@.take(i as int));
            }
            let ghost before = devices@;
            if Chip::check_device(entry.is_char_device, entry.subsystem_target.as_slice()).is_ok() {
                devices.push(vstd::slice::slice_to_vec(entry.path.as_slice()));
                proof {
                    assert(paths_view(devices@) =~= paths_view(before).push(entry.path@));
                }
            }
            i += 1;
        }
        proof {
            assert(entries@.take(entries@.len() as int) =~= entries@);
        }
        devices
    }

    /// What the chip says of itself.
    pub fn info(&self) -> (info: &ChipInfo)
        ensures
            info@ == self@,
    {
        &self.info
    }

    /// Reads what the kernel reported of the line `line`: two NUL-padded
    /// name fields and the flags word.
    ///
    /// Fails with [`Error::LineOutOfRange`] exactly when the chip has no
    /// such line.
    pub fn line_info(&self, line: LineId, name: &[u8], consumer: &[u8], flags: u64) -> (r: Result<
        LineInfo,
        Error,
    >)
        ensures
            line >= self@.num_lines <==> r is Err,
            r matches Err(e) ==> e == Error::LineOutOfRange,
            r matches Ok(info) ==> info.flags_spec() == line_flags_spec(flags) && info.name@
                == field_text(name@) && info.consumer@ == field_text(consumer@),
    {
        match self.info.check_line(line) {
            Ok(()) => {},
            Err(e) => {
                return Err(e);
            },
        }
        let read = line_flags(flags);
        Ok(
            LineInfo {
                direction: read.direction,
                active: read.active,
                edge: read.edge,
                used: read.used,
                bias: read.bias,
                drive: read.drive,
                name: read_field(name),
                consumer: read_field(consumer),
            },
        )
    }

    /// Builds the request for the lines of `options` on this chip, and the
    /// handle of the request for the time when the kernel has granted it.
    ///
    /// Fails with [`Error::LineOutOfRange`] when a line is not on the chip,
    /// else with [`Error::DuplicateLine`] when a line is named twice.
    pub fn request_lines<D: DirectionType>(&self, options: Options<D>) -> (r: Result<
        (LineRequest, Lines<D>),
        Error,
    >)
        ensures
            r is Err <==> some_line_outside(options@.lines, self@.num_lines)
                || !options@.lines.no_duplicates(),
            r matches Err(e) ==> e == (if some_line_outside(options@.lines, self@.num_lines) {
                Error::LineOutOfRange
            } else {
                Error::DuplicateLine
            }),
            r matches Ok(granted) ==> request_encodes(granted.0, options@, D::direction_spec())
                && granted.1@ == (ValuesInfoView {
                chip_name: self@.name,
                consumer: options@.consumer,
                lines: options@.lines,
            }),
    {
        let request = match encode_request(&options, self.info.num_lines()) {
            Ok(request) => request,
            Err(e) => {
                return Err(e);
            },
        };
        match ValuesInfo::new(self.info.name(), options.get_consumer(), options.lines()) {
            Ok(info) => Ok((request, Lines::new(info))),
            Err(e) => Err(e),
        }
    }
}

} // verus!
