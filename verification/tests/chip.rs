use gpio_chardev::chip::{device_path, subsystem_link, Chip, ChipInfo, DeviceEntry};
use gpio_chardev::error::{Error, ErrorKind};
use gpio_chardev::options::{Active, Bias, Direction, Drive, EdgeDetect, Options};
use gpio_chardev::values::Values;

fn open_chip(num_lines: u32) -> Chip {
    let mut name = [0u8; 32];
    name[..9].copy_from_slice(b"gpiochip0");
    let mut label = [0u8; 32];
    label[..11].copy_from_slice(b"pinctrl-sim");
    Chip::new(true, b"/sys/bus/gpio", &name, &label, num_lines).ok().unwrap()
}

#[test]
fn a_bare_name_is_looked_up_under_dev() {
    assert_eq!(device_path(b"gpiochip0"), b"/dev/gpiochip0".to_vec());
    assert_eq!(device_path(b"bus/gpiochip1"), b"/dev/bus/gpiochip1".to_vec());
    assert_eq!(device_path(b""), b"/dev/".to_vec());
}

#[test]
fn an_absolute_path_is_kept() {
    assert_eq!(device_path(b"/dev/gpiochip0"), b"/dev/gpiochip0".to_vec());
    assert_eq!(device_path(b"/tmp/fake"), b"/tmp/fake".to_vec());
    assert_eq!(device_path(b"/"), b"/".to_vec());
}

#[test]
fn subsystem_link_names_major_and_minor() {
    let rdev: u64 = (254 << 8) | 3;
    assert_eq!(subsystem_link(rdev), b"/sys/dev/char/254:3/subsystem".to_vec());
    assert_eq!(subsystem_link(0), b"/sys/dev/char/0:0/subsystem".to_vec());
}

#[test]
fn subsystem_link_takes_the_high_parts_of_the_numbers() {
    // major 0x12345 + 0xabc, minor 0x6789a + 0xde, spread as the kernel spreads them
    let major: u64 = 0x1234_5abc;
    let minor: u64 = 0x6789_abde;
    let rdev: u64 = ((major & 0xfff) << 8)
        | ((major & !0xfff) << 32)
        | (minor & 0xff)
        | ((minor & !0xff) << 12);
    let text = format!("/sys/dev/char/{}:{}/subsystem", major, minor);
    assert_eq!(subsystem_link(rdev), text.into_bytes());
    assert_eq!(
        subsystem_link(u64::MAX),
        b"/sys/dev/char/4294967295:4294967295/subsystem".to_vec()
    );
}

#[test]
fn a_regular_file_is_no_chip() {
    let error = Chip::check_device(false, b"").err().unwrap();
    assert_eq!(error, Error::NotCharDevice);
    assert_eq!(error.kind(), ErrorKind::InvalidArgument);
    assert_eq!(error.message(), "File is not character device");
    let error = Chip::check_device(false, b"/sys/bus/gpio").err().unwrap();
    assert_eq!(error, Error::NotCharDevice);
    let error = Chip::new(false, b"", b"", b"", 0).err().unwrap();
    assert_eq!(error, Error::NotCharDevice);
    assert_eq!(error.kind(), ErrorKind::InvalidArgument);
}

#[test]
fn a_character_device_of_another_subsystem_is_no_chip() {
    let error = Chip::check_device(true, b"/sys/class/tty").err().unwrap();
    assert_eq!(error, Error::NotGpioDevice);
    assert_eq!(error.kind(), ErrorKind::InvalidArgument);
    assert_eq!(error.message(), "Character device is not a GPIO");
    assert_eq!(Chip::check_device(true, b"/sys/bus/gpi").err(), Some(Error::NotGpioDevice));
    assert_eq!(Chip::check_device(true, b"/sys/bus/gpio/").err(), Some(Error::NotGpioDevice));
    assert_eq!(Chip::check_device(true, b"/sys/bus/gpiO").err(), Some(Error::NotGpioDevice));
    assert_eq!(Chip::check_device(true, b"").err(), Some(Error::NotGpioDevice));
    let error = Chip::new(true, b"/sys/class/mem", b"", b"", 0).err().unwrap();
    assert_eq!(error, Error::NotGpioDevice);
    assert_eq!(error.kind(), ErrorKind::InvalidArgument);
}

#[test]
fn a_gpio_device_node_is_accepted() {
    assert_eq!(Chip::check_device(true, b"/sys/bus/gpio"), Ok(()));
    let chip = open_chip(8);
    assert_eq!(chip.info().name(), b"gpiochip0");
    assert_eq!(chip.info().label(), b"pinctrl-sim");
    assert_eq!(chip.info().num_lines(), 8);
}

#[test]
fn chip_info_is_read_from_padded_fields() {
    let info = ChipInfo::decode(b"gpiochip4\0\0\0", b"\0\0\0\0", 54);
    assert_eq!(info.name(), b"gpiochip4");
    assert_eq!(info.label(), b"");
    assert_eq!(info.num_lines(), 54);
    assert_eq!(info.check_line(53), Ok(()));
    assert_eq!(info.check_line(54), Err(Error::LineOutOfRange));
}

#[test]
fn list_devices_keeps_the_chips_in_order() {
    let entries = vec![
        DeviceEntry {
            path: b"/dev/gpiochip1".to_vec(),
            is_char_device: true,
            subsystem_target: b"/sys/bus/gpio".to_vec(),
        },
        DeviceEntry {
            path: b"/dev/null".to_vec(),
            is_char_device: true,
            subsystem_target: b"/sys/class/mem".to_vec(),
        },
        DeviceEntry {
            path: b"/dev/log".to_vec(),
            is_char_device: false,
            subsystem_target: b"/sys/bus/gpio".to_vec(),
        },
        DeviceEntry {
            path: b"/dev/gpiochip0".to_vec(),
            is_char_device: true,
            subsystem_target: b"/sys/bus/gpio".to_vec(),
        },
    ];
    assert_eq!(
        Chip::list_devices(&entries),
        vec![b"/dev/gpiochip1".to_vec(), b"/dev/gpiochip0".to_vec()]
    );
    assert_eq!(Chip::list_devices(&[]), Vec::<Vec<u8>>::new());
    assert_eq!(Chip::list_devices(&entries[1..3]), Vec::<Vec<u8>>::new());
}

#[test]
fn line_info_is_read_for_a_line_of_the_chip() {
    let chip = open_chip(4);
    let info = chip.line_info(3, b"led0\0\0\0\0", b"blink\0\0\0", 0x00b).ok().unwrap();
    assert_eq!(info.name, b"led0".to_vec());
    assert_eq!(info.consumer, b"blink".to_vec());
    assert_eq!(info.direction, Direction::Output);
    assert_eq!(info.active, Active::Low);
    assert_eq!(info.edge, EdgeDetect::Disable);
    assert_eq!(info.bias, Bias::Disable);
    assert_eq!(info.drive, Drive::PushPull);
    assert!(info.used);
}

#[test]
fn line_info_of_a_line_the_chip_lacks_is_rejected() {
    let chip = open_chip(4);
    let error = chip.line_info(4, b"", b"", 0).err().unwrap();
    assert_eq!(error, Error::LineOutOfRange);
    assert_eq!(error.kind(), ErrorKind::InvalidArgument);
    assert!(chip.line_info(u32::MAX, b"", b"", 0).is_err());
    assert!(chip.line_info(0, b"", b"", 0).is_ok());
}

#[test]
fn request_lines_gives_request_and_handle() {
    let chip = open_chip(8);
    let options = Options::output(&[5, 1]).unwrap().consumer("relay");
    let (request, lines) = chip.request_lines(options).ok().unwrap();
    assert_eq!(request.num_lines, 2);
    assert_eq!(request.flags, 0x008);
    assert_eq!(lines.info().lines(), &[5, 1]);
    assert_eq!(lines.info().chip_name(), b"gpiochip0");
    assert_eq!(lines.info().consumer(), b"relay");
    assert_eq!(lines.set_values(&[true, false]), Ok(Values { bits: 0b01, mask: 0b11 }));
    assert_eq!(lines.set_values(&[true]), Err(Error::LengthMismatch));
    assert_eq!(
        lines.set_values_masked(&[None, Some(true)]),
        Ok(Values { bits: 0b10, mask: 0b10 })
    );
    assert_eq!(lines.set_values_masked(&[None, None, None]), Err(Error::LengthMismatch));
    assert_eq!(Error::LengthMismatch.kind(), ErrorKind::InvalidArgument);
}

#[test]
fn request_lines_rejects_bad_offsets() {
    let chip = open_chip(8);
    let options = Options::input(&[0, 8]).unwrap();
    assert_eq!(chip.request_lines(options).err(), Some(Error::LineOutOfRange));
    let options = Options::input(&[2, 2]).unwrap();
    assert_eq!(chip.request_lines(options).err(), Some(Error::DuplicateLine));
}

#[test]
fn masked_set_values_changes_only_the_flagged_lines() {
    let chip = open_chip(8);
    let options = Options::output(&[0, 1, 2, 3]).unwrap();
    let (_, lines) = chip.request_lines(options).ok().unwrap();
    // what the lines hold before: 1, 0, 0, 1
    let mut state: u64 = lines.set_values(&[true, false, false, true]).unwrap().apply(0);
    let update = lines.set_values_masked(&[None, Some(true), None, Some(false)]).unwrap();
    state = update.apply(state);
    let seen = lines.get_values(state, vec![false; 4]).unwrap();
    assert_eq!(seen, vec![true, true, false, false]);
}

#[test]
fn read_two_inputs_of_a_simulated_chip() {
    // the simulated chip: eight lines, of which 0, 3 and 5 are high
    let levels = [true, false, false, true, false, true, false, false];
    let path = device_path(b"/dev/gpiochip0");
    assert_eq!(path, b"/dev/gpiochip0".to_vec());
    let chip = open_chip(8);
    let options = Options::input(&[0, 2])
        .unwrap()
        .bias(Bias::Disable)
        .active(Active::High)
        .consumer("gpioget");
    let (request, lines) = chip.request_lines(options).ok().unwrap();
    assert_eq!(request.flags, 0x404);

    let buffer = vec![false, false];
    let asked = lines.values_request(&buffer).unwrap();
    assert_eq!(asked, Values { bits: 0, mask: 0b11 });
    // the simulated kernel answers for each position that was asked for
    let mut answer: u64 = 0;
    for position in 0..request.num_lines as usize {
        if asked.get(position as u8).is_some() && levels[request.offsets[position] as usize] {
            answer |= 1 << position;
        }
    }
    let values = lines.get_values(answer, buffer).unwrap();
    assert_eq!(values, vec![true, false]);
}

#[test]
fn get_values_needs_one_position_per_line() {
    let chip = open_chip(8);
    let (_, lines) = chip.request_lines(Options::input(&[0, 2]).unwrap()).ok().unwrap();
    assert_eq!(lines.values_request(&[false]), Err(Error::LengthMismatch));
    assert_eq!(lines.values_request(&[false; 3]), Err(Error::LengthMismatch));
    assert_eq!(lines.get_values(0b11, vec![]), Err(Error::LengthMismatch));
    assert_eq!(lines.get_values(0b11, vec![false; 3]), Err(Error::LengthMismatch));
    assert_eq!(lines.get_values(0b10, vec![true, true]), Ok(vec![false, true]));
    assert_eq!(lines.values_request(&[true, false]), Ok(Values { bits: 0b01, mask: 0b11 }));
}
