use gpio_chardev::chip::Chip;
use gpio_chardev::error::{Error, ErrorKind};
use gpio_chardev::event::{parse_event, Event, RawEvent};
use gpio_chardev::lines::{Lines, ValuesInfo};
use gpio_chardev::options::{Edge, EdgeDetect, Input, Options};

fn record(timestamp_ns: u64, id: u32, offset: u32, seqno: u32, line_seqno: u32) -> Vec<u8> {
    let mut bytes = Vec::new();
    bytes.extend_from_slice(&timestamp_ns.to_le_bytes());
    bytes.extend_from_slice(&id.to_le_bytes());
    bytes.extend_from_slice(&offset.to_le_bytes());
    bytes.extend_from_slice(&seqno.to_le_bytes());
    bytes.extend_from_slice(&line_seqno.to_le_bytes());
    bytes.extend_from_slice(&[0u8; 24]);
    bytes
}

fn input_lines(offsets: &[u32]) -> Lines<Input> {
    let chip = Chip::new(true, b"/sys/bus/gpio", b"gpiochip0\0", b"test\0", 32).ok().unwrap();
    let options = Options::input(offsets).unwrap().edge(EdgeDetect::Both);
    chip.request_lines(options).ok().unwrap().1
}

#[test]
fn a_record_is_read_field_by_field() {
    let bytes = record(0x0102_0304_0506_0708, 2, 19, 7, 3);
    assert_eq!(bytes.len(), 48);
    assert_eq!(
        parse_event(&bytes),
        Ok(RawEvent {
            timestamp_ns: 0x0102_0304_0506_0708,
            id: 2,
            offset: 19,
            seqno: 7,
            line_seqno: 3,
        })
    );
    let bytes = record(u64::MAX, u32::MAX, u32::MAX, u32::MAX, u32::MAX);
    assert_eq!(
        parse_event(&bytes),
        Ok(RawEvent {
            timestamp_ns: u64::MAX,
            id: u32::MAX,
            offset: u32::MAX,
            seqno: u32::MAX,
            line_seqno: u32::MAX,
        })
    );
}

#[test]
fn a_record_of_another_size_is_rejected() {
    let bytes = record(1, 1, 1, 1, 1);
    assert_eq!(parse_event(&bytes[..47]), Err(Error::UnexpectedSize));
    assert_eq!(parse_event(&[]), Err(Error::UnexpectedSize));
    let mut long = bytes.clone();
    long.push(0);
    assert_eq!(parse_event(&long), Err(Error::UnexpectedSize));
    assert_eq!(Error::UnexpectedSize.kind(), ErrorKind::Protocol);
    assert!(parse_event(&bytes).is_ok());
}

#[test]
fn an_event_names_the_position_of_its_line() {
    let info = ValuesInfo::new(b"gpiochip0", b"", &[27, 1, 19]).ok().unwrap();
    let raw = RawEvent { timestamp_ns: 1_000_000_123, id: 1, offset: 19, seqno: 1, line_seqno: 1 };
    assert_eq!(
        raw.as_event(&info),
        Ok(Event { line: 2, edge: Edge::Rising, time_ns: 1_000_000_123 })
    );
    let raw = RawEvent { timestamp_ns: 5, id: 2, offset: 27, seqno: 2, line_seqno: 1 };
    assert_eq!(raw.as_event(&info), Ok(Event { line: 0, edge: Edge::Falling, time_ns: 5 }));
}

#[test]
fn an_event_of_an_unknown_line_is_rejected() {
    let info = ValuesInfo::new(b"gpiochip0", b"", &[27, 1, 19]).ok().unwrap();
    let raw = RawEvent { timestamp_ns: 5, id: 1, offset: 2, seqno: 1, line_seqno: 1 };
    assert_eq!(raw.as_event(&info), Err(Error::UnknownLine));
    let raw = RawEvent { timestamp_ns: 5, id: 9, offset: 2, seqno: 1, line_seqno: 1 };
    assert_eq!(raw.as_event(&info), Err(Error::UnknownLine));
    assert_eq!(Error::UnknownLine.kind(), ErrorKind::Protocol);
}

#[test]
fn an_event_of_an_unknown_edge_is_rejected() {
    let info = ValuesInfo::new(b"gpiochip0", b"", &[27, 1, 19]).ok().unwrap();
    let raw = RawEvent { timestamp_ns: 5, id: 0, offset: 1, seqno: 1, line_seqno: 1 };
    assert_eq!(raw.as_event(&info), Err(Error::UnknownEdge));
    let raw = RawEvent { timestamp_ns: 5, id: 3, offset: 1, seqno: 1, line_seqno: 1 };
    assert_eq!(raw.as_event(&info), Err(Error::UnknownEdge));
    assert_eq!(Error::UnknownEdge.kind(), ErrorKind::Protocol);
}

#[test]
fn info_finds_positions() {
    let info = ValuesInfo::new(b"chip", b"me", &[27, 1, 19]).ok().unwrap();
    assert_eq!(info.index(27), Some(0));
    assert_eq!(info.index(1), Some(1));
    assert_eq!(info.index(19), Some(2));
    assert_eq!(info.index(0), None);
    assert_eq!(info.chip_name(), b"chip");
    assert_eq!(info.consumer(), b"me");
    assert_eq!(info.lines(), &[27, 1, 19]);
    let offsets: Vec<u32> = (0..65).collect();
    assert_eq!(ValuesInfo::new(b"", b"", &offsets).err(), Some(Error::TooManyValues));
}

#[test]
fn queued_events_are_read_in_order() {
    let lines = input_lines(&[4, 9, 2]);
    let offsets = [9u32, 4, 4, 2, 9, 2, 2, 4];
    let mut queue: Vec<Vec<u8>> = Vec::new();
    for (n, offset) in offsets.iter().enumerate() {
        let id = if n % 2 == 0 { 1 } else { 2 };
        queue.push(record(1000 + n as u64, id, *offset, n as u32 + 1, 1));
    }
    let mut seen = Vec::new();
    for bytes in queue.iter() {
        seen.push(lines.read_event(bytes).unwrap());
    }
    assert_eq!(seen.len(), offsets.len());
    for (n, event) in seen.iter().enumerate() {
        let position = match offsets[n] {
            4 => 0,
            9 => 1,
            _ => 2,
        };
        let edge = if n % 2 == 0 { Edge::Rising } else { Edge::Falling };
        assert_eq!(*event, Event { line: position, edge, time_ns: 1000 + n as u64 });
    }
}

#[test]
fn read_event_checks_the_size_first() {
    let lines = input_lines(&[4]);
    assert_eq!(lines.read_event(&[0u8; 16]), Err(Error::UnexpectedSize));
    assert_eq!(lines.read_event(&record(1, 1, 5, 1, 1)), Err(Error::UnknownLine));
    assert_eq!(lines.read_event(&record(1, 7, 4, 1, 1)), Err(Error::UnknownEdge));
    assert_eq!(
        lines.read_event(&record(1, 2, 4, 1, 1)),
        Ok(Event { line: 0, edge: Edge::Falling, time_ns: 1 })
    );
}
