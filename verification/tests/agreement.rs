use gpio_chardev::error::Error;
use gpio_chardev::event::RawEvent;
use gpio_chardev::lines::ValuesInfo;
use gpio_chardev::options::Edge;
use gpio_chardev::values::{encode_full, encode_masked, Values};
use gpiod_core::{AsValues, AsValuesMut, LineMap};

fn words(values: &gpiod_core::Values) -> Values {
    Values { bits: values.bits, mask: values.mask }
}

fn samples() -> Vec<u64> {
    let mut seed: u64 = 0x2545_f491_4f6c_dd1d;
    let mut out = vec![0, 1, u64::MAX, 1 << 63, 0xaaaa_aaaa_aaaa_aaaa];
    for _ in 0..40 {
        seed ^= seed << 13;
        seed ^= seed >> 7;
        seed ^= seed << 17;
        out.push(seed);
    }
    out
}

#[test]
fn get_agrees_with_gpiod_core() {
    let all = samples();
    for pair in all.windows(2) {
        let ours = Values { bits: pair[0], mask: pair[1] };
        let theirs = gpiod_core::Values { bits: pair[0], mask: pair[1] };
        for id in 0..=255u8 {
            assert_eq!(ours.get(id), theirs.get(id));
        }
    }
}

#[test]
fn set_agrees_with_gpiod_core() {
    let all = samples();
    for pair in all.windows(2) {
        for id in [0u8, 1, 7, 31, 32, 62, 63, 64, 65, 200, 255] {
            for val in [None, Some(false), Some(true)] {
                let mut ours = Values { bits: pair[0], mask: pair[1] };
                let mut theirs = gpiod_core::Values { bits: pair[0], mask: pair[1] };
                ours.set(id, val);
                theirs.set(id, val);
                assert_eq!(ours, words(&theirs));
            }
        }
    }
}

#[test]
fn truncate_agrees_with_gpiod_core() {
    let all = samples();
    for pair in all.windows(2) {
        for len in [0u8, 1, 2, 31, 32, 33, 63, 64, 65, 128, 255] {
            let mut ours = Values { bits: pair[0], mask: pair[0] | pair[1] };
            let mut theirs = gpiod_core::Values { bits: pair[0], mask: pair[0] | pair[1] };
            ours.truncate(len);
            theirs.truncate(len);
            for id in 0..64u8 {
                assert_eq!(ours.get(id), theirs.get(id));
            }
        }
    }
}

#[test]
fn encoding_agrees_with_gpiod_core() {
    for (n, word) in samples().into_iter().enumerate() {
        let len = n % 65;
        let plain: Vec<bool> = (0..len).map(|i| (word >> i) & 1 == 1).collect();
        let theirs: gpiod_core::Values = plain.convert();
        assert_eq!(encode_full(&plain), Ok(words(&theirs)));

        let masked: Vec<Option<bool>> = (0..len)
            .map(|i| if (word >> (63 - i)) & 1 == 1 { Some((word >> i) & 1 == 1) } else { None })
            .collect();
        let theirs: gpiod_core::Values = masked.convert();
        assert_eq!(encode_masked(&masked), Ok(words(&theirs)));
    }
}

#[test]
fn positions_agree_with_gpiod_core() {
    let lines = [27u32, 1, 19, 0, 300];
    let info = ValuesInfo::new(b"chip", b"", &lines).ok().unwrap();
    let map = LineMap::new(&lines);
    for offset in 0..400u32 {
        assert_eq!(info.index(offset), map.get(offset).ok());
    }
}

#[test]
fn events_agree_with_gpiod_core() {
    let lines = [27u32, 1, 19];
    let info = ValuesInfo::new(b"chip", b"", &lines).ok().unwrap();
    let map = LineMap::new(&lines);
    for offset in [0u32, 1, 19, 27, 28] {
        for id in [0u32, 1, 2, 3] {
            let ours = RawEvent { timestamp_ns: 77_000_000_123, id, offset, seqno: 1, line_seqno: 1 }
                .as_event(&info);
            let mut raw = gpiod_core::RawEvent::default();
            raw.timestamp_ns = 77_000_000_123;
            raw.id = id;
            raw.offset = offset;
            match (ours, raw.as_event(&map)) {
                (Ok(ours), Ok(theirs)) => {
                    assert_eq!(ours.line, theirs.line);
                    assert_eq!(ours.time_ns as u128, theirs.time.as_nanos());
                    let edge = match theirs.edge {
                        gpiod_core::Edge::Rising => Edge::Rising,
                        gpiod_core::Edge::Falling => Edge::Falling,
                    };
                    assert_eq!(ours.edge, edge);
                }
                (Err(ours), Err(theirs)) => {
                    let text = match ours {
                        Error::UnknownLine => "Unknown line offset",
                        _ => "Unknown edge",
                    };
                    assert_eq!(ours.message(), text);
                    assert_eq!(theirs.to_string(), text);
                }
                (ours, theirs) => panic!("{:?} against {:?}", ours, theirs.is_ok()),
            }
        }
    }
}
