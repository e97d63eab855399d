use ppe::can::codec::{emergency_stop_seen, i16_frame, i32_frame, u16_frame, u8_frame};
use ppe::can::well_known;
use ppe::{CanFilter, CanFrame, CanId, CanLog};

#[test]
fn filter_accept_all() {
    let filter = CanFilter::AcceptAll;
    assert!(filter.matches(CanId::new(0x100).unwrap()));
    assert!(filter.matches(CanId::new(0x7FF).unwrap()));
}

#[test]
fn filter_exact() {
    let filter = CanFilter::Exact(CanId::new(0x100).unwrap());
    assert!(filter.matches(CanId::new(0x100).unwrap()));
    assert!(!filter.matches(CanId::new(0x101).unwrap()));
}

#[test]
fn filter_range() {
    let filter = CanFilter::Range {
        low: CanId::new(0x100).unwrap(),
        high: CanId::new(0x110).unwrap(),
    };
    assert!(filter.matches(CanId::new(0x100).unwrap()));
    assert!(filter.matches(CanId::new(0x108).unwrap()));
    assert!(filter.matches(CanId::new(0x110).unwrap()));
    assert!(!filter.matches(CanId::new(0x111).unwrap()));
}

#[test]
fn filter_mask() {
    // Match all IDs where bits 8-10 are 0x1 (0x100-0x1FF)
    let filter = CanFilter::Mask {
        filter: 0x100,
        mask: 0x700,
    };
    assert!(filter.matches(CanId::new(0x100).unwrap()));
    assert!(filter.matches(CanId::new(0x1FF).unwrap()));
    assert!(!filter.matches(CanId::new(0x200).unwrap()));
}

#[test]
fn filter_any() {
    let filter = CanFilter::Any(vec![
        CanFilter::Exact(CanId::new(0x100).unwrap()),
        CanFilter::Exact(CanId::new(0x200).unwrap()),
    ]);
    assert!(filter.matches(CanId::new(0x100).unwrap()));
    assert!(filter.matches(CanId::new(0x200).unwrap()));
    assert!(!filter.matches(CanId::new(0x300).unwrap()));
}

#[test]
fn filter_any_nested_and_empty() {
    let empty = CanFilter::Any(vec![]);
    assert!(!empty.matches(CanId::new(0x000).unwrap()));
    let nested = CanFilter::Any(vec![
        CanFilter::Any(vec![CanFilter::Mask { filter: 0x500, mask: 0x7F0 }]),
        CanFilter::Range {
            low: CanId::new(0x010).unwrap(),
            high: CanId::new(0x00F).unwrap(),
        },
    ]);
    assert!(nested.matches(CanId::new(0x505).unwrap()));
    assert!(!nested.matches(CanId::new(0x510).unwrap()));
    assert!(!nested.matches(CanId::new(0x010).unwrap()));
    let copy = nested.clone();
    assert!(copy.matches(CanId::new(0x50F).unwrap()));
}

#[test]
fn can_id_valid() {
    assert!(CanId::new(0x100).is_some());
    assert!(CanId::new(0x7FF).is_some());
    assert!(CanId::new(0x800).is_none());
}

#[test]
fn can_id_priority_ordering() {
    let high = CanId::new(0x010).unwrap();
    let low = CanId::new(0x700).unwrap();
    assert!(high < low); // Lower ID = higher priority
}

#[test]
fn can_id_raw_and_label() {
    let id = CanId::new_unchecked(0x7E8);
    assert_eq!(id.raw(), 0x7E8);
    assert_eq!(id.label(), "0x7E8");
    assert_eq!(CanId::new(0x001).unwrap().label(), "0x001");
}

#[test]
fn can_frame_display() {
    let frame = CanFrame::new(CanId::new(0x100).unwrap(), &[0xDE, 0xAD, 0xBE, 0xEF], 0);
    assert_eq!(frame.to_display_string(), "[0x100] DE AD BE EF");
}

#[test]
fn can_frame_display_empty_payload() {
    let frame = CanFrame::new(CanId::new(0x2A0).unwrap(), &[], 0);
    assert_eq!(frame.to_display_string(), "[0x2A0] ");
    let one = CanFrame::new(CanId::new(0x00F).unwrap(), &[0x0A], 0);
    assert_eq!(one.to_display_string(), "[0x00F] 0A");
}

#[test]
fn can_frame_truncates_to_8_bytes() {
    let frame = CanFrame::new(
        CanId::new(0x100).unwrap(),
        &[1, 2, 3, 4, 5, 6, 7, 8, 9, 10],
        0,
    );
    assert_eq!(frame.dlc(), 8);
    assert_eq!(frame.payload(), &[1, 2, 3, 4, 5, 6, 7, 8]);
}

#[test]
fn can_frame_clone_keeps_everything() {
    let frame = CanFrame::new(CanId::new(0x123).unwrap(), &[9, 8, 7], 42);
    let copy = frame.clone();
    assert_eq!(copy, frame);
    assert_eq!(copy.timestamp_us, 42);
    assert_eq!(copy.payload(), &[9, 8, 7]);
}

#[test]
fn payload_layouts_are_little_endian() {
    let f = u16_frame(well_known::BMS_SOC, 8000);
    assert_eq!(f.id.raw(), 0x100);
    assert_eq!(f.payload(), &8000u16.to_le_bytes());
    let f = i32_frame(well_known::BMS_CURRENT, -50_000);
    assert_eq!(f.payload(), &(-50_000i32).to_le_bytes());
    let f = i16_frame(well_known::BMS_TEMPERATURE, -105);
    assert_eq!(f.payload(), &(-105i16).to_le_bytes());
    let f = u8_frame(well_known::MOTOR_STATUS, 3);
    assert_eq!(f.payload(), &[3]);
    assert_eq!(f.timestamp_us, 0);
}

#[test]
fn emergency_stop_detection() {
    let stop = CanFrame::new(CanId::new_unchecked(well_known::EMERGENCY_STOP), &[], 0);
    let other = CanFrame::new(CanId::new_unchecked(well_known::HEARTBEAT), &[], 0);
    assert!(!emergency_stop_seen(&vec![]));
    assert!(!emergency_stop_seen(&vec![other.clone()]));
    assert!(emergency_stop_seen(&vec![other, stop]));
}

#[test]
fn can_log_keeps_most_recent_frames() {
    let mut log = CanLog::new(2);
    for i in 0..5u8 {
        log.push(CanFrame::new(CanId::new(0x100).unwrap(), &[i], 0));
    }
    assert_eq!(log.len(), 2);
    assert_eq!(log.get(0).payload(), &[3]);
    assert_eq!(log.get(1).payload(), &[4]);
    let mut tiny = CanLog::new(0);
    tiny.push(CanFrame::new(CanId::new(0x100).unwrap(), &[1], 0));
    tiny.push(CanFrame::new(CanId::new(0x100).unwrap(), &[2], 0));
    assert_eq!(tiny.len(), 1);
    assert_eq!(tiny.get(0).payload(), &[2]);
}

#[test]
fn can_id_unchecked_equals_checked() {
    let id = CanId::new_unchecked(0x7FF);
    assert_eq!(id.raw(), 0x7FF);
    assert_eq!(CanId::new(0x7FF), Some(id));
}

#[test]
fn can_id_order_follows_raw_value() {
    let low = CanId::new_unchecked(0x010);
    let high = CanId::new_unchecked(0x700);
    assert_eq!(low.partial_cmp(&high), Some(std::cmp::Ordering::Less));
    assert_eq!(high.partial_cmp(&low), Some(std::cmp::Ordering::Greater));
    assert_eq!(low.partial_cmp(&CanId::new(0x010).unwrap()), Some(std::cmp::Ordering::Equal));
    let mut ids = vec![high, low, CanId::new_unchecked(0x100)];
    ids.sort();
    assert_eq!(ids.iter().map(|i| i.raw()).collect::<Vec<_>>(), vec![0x010, 0x100, 0x700]);
}
