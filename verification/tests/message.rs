use pycan::CanTimestamp;
use pycan::PyCanMessage;

fn msg(
    arbitration_id: u32,
    data: Option<Vec<u8>>,
    dlc: Option<u8>,
    is_error_frame: bool,
    timestamp: Option<CanTimestamp>,
) -> PyCanMessage {
    PyCanMessage { arbitration_id, data, dlc, is_error_frame, timestamp }
}

#[test]
fn display_normal_frame() {
    let m = msg(
        0x7FF,
        Some(vec![0x01, 0x02]),
        Some(2),
        false,
        Some(CanTimestamp::new(1, 500000)),
    );
    assert_eq!(m.display_string(), "PyCanMessage: @1.5 | id=0x7FF | dlc=2 | data=[1, 2]");
}

#[test]
fn display_error_frame_ignores_data_and_dlc() {
    let m = msg(
        0x7FF,
        Some(vec![0x01, 0x02]),
        Some(2),
        true,
        Some(CanTimestamp::new(1, 500000)),
    );
    assert_eq!(m.display_string(), "PyCanMessage: @1.5 ERROR FRAME");
}

#[test]
fn display_absent_fields_render_none() {
    let m = msg(0x123, None, None, false, None);
    assert_eq!(m.display_string(), "PyCanMessage: @None | id=0x123 | dlc=None | data=None");
}

#[test]
fn display_pads_short_identifiers() {
    let m = msg(0x5, Some(vec![]), Some(0), false, None);
    assert_eq!(m.display_string(), "PyCanMessage: @None | id=0x005 | dlc=0 | data=[]");
}

#[test]
fn display_does_not_truncate_wide_identifiers() {
    let m = msg(0x1FFFFFFF, None, None, false, None);
    assert_eq!(m.display_string(), "PyCanMessage: @None | id=0x1FFFFFFF | dlc=None | data=None");
}

#[test]
fn display_renders_bytes_and_dlc_in_hex() {
    let m = msg(
        0x123,
        Some(vec![0xDE, 0xAD, 0xBE, 0xEF]),
        Some(12),
        false,
        None,
    );
    assert_eq!(
        m.display_string(),
        "PyCanMessage: @None | id=0x123 | dlc=C | data=[DE, AD, BE, EF]"
    );
}

#[test]
fn display_timestamp_keeps_one_fraction_digit() {
    let m = msg(0x1, None, None, false, Some(CanTimestamp::new(7, 0)));
    assert_eq!(m.display_string(), "PyCanMessage: @7.0 | id=0x001 | dlc=None | data=None");
}

#[test]
fn display_timestamp_keeps_leading_fraction_zeros() {
    let m = msg(0x1, None, None, false, Some(CanTimestamp::new(123, 456)));
    assert_eq!(m.display_string(), "PyCanMessage: @123.000456 | id=0x001 | dlc=None | data=None");
}

#[test]
fn display_timestamp_full_precision() {
    let m = msg(0x1, None, None, true, Some(CanTimestamp::new(1699999999, 123456)));
    assert_eq!(m.display_string(), "PyCanMessage: @1699999999.123456 ERROR FRAME");
}

#[test]
fn new_tx_computes_dlc_from_payload() {
    let f = PyCanMessage::new_tx(0x42, &[1, 2, 3]);
    assert_eq!(f.arbitration_id, 0x42);
    assert_eq!(f.data, Some(vec![1, 2, 3]));
    assert_eq!(f.dlc, Some(3));
    assert!(!f.is_error_frame);
    assert!(f.timestamp.is_none());
}
