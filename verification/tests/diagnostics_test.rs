use ppe::can::well_known;
use ppe::diagnostics::obd::{
    obd_response, ObdLiveEncoded, PID_BATTERY_CURRENT, PID_CONTROL_MODULE_VOLTAGE,
    PID_ENGINE_RPM, PID_VEHICLE_SPEED,
};
use ppe::{encode_dtc_code, CanFrame, CanId, ComponentId, Dtc, DtcManager, DtcSeverity};

#[test]
fn dtc_manager_lifecycle() {
    let mut mgr = DtcManager::<()>::new();
    assert_eq!(mgr.count(), 0);

    let dtc = Dtc::new(
        "P0A80",
        "Over temp",
        DtcSeverity::Critical,
        ComponentId::Bms,
    );
    mgr.update(vec![dtc.clone()]);
    assert_eq!(mgr.count(), 1);
    assert_eq!(mgr.history().len(), 1);

    mgr.clear("P0A80");
    assert_eq!(mgr.count(), 0);
    // History preserved
    assert_eq!(mgr.history().len(), 1);
}

#[test]
fn dtc_encoding() {
    assert_eq!(encode_dtc_code("P0A80"), 0x0A80);
    assert_eq!(encode_dtc_code("P0217"), 0x0217);
}

#[test]
fn dtc_encoding_categories_and_short_codes() {
    assert_eq!(encode_dtc_code("C1234"), 0x5234);
    assert_eq!(encode_dtc_code("B0abc"), 0x8ABC);
    assert_eq!(encode_dtc_code("U0100"), 0xC100);
    assert_eq!(encode_dtc_code("U8100"), 0xC000 | 0x8000 | 0x0100);
    assert_eq!(encode_dtc_code("X00Z1"), 0x0001);
    assert_eq!(encode_dtc_code("P0A8"), 0);
    assert_eq!(encode_dtc_code(""), 0);
}

#[test]
fn obd_mode_03_encoding() {
    let mut mgr = DtcManager::<()>::new();
    mgr.update(vec![
        Dtc::new("P0A80", "test", DtcSeverity::Critical, ComponentId::Bms),
        Dtc::new("P0217", "test2", DtcSeverity::Warning, ComponentId::Thermal),
    ]);

    let bytes = mgr.encode_dtcs_for_obd();
    assert_eq!(bytes[0], 2); // count
    assert_eq!(bytes.len(), 5); // 1 + 2*2
    assert_eq!(bytes, vec![2, 0x0A, 0x80, 0x02, 0x17]);
}

#[test]
fn history_records_only_newly_set_codes() {
    let mut mgr = DtcManager::<u32>::new();
    let a = Dtc::new("P0A80", "a", DtcSeverity::Critical, ComponentId::Bms);
    let b = Dtc::new("P0217", "b", DtcSeverity::Warning, ComponentId::Thermal);
    mgr.update(vec![a.clone()]);
    mgr.update(vec![a.clone(), b.clone()]);
    assert_eq!(mgr.history(), &[a.clone(), b.clone()]);
    assert_eq!(mgr.active(), &[a.clone(), b.clone()]);
    mgr.add_freeze_frame(7);
    mgr.clear("P0217");
    assert_eq!(mgr.active(), &[a.clone()]);
    mgr.clear_all();
    assert_eq!(mgr.count(), 0);
    assert!(mgr.freeze_frames().is_empty());
    assert_eq!(mgr.history().len(), 2);
}

fn request(data: &[u8]) -> CanFrame {
    CanFrame::new(CanId::new_unchecked(well_known::OBD_REQUEST), data, 0)
}

#[test]
fn obd_mode_01_answers() {
    let mgr = DtcManager::<()>::new();
    let live = ObdLiveEncoded {
        rpm_x4: 12000,
        speed_kmh: 100,
        coolant_offset_c: 130,
        fuel_level: 204,
        module_mv: 0x1234,
    };
    let r = obd_response(&request(&[0x02, 0x01, PID_VEHICLE_SPEED]), &live, &mgr).unwrap();
    assert_eq!(r.id.raw(), well_known::OBD_RESPONSE);
    assert_eq!(r.payload()[3], 100);
    let r = obd_response(&request(&[0x02, 0x01, PID_ENGINE_RPM]), &live, &mgr).unwrap();
    let rpm_raw = ((r.payload()[3] as u16) << 8) | (r.payload()[4] as u16);
    assert_eq!(rpm_raw as f64 / 4.0, 3000.0);
    let r = obd_response(&request(&[0x02, 0x01, PID_CONTROL_MODULE_VOLTAGE]), &live, &mgr)
        .unwrap();
    assert_eq!(r.payload(), &[4, 0x41, 0x42, 0x12, 0x34]);
    assert!(obd_response(&request(&[0x02, 0x01, PID_BATTERY_CURRENT]), &live, &mgr).is_none());
    assert!(obd_response(&request(&[0x02, 0x01]), &live, &mgr).is_none());
    assert!(obd_response(&request(&[0x02]), &live, &mgr).is_none());
    assert!(obd_response(&request(&[0x02, 0x09, 0x02]), &live, &mgr).is_none());
    let not_obd = CanFrame::new(CanId::new_unchecked(0x100), &[0x02, 0x01, PID_ENGINE_RPM], 0);
    assert!(obd_response(&not_obd, &live, &mgr).is_none());
}

#[test]
fn obd_mode_03_dtcs() {
    let mut mgr = DtcManager::<()>::new();
    mgr.update(vec![Dtc::new("P0A80", "test", DtcSeverity::Critical, ComponentId::Bms)]);
    let r = obd_response(&request(&[0x01, 0x03]), &ObdLiveEncoded::default(), &mgr).unwrap();
    assert_eq!(r.payload()[1], 0x43); // Mode 03 response
    assert_eq!(r.payload()[2], 1); // 1 DTC
    assert_eq!(r.payload(), &[4, 0x43, 1, 0x0A, 0x80]);
}

#[test]
fn obd_mode_03_truncates_to_frame() {
    let mut mgr = DtcManager::<()>::new();
    mgr.update(vec![
        Dtc::new("P0A80", "a", DtcSeverity::Critical, ComponentId::Bms),
        Dtc::new("P0A81", "b", DtcSeverity::Fault, ComponentId::Bms),
        Dtc::new("P0A82", "c", DtcSeverity::Critical, ComponentId::Bms),
    ]);
    let r = obd_response(&request(&[0x01, 0x03]), &ObdLiveEncoded::default(), &mgr).unwrap();
    assert_eq!(r.payload(), &[8, 0x43, 3, 0x0A, 0x80, 0x0A, 0x81, 0x0A]);
}

#[test]
fn obd_mode_01_vehicle_speed() {
    let mgr = DtcManager::<()>::new();
    // 100 km/h, as the live data encodes it
    let live = ObdLiveEncoded { speed_kmh: 100, ..ObdLiveEncoded::default() };
    let response =
        obd_response(&request(&[0x02, 0x01, PID_VEHICLE_SPEED]), &live, &mgr);
    assert!(response.is_some(), "Should receive OBD response");
    let response = response.unwrap();
    assert_eq!(response.id.raw(), well_known::OBD_RESPONSE);
    // Byte 3 is the speed value
    assert_eq!(response.payload()[3], 100);
}

#[test]
fn obd_mode_01_rpm() {
    let mgr = DtcManager::<()>::new();
    // 3000 rpm, as the live data encodes it (rpm * 4)
    let live = ObdLiveEncoded { rpm_x4: 12000, ..ObdLiveEncoded::default() };
    let response = obd_response(&request(&[0x02, 0x01, PID_ENGINE_RPM]), &live, &mgr);
    assert!(response.is_some());
    let response = response.unwrap();
    // RPM encoded as (RPM * 4), split into 2 bytes
    let rpm_raw = ((response.payload()[3] as u16) << 8) | (response.payload()[4] as u16);
    let rpm = rpm_raw as f64 / 4.0;
    assert!((rpm - 3000.0).abs() < 1.0, "RPM should be 3000, got {rpm}");
}
