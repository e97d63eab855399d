//! The OBD-II responder's protocol: which requests it answers and the bytes
//! of each answer. Live values reach it already scaled to their wire form.
use vstd::prelude::*;

use crate::can::frame::{CanFrame, CanId};
use crate::can::well_known::{OBD_REQUEST, OBD_RESPONSE};
use crate::diagnostics::dtc_manager::{code_encodable, obd_dtc_bytes, DtcManager};

verus! {

/// OBD-II PID definitions (Mode 01).
pub const PID_ENGINE_RPM: u8 = 0x0C;
pub const PID_VEHICLE_SPEED: u8 = 0x0D;
pub const PID_COOLANT_TEMP: u8 = 0x05;
/// Fuel level, used for the state of charge.
pub const PID_FUEL_LEVEL: u8 = 0x2F;
pub const PID_CONTROL_MODULE_VOLTAGE: u8 = 0x42;
/// Hybrid battery current (reserved).
pub const PID_BATTERY_CURRENT: u8 = 0x49;

/// Live values in the form Mode 01 sends them.
#[derive(Debug, Clone, Copy, PartialEq, Eq, Structural, Default)]
pub struct ObdLiveEncoded {
    /// Motor speed times 4.
    pub rpm_x4: u16,
    /// Vehicle speed in km/h, limited to 0..=255.
    pub speed_kmh: u8,
    /// Coolant temperature plus 40 °C, limited to 0..=255.
    pub coolant_offset_c: u8,
    /// State of charge times 2.55, limited to 0..=255.
    pub fuel_level: u8,
    /// Battery voltage in millivolts.
    pub module_mv: u16,
}

/// The Mode 01 answer for a PID, or none for an unsupported PID.
pub open spec fn mode_01_answer(pid: u8, live: ObdLiveEncoded) -> Option<Seq<u8>> {
    if pid == PID_ENGINE_RPM {
        Some(seq![4u8, 0x41u8, PID_ENGINE_RPM, (live.rpm_x4 / 256) as u8, (live.rpm_x4 % 256) as u8])
    } else if pid == PID_VEHICLE_SPEED {
        Some(seq![3u8, 0x41u8, PID_VEHICLE_SPEED, live.speed_kmh])
    } else if pid == PID_COOLANT_TEMP {
        Some(seq![3u8, 0x41u8, PID_COOLANT_TEMP, live.coolant_offset_c])
    } else if pid == PID_FUEL_LEVEL {
        Some(seq![3u8, 0x41u8, PID_FUEL_LEVEL, live.fuel_level])
    } else if pid == PID_CONTROL_MODULE_VOLTAGE {
        Some(
            seq![
                4u8,
                0x41u8,
                PID_CONTROL_MODULE_VOLTAGE,
                (live.module_mv / 256) as u8,
                (live.module_mv % 256) as u8,
            ],
        )
    } else {
        None
    }
}

/// The Mode 03 answer: its length byte, 0x43, and the stored codes, cut to
/// the 8 bytes a frame holds.
pub open spec fn mode_03_answer(dtc_bytes: Seq<u8>) -> Seq<u8> {
    let full = seq![((dtc_bytes.len() + 1) % 256) as u8, 0x43u8] + dtc_bytes;
    if full.len() <= 8 {
        full
    } else {
        full.take(8)
    }
}

/// The answer to a frame, or none when it is not an OBD request, is too
/// short, asks for an unsupported mode or PID.
pub open spec fn obd_answer(request: CanFrame, live: ObdLiveEncoded, dtc_bytes: Seq<u8>) -> Option<
    Seq<u8>,
> {
    let b = request.bytes();
    if request.id.value() != OBD_REQUEST || b.len() < 2 {
        None
    } else if b[1] == 0x01 {
        if b.len() >= 3 {
            mode_01_answer(b[2], live)
        } else {
            None
        }
    } else if b[1] == 0x03 {
        Some(mode_03_answer(dtc_bytes))
    } else {
        None
    }
}

/// Whether a frame is a Mode 03 request (the only kind whose answer reads the
/// stored codes).
pub open spec fn is_mode_03_request(f: CanFrame) -> bool {
    f.id.value() == OBD_REQUEST && f.bytes().len() >= 2 && f.bytes()[1] == 0x03
}

/// A Mode 03 answer's length byte overflows (and the responder fails) when
/// the count of stored codes leaves 127 modulo 128.
pub open spec fn mode_03_length_fits(count: nat) -> bool {
    count % 128 != 127
}

fn mode_01(pid: u8, live: &ObdLiveEncoded) -> (r: Option<Vec<u8>>)
    ensures
        r matches Some(v) ==> mode_01_answer(pid, *live) == Some(v@),
        r is None ==> mode_01_answer(pid, *live) is None,
        r matches Some(v) ==> v@.len() <= 8,
{
    if pid == PID_ENGINE_RPM {
        Some(vec![4u8, 0x41u8, PID_ENGINE_RPM, (live.rpm_x4 / 256) as u8, (live.rpm_x4 % 256) as u8])
    } else if pid == PID_VEHICLE_SPEED {
        Some(vec![3u8, 0x41u8, PID_VEHICLE_SPEED, live.speed_kmh])
    } else if pid == PID_COOLANT_TEMP {
        Some(vec![3u8, 0x41u8, PID_COOLANT_TEMP, live.coolant_offset_c])
    } else if pid == PID_FUEL_LEVEL {
        Some(vec![3u8, 0x41u8, PID_FUEL_LEVEL, live.fuel_level])
    } else if pid == PID_CONTROL_MODULE_VOLTAGE {
        Some(
            vec![
                4u8,
                0x41u8,
                PID_CONTROL_MODULE_VOLTAGE,
                (live.module_mv / 256) as u8,
                (live.module_mv % 256) as u8,
            ],
        )
    } else {
        None
    }
}

/// The response frame to a received frame, if the responder answers it.
pub fn obd_response<F>(request: &CanFrame, live: &ObdLiveEncoded, dtcs: &DtcManager<F>) -> (r:
    Option<CanFrame>)
    requires
        is_mode_03_request(*request) ==> (forall|i: int|
            0 <= i < dtcs.active_view().len() ==> code_encodable(
                (#[trigger] dtcs.active_view()[i]).code@,
            )),
        is_mode_03_request(*request) ==> mode_03_length_fits(dtcs.active_view().len()),
    ensures
        match obd_answer(*request, *live, obd_dtc_bytes(dtcs.active_view())) {
            Some(answer) => r matches Some(f) && f.id.value() == OBD_RESPONSE && f.bytes()
                == answer && f.timestamp_us == 0,
            None => r is None,
        },
{
    if request.id.raw() != OBD_REQUEST {
        return None;
    }
    let data = request.payload();
    if data.len() < 2 {
        return None;
    }
    let mode = data[1];
    let answer = if mode == 0x01 {
        if data.len() >= 3 {
            mode_01(data[2], live)
        } else {
            None
        }
    } else if mode == 0x03 {
        let dtc_bytes = dtcs.encode_dtcs_for_obd();
        assert(dtc_bytes@.len() % 256 != 255) by {
            assert(dtc_bytes@.len() == 1 + 2 * dtcs.active_view().len());
        }
        let mut response: Vec<u8> = vec![(dtc_bytes.len() % 256) as u8 + 1, 0x43u8];
        let mut i: usize = 0;
        while i < dtc_bytes.len() && response.len() < 8
            invariant
                i <= dtc_bytes@.len(),
                response@.len() == 2 + i,
                response@.len() <= 8,
                response@ == (seq![((dtc_bytes@.len() + 1) % 256) as u8, 0x43u8]
                    + dtc_bytes@).take(2 + i),
            decreases dtc_bytes@.len() - i,
        {
            response.push(dtc_bytes[i]);
            i = i + 1;
        }
        proof {
            let full = seq![((dtc_bytes@.len() + 1) % 256) as u8, 0x43u8] + dtc_bytes@;
            if full.len() <= 8 {
                assert(full.take(full.len() as int) == full);
            }
        }
        Some(response)
    } else {
        None
    };
    match answer {
        Some(bytes) => {
            let f = CanFrame::new(CanId::new_unchecked(OBD_RESPONSE), bytes.as_slice(), 0);
            proof {
                assert(bytes@.len() <= 8);
                assert(bytes@.take(bytes@.len() as int) == bytes@);
            }
            Some(f)
        },
        None => None,
    }
}


/// Every supported Mode 01 PID (engine speed 0x0C, vehicle speed 0x0D,
/// coolant temperature 0x05, fuel level 0x2F, module voltage 0x42) is
/// answered, and only those: the answer repeats the PID after 0x41, starts
/// with the count of bytes that follow, and carries the live value — one byte
/// for speed, coolant and fuel level, two bytes high first for engine speed
/// and voltage.
pub proof fn law_mode_01_answers_supported_pids(
    request: CanFrame,
    live: ObdLiveEncoded,
    dtc_bytes: Seq<u8>,
)
    requires
        request.id.value() == 0x7DF,
        request.bytes().len() >= 3,
        request.bytes()[1] == 0x01,
    ensures
        ({
            let pid = request.bytes()[2];
            let answer = obd_answer(request, live, dtc_bytes);
            &&& (answer is Some) <==> (pid == 0x0C || pid == 0x0D || pid == 0x05 || pid == 0x2F
                || pid == 0x42)
            &&& answer matches Some(a) ==> {
                &&& a.len() >= 4
                &&& a[0] == a.len() - 1
                &&& a[1] == 0x41
                &&& a[2] == pid
            }
            &&& pid == 0x0D ==> answer == Some(seq![3u8, 0x41u8, 0x0Du8, live.speed_kmh])
            &&& pid == 0x05 ==> answer == Some(seq![3u8, 0x41u8, 0x05u8, live.coolant_offset_c])
            &&& pid == 0x2F ==> answer == Some(seq![3u8, 0x41u8, 0x2Fu8, live.fuel_level])
            &&& pid == 0x0C ==> (answer matches Some(a) && a.len() == 5 && a[3] * 256 + a[4]
                == live.rpm_x4)
            &&& pid == 0x42 ==> (answer matches Some(a) && a.len() == 5 && a[3] * 256 + a[4]
                == live.module_mv)
        }),
{
    let pid = request.bytes()[2];
    if pid == 0x0C {
        assert((live.rpm_x4 / 256) as u8 * 256 + (live.rpm_x4 % 256) as u8 == live.rpm_x4);
    }
    if pid == 0x42 {
        assert((live.module_mv / 256) as u8 * 256 + (live.module_mv % 256) as u8
            == live.module_mv);
    }
}

/// A Mode 03 request is always answered: 0x43 after a length byte that counts
/// the stored-code bytes plus one, then as many of those bytes, in order, as
/// fit in the 8 bytes of a frame.
pub proof fn law_mode_03_answers_stored_codes(
    request: CanFrame,
    live: ObdLiveEncoded,
    dtc_bytes: Seq<u8>,
)
    requires
        request.id.value() == 0x7DF,
        request.bytes().len() >= 2,
        request.bytes()[1] == 0x03,
    ensures
        obd_answer(request, live, dtc_bytes) matches Some(a) && {
            &&& a[0] == (dtc_bytes.len() + 1) % 256
            &&& a[1] == 0x43
            &&& a.len() == if dtc_bytes.len() + 2 <= 8 {
                dtc_bytes.len() + 2
            } else {
                8
            }
            &&& forall|i: int| 2 <= i < a.len() ==> a[i] == dtc_bytes[i - 2]
        },
{
}

} // verus!
