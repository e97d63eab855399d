//! Battery management decisions: which limit violations raise which codes,
//! when the pack enters its fault and safe states, its health, and the
//! frames it publishes.
use vstd::prelude::*;

use crate::can::codec::{
    emergency_stop_seen, has_emergency_stop, i16_frame, i32_frame, is_frame, le_bytes_u16,
    le_bytes_u32, u16_frame,
};
use crate::can::frame::CanFrame;
use crate::can::well_known::{BMS_CURRENT, BMS_SOC, BMS_TEMPERATURE, BMS_VOLTAGE};
use crate::dtc::{Dtc, DtcSeverity};
use crate::state::bms_state::BmsState;
use crate::subsystems::subsystem::SubsystemHealth;

verus! {

/// Which of the pack's limits the latest readings violate, each the outcome of
/// one comparison against the configured limit.
#[derive(Debug, Clone, Copy, PartialEq, Eq, Structural)]
pub struct BmsLimits {
    /// Cell voltage (pack voltage over cell count) above the maximum.
    pub cell_over_voltage: bool,
    /// Cell voltage below the minimum.
    pub cell_under_voltage: bool,
    /// Pack temperature above the maximum.
    pub pack_over_temperature: bool,
    /// Pack temperature below the minimum.
    pub pack_under_temperature: bool,
}

/// A limit violation the BMS reports.
#[derive(Debug, Clone, Copy, PartialEq, Eq, Structural)]
pub enum BmsFault {
    CellOverVoltage,
    CellUnderVoltage,
    PackOverTemperature,
    PackUnderTemperature,
}

pub open spec fn bms_fault_code(f: BmsFault) -> &'static str {
    match f {
        BmsFault::CellOverVoltage => "P0A80",
        BmsFault::CellUnderVoltage => "P0A81",
        BmsFault::PackOverTemperature => "P0A82",
        BmsFault::PackUnderTemperature => "P0A83",
    }
}

pub open spec fn bms_fault_severity(f: BmsFault) -> DtcSeverity {
    match f {
        BmsFault::CellOverVoltage => DtcSeverity::Critical,
        BmsFault::CellUnderVoltage => DtcSeverity::Fault,
        BmsFault::PackOverTemperature => DtcSeverity::Critical,
        BmsFault::PackUnderTemperature => DtcSeverity::Warning,
    }
}

impl BmsFault {
    /// The trouble code the violation is reported under, e.g. `P0A80`.
    pub fn code(&self) -> (s: &'static str)
        ensures
            s == bms_fault_code(*self),
    {
        match self {
            BmsFault::CellOverVoltage => "P0A80",
            BmsFault::CellUnderVoltage => "P0A81",
            BmsFault::PackOverTemperature => "P0A82",
            BmsFault::PackUnderTemperature => "P0A83",
        }
    }

    pub fn severity(&self) -> (s: DtcSeverity)
        ensures
            s == bms_fault_severity(*self),
    {
        match self {
            BmsFault::CellOverVoltage => DtcSeverity::Critical,
            BmsFault::CellUnderVoltage => DtcSeverity::Fault,
            BmsFault::PackOverTemperature => DtcSeverity::Critical,
            BmsFault::PackUnderTemperature => DtcSeverity::Warning,
        }
    }
}

/// The violations reported, in the order they are checked.
pub open spec fn bms_fault_list(l: BmsLimits) -> Seq<BmsFault> {
    let a: Seq<BmsFault> = if l.cell_over_voltage {
        seq![BmsFault::CellOverVoltage]
    } else {
        Seq::empty()
    };
    let b = if l.cell_under_voltage {
        a.push(BmsFault::CellUnderVoltage)
    } else {
        a
    };
    let c = if l.pack_over_temperature {
        b.push(BmsFault::PackOverTemperature)
    } else {
        b
    };
    if l.pack_under_temperature {
        c.push(BmsFault::PackUnderTemperature)
    } else {
        c
    }
}

pub fn bms_faults(l: &BmsLimits) -> (faults: Vec<BmsFault>)
    ensures
        faults@ == bms_fault_list(*l),
{
    let mut faults: Vec<BmsFault> = Vec::new();
    if l.cell_over_voltage {
        faults.push(BmsFault::CellOverVoltage);
    }
    if l.cell_under_voltage {
        faults.push(BmsFault::CellUnderVoltage);
    }
    if l.pack_over_temperature {
        faults.push(BmsFault::PackOverTemperature);
    }
    if l.pack_under_temperature {
        faults.push(BmsFault::PackUnderTemperature);
    }
    faults
}

/// Whether any of the codes is critical.
pub open spec fn any_critical(dtcs: Seq<Dtc>) -> bool {
    exists|i: int| 0 <= i < dtcs.len() && (#[trigger] dtcs[i]).severity == DtcSeverity::Critical
}

/// The state after a fault check that found `dtcs`.
pub open spec fn bms_state_after_check(s: BmsState, dtcs: Seq<Dtc>) -> BmsState {
    if any_critical(dtcs) {
        BmsState::Fault
    } else {
        s
    }
}

/// Critical, fault, and safe states are faults; otherwise any active code degrades.
pub open spec fn bms_health_of(s: BmsState, has_dtcs: bool) -> SubsystemHealth {
    match s {
        BmsState::Fault | BmsState::SafeState => SubsystemHealth::Fault,
        _ => if has_dtcs {
            SubsystemHealth::Degraded
        } else {
            SubsystemHealth::Nominal
        },
    }
}

impl BmsState {
    /// Whether a tick does any work: a pack in its safe state ignores ticks.
    pub fn runs_tick(self) -> (b: bool)
        ensures
            b == (self != BmsState::SafeState),
    {
        self != BmsState::SafeState
    }

    /// A critical code sends the pack into its fault state.
    pub fn after_fault_check(self, dtcs: &Vec<Dtc>) -> (s: BmsState)
        ensures
            s == bms_state_after_check(self, dtcs@),
    {
        let mut i: usize = 0;
        while i < dtcs.len()
            invariant
                i <= dtcs@.len(),
                forall|j: int| 0 <= j < i ==> (#[trigger] dtcs@[j]).severity != DtcSeverity::Critical,
            decreases dtcs@.len() - i,
        {
            if dtcs[i].severity == DtcSeverity::Critical {
                return BmsState::Fault;
            }
            i = i + 1;
        }
        self
    }

    /// An emergency stop among the received frames puts the pack in its safe state.
    pub fn after_frames(self, frames: &Vec<CanFrame>) -> (s: BmsState)
        ensures
            s == (if has_emergency_stop(frames@) {
                BmsState::SafeState
            } else {
                self
            }),
    {
        if emergency_stop_seen(frames) {
            BmsState::SafeState
        } else {
            self
        }
    }

    pub fn health(self, has_dtcs: bool) -> (h: SubsystemHealth)
        ensures
            h == bms_health_of(self, has_dtcs),
    {
        match self {
            BmsState::Fault | BmsState::SafeState => SubsystemHealth::Fault,
            _ => if has_dtcs {
                SubsystemHealth::Degraded
            } else {
                SubsystemHealth::Nominal
            },
        }
    }
}

/// The frames a tick publishes: state of charge in hundredths of a percent,
/// pack voltage in millivolts, pack current in milliamps, and pack
/// temperature in tenths of a degree.
pub fn bms_frames(soc_centi_pct: u16, millivolts: i32, milliamps: i32, deci_celsius: i16) -> (v:
    Vec<CanFrame>)
    ensures
        v@.len() == 4,
        is_frame(v@[0], BMS_SOC, le_bytes_u16(soc_centi_pct)),
        is_frame(v@[1], BMS_VOLTAGE, le_bytes_u32(millivolts as u32)),
        is_frame(v@[2], BMS_CURRENT, le_bytes_u32(milliamps as u32)),
        is_frame(v@[3], BMS_TEMPERATURE, le_bytes_u16(deci_celsius as u16)),
{
    let mut v: Vec<CanFrame> = Vec::new();
    v.push(u16_frame(BMS_SOC, soc_centi_pct));
    v.push(i32_frame(BMS_VOLTAGE, millivolts));
    v.push(i32_frame(BMS_CURRENT, milliamps));
    v.push(i16_frame(BMS_TEMPERATURE, deci_celsius));
    v
}

/// A fault check never takes the pack out of its fault state, and it enters
/// that state exactly when a critical code is active.
pub proof fn law_bms_fault_is_sticky(s: BmsState, dtcs: Seq<Dtc>)
    ensures
        s == BmsState::Fault ==> bms_state_after_check(s, dtcs) == BmsState::Fault,
        any_critical(dtcs) ==> bms_state_after_check(s, dtcs) == BmsState::Fault,
        !any_critical(dtcs) ==> bms_state_after_check(s, dtcs) == s,
{
}

/// Over-voltage and over-temperature are the critical violations.
pub proof fn law_bms_critical_faults(l: BmsLimits)
    ensures
        (exists|i: int|
            0 <= i < bms_fault_list(l).len() && bms_fault_severity(#[trigger] bms_fault_list(l)[i])
                == DtcSeverity::Critical) <==> (l.cell_over_voltage || l.pack_over_temperature),
{
    let f = bms_fault_list(l);
    if l.cell_over_voltage {
        assert(bms_fault_severity(f[0]) == DtcSeverity::Critical);
    } else if l.pack_over_temperature {
        let k = f.len() - 1;
        if l.pack_under_temperature {
            assert(bms_fault_severity(f[k - 1]) == DtcSeverity::Critical);
        } else {
            assert(bms_fault_severity(f[k]) == DtcSeverity::Critical);
        }
    }
}


/// A limit violation is reported exactly when its limit is violated, each at
/// most once, with the BMS codes P0A80 (cell over-voltage, critical), P0A81
/// (cell under-voltage, fault), P0A82 (pack over-temperature, critical) and
/// P0A83 (pack under-temperature, warning).
pub proof fn law_bms_reports_each_violation(l: BmsLimits)
    ensures
        bms_fault_list(l).contains(BmsFault::CellOverVoltage) == l.cell_over_voltage,
        bms_fault_list(l).contains(BmsFault::CellUnderVoltage) == l.cell_under_voltage,
        bms_fault_list(l).contains(BmsFault::PackOverTemperature) == l.pack_over_temperature,
        bms_fault_list(l).contains(BmsFault::PackUnderTemperature) == l.pack_under_temperature,
        bms_fault_list(l).len() == (if l.cell_over_voltage { 1int } else { 0int }) + (
        if l.cell_under_voltage { 1int } else { 0int }) + (if l.pack_over_temperature {
            1int
        } else {
            0int
        }) + (if l.pack_under_temperature { 1int } else { 0int }),
        bms_fault_code(BmsFault::CellOverVoltage) == "P0A80" && bms_fault_severity(
            BmsFault::CellOverVoltage,
        ) == DtcSeverity::Critical,
        bms_fault_code(BmsFault::CellUnderVoltage) == "P0A81" && bms_fault_severity(
            BmsFault::CellUnderVoltage,
        ) == DtcSeverity::Fault,
        bms_fault_code(BmsFault::PackOverTemperature) == "P0A82" && bms_fault_severity(
            BmsFault::PackOverTemperature,
        ) == DtcSeverity::Critical,
        bms_fault_code(BmsFault::PackUnderTemperature) == "P0A83" && bms_fault_severity(
            BmsFault::PackUnderTemperature,
        ) == DtcSeverity::Warning,
{
    let f = bms_fault_list(l);
    if l.cell_over_voltage {
        assert(f[0] == BmsFault::CellOverVoltage);
    }
    if l.cell_under_voltage {
        assert(f[if l.cell_over_voltage { 1int } else { 0int }] == BmsFault::CellUnderVoltage);
    }
    if l.pack_over_temperature {
        assert(f[(if l.cell_over_voltage { 1int } else { 0int }) + (if l.cell_under_voltage {
            1int
        } else {
            0int
        })] == BmsFault::PackOverTemperature);
    }
    if l.pack_under_temperature {
        assert(f[f.len() - 1] == BmsFault::PackUnderTemperature);
    }
}

} // verus!
