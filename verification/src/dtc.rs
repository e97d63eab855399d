use vstd::prelude::*;

use crate::component::{component_label, ComponentId};

verus! {

/// Diagnostic Trouble Code severity levels.
#[derive(Debug, Clone, Copy, PartialEq, Eq, Structural, Hash)]
pub enum DtcSeverity {
    Info,
    Warning,
    Fault,
    Critical,
}

/// The tag a severity is shown under.
pub open spec fn severity_label(s: DtcSeverity) -> &'static str {
    match s {
        DtcSeverity::Info => "INFO",
        DtcSeverity::Warning => "WARN",
        DtcSeverity::Fault => "FAULT",
        DtcSeverity::Critical => "CRIT",
    }
}

impl DtcSeverity {
    /// The tag the severity is shown under, e.g. `CRIT`.
    pub fn label(&self) -> (s: &'static str)
        ensures
            s == severity_label(*self),
    {
        match self {
            DtcSeverity::Info => "INFO",
            DtcSeverity::Warning => "WARN",
            DtcSeverity::Fault => "FAULT",
            DtcSeverity::Critical => "CRIT",
        }
    }
}

/// A Diagnostic Trouble Code following OBD-II-like naming.
#[derive(Debug, PartialEq, Eq, Hash)]
pub struct Dtc {
    pub code: String,
    pub description: String,
    pub severity: DtcSeverity,
    pub source: ComponentId,
}

impl Clone for Dtc {
    /// An equal code.
    fn clone(&self) -> (c: Self)
        ensures
            c == *self,
    {
        Dtc {
            code: self.code.clone(),
            description: self.description.clone(),
            severity: self.severity,
            source: self.source,
        }
    }
}

impl Dtc {
    pub fn new(code: &str, description: &str, severity: DtcSeverity, source: ComponentId) -> (d: Dtc)
        ensures
            d.code@ == code@,
            d.description@ == description@,
            d.severity == severity,
            d.source == source,
    {
        Dtc {
            code: String::from_str(code),
            description: String::from_str(description),
            severity,
            source,
        }
    }

    /// The code as shown in logs: `[CRIT] P0A80 - description (BMS)`.
    pub fn to_display_string(&self) -> (s: String)
        ensures
            s@ == "["@ + severity_label(self.severity)@ + "] "@ + self.code@ + " - "@
                + self.description@ + " ("@ + component_label(self.source)@ + ")"@,
    {
        let mut s = String::from_str("[");
        s.append(self.severity.label());
        s.append("] ");
        s.append(self.code.as_str());
        s.append(" - ");
        s.append(self.description.as_str());
        s.append(" (");
        s.append(self.source.label());
        s.append(")");
        s
    }
}

} // verus!
