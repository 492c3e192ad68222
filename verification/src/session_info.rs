//! Typed views of parts of the session document.
//!
//! The session document itself is delivered verbatim as text and parsed by a
//! downstream, best-effort deserializer outside this library; these are the
//! plain data shapes that parse fills in, kept here so consumers and the
//! decoding logic share one vocabulary.

use vstd::prelude::*;

verus! {

/// A boolean the session document stores as the number one or zero.
#[derive(Debug, Clone, Copy, PartialEq, Eq, Structural)]
pub struct InfoBool(pub bool);

/// The `InfoBool` a session-document number denotes: one and zero are the
/// two booleans, anything else is rejected.
pub open spec fn info_bool_from_u8(v: u8) -> Option<InfoBool> {
    if v == 0 {
        Some(InfoBool(false))
    } else if v == 1 {
        Some(InfoBool(true))
    } else {
        None
    }
}

impl InfoBool {
    /// Decodes the document's number encoding of a boolean.
    pub fn from_u8(v: u8) -> (r: Option<InfoBool>)
        ensures
            r == info_bool_from_u8(v),
    {
        if v == 0 {
            Some(InfoBool(false))
        } else if v == 1 {
            Some(InfoBool(true))
        } else {
            None
        }
    }

    /// The boolean itself.
    pub fn value(&self) -> (b: bool)
        ensures
            b == self.0,
    {
        self.0
    }
}

/// A numeric session-document field that carries its unit of measurement,
/// stored in the document as text like "1.23 km".
#[derive(Debug, Clone)]
pub struct Measurement<V> {
    pub value: V,
    pub unit: Option<String>,
}

/// Where the simulator writes telemetry to disk.
#[derive(Debug, Clone)]
pub struct TelemetryOptions {
    pub telemetry_disk_file: String,
}

/// The camera groups of the session.
#[derive(Debug, Clone)]
pub struct CameraInfo {
    pub groups: Vec<CameraGroup>,
}

/// One selectable group of cameras.
#[derive(Debug, Clone)]
pub struct CameraGroup {
    pub group_name: String,
    pub group_num: i32,
    pub is_scenic: Option<bool>,
    pub cameras: Vec<CameraData>,
}

/// One camera of a group.
#[derive(Debug, Clone)]
pub struct CameraData {
    pub camera_name: String,
    pub camera_num: i32,
}

/// The radios of the session.
#[derive(Debug, Clone)]
pub struct RadioInfo {
    pub selected_radio_num: i32,
    pub radios: Vec<RadioData>,
}

/// One radio with its frequencies.
#[derive(Debug, Clone)]
pub struct RadioData {
    pub radio_num: i32,
    pub hop_count: i32,
    pub num_frequencies: i32,
    pub tuned_to_frequency_num: i32,
    pub scanning_is_on: i32,
    pub frequencies: Vec<RadioFrequencyData>,
}

/// One radio frequency.
#[derive(Debug, Clone)]
pub struct RadioFrequencyData {
    pub frequency_num: i32,
    pub frequency_name: String,
    pub priority: i32,
    pub entry_idx: i32,
    pub club_id: i32,
    pub can_scan: i32,
    pub can_squawk: i32,
    pub muted: i32,
    pub is_mutable: i32,
    pub is_deletable: i32,
}

} // verus!
