//! The tagged value type decoded values are delivered as, and the typed,
//! range-checked conversions out of it.
//!
//! Every conversion is total and recoverable: an incompatible source variant
//! is a `TypeError`, a numeric conversion that would lose the integer range
//! is an `ExceedsVariableRange`; nothing panics. The semantically overloaded
//! integer and bitfield variants convert further into the closed enumeration
//! and flag types below.

use vstd::prelude::*;
use vstd::string::StringExecFns;
use crate::error::IrError;
use crate::full_value::SingleVarType;
use crate::float_bits::{
    f32_bits_of_int, f32_bits_round_to_i32, f32_bits_to_f64_bits, f32_round_to_i32,
    f64_bits_of_f32, f64_bits_of_int, f64_bits_round_to_i32, f64_round_to_i32, i32_to_f32_bits,
    i32_to_f64_bits,
};
use crate::values::{exec_u32_of_i32, u32_of_i32};

verus! {

/// One decoded telemetry value.
///
/// Floating-point elements are carried as their raw IEEE 754 bit patterns
/// (`Float` holds the 32 bits of a single, `Double` the 64 bits of a
/// double), so a value round-trips to the wire bytes exactly. `ETCount` is
/// the data-less sentinel type. `Array` holds one element per declared count
/// when the count exceeds one.
#[derive(Debug, PartialEq)]
pub enum IrValue {
    Char(u8),
    Bool(bool),
    Int(i32),
    BitField(i32),
    Float(u32),
    Double(u64),
    ETCount,
    Array(Vec<IrValue>),
}

/// What converting a value to `u8` yields: only a `Char` converts.
pub open spec fn to_u8_spec(v: IrValue) -> Result<u8, IrError> {
    match v {
        IrValue::Char(c) => Ok(c),
        _ => Err(IrError::TypeError),
    }
}

/// What converting a value to `bool` yields: only a `Bool` converts; there
/// is no truthy coercion from integers.
pub open spec fn to_bool_spec(v: IrValue) -> Result<bool, IrError> {
    match v {
        IrValue::Bool(b) => Ok(b),
        _ => Err(IrError::TypeError),
    }
}

/// What converting a value to `i32` yields: integer-like variants convert
/// directly, floating-point variants round to the nearest integer (halves
/// away from zero) and fail with `ExceedsVariableRange` beyond the integer's
/// range.
pub open spec fn to_i32_spec(v: IrValue) -> Result<i32, IrError> {
    match v {
        IrValue::Char(c) => Ok(c as i32),
        IrValue::Int(x) => Ok(x),
        IrValue::BitField(x) => Ok(x),
        IrValue::Float(bits) => match f32_round_to_i32(bits) {
            Some(x) => Ok(x),
            None => Err(IrError::ExceedsVariableRange),
        },
        IrValue::Double(bits) => match f64_round_to_i32(bits) {
            Some(x) => Ok(x),
            None => Err(IrError::ExceedsVariableRange),
        },
        _ => Err(IrError::TypeError),
    }
}

/// What converting a value to `i64` yields: the `i32` conversion, widened.
pub open spec fn to_i64_spec(v: IrValue) -> Result<i64, IrError> {
    match to_i32_spec(v) {
        Ok(x) => Ok(x as i64),
        Err(e) => Err(e),
    }
}

/// What converting a value to `isize` yields: the `i32` conversion, widened.
pub open spec fn to_isize_spec(v: IrValue) -> Result<isize, IrError> {
    match to_i32_spec(v) {
        Ok(x) => Ok(x as isize),
        Err(e) => Err(e),
    }
}

/// What converting a value to single-precision bits yields: an `Int` becomes
/// the nearest single-precision value, a `Float` is already one.
pub open spec fn to_f32_bits_spec(v: IrValue) -> Result<u32, IrError> {
    match v {
        IrValue::Int(x) => Ok(
            f32_bits_of_int(
                if x < 0 {
                    -(x as int)
                } else {
                    x as int
                },
                x < 0,
            ),
        ),
        IrValue::Float(bits) => Ok(bits),
        _ => Err(IrError::TypeError),
    }
}

/// What converting a value to double-precision bits yields: an `Int`
/// converts exactly, a `Float` widens exactly, a `Double` is already one.
pub open spec fn to_f64_bits_spec(v: IrValue) -> Result<u64, IrError> {
    match v {
        IrValue::Int(x) => Ok(
            f64_bits_of_int(
                if x < 0 {
                    -(x as int)
                } else {
                    x as int
                },
                x < 0,
            ),
        ),
        IrValue::Float(bits) => Ok(f64_bits_of_f32(bits)),
        IrValue::Double(bits) => Ok(bits),
        _ => Err(IrError::TypeError),
    }
}

impl IrValue {
    /// This value as a byte.
    pub fn to_u8(&self) -> (r: Result<u8, IrError>)
        ensures
            r == to_u8_spec(*self),
    {
        match self {
            IrValue::Char(c) => Ok(*c),
            _ => Err(IrError::TypeError),
        }
    }

    /// This value as a boolean.
    pub fn to_bool(&self) -> (r: Result<bool, IrError>)
        ensures
            r == to_bool_spec(*self),
    {
        match self {
            IrValue::Bool(b) => Ok(*b),
            _ => Err(IrError::TypeError),
        }
    }

    /// This value as a 32-bit integer, rounding floating-point values to the
    /// nearest integer and range-checking them.
    pub fn to_i32(&self) -> (r: Result<i32, IrError>)
        ensures
            r == to_i32_spec(*self),
    {
        match self {
            IrValue::Char(c) => Ok(*c as i32),
            IrValue::Int(x) => Ok(*x),
            IrValue::BitField(x) => Ok(*x),
            IrValue::Float(bits) => match f32_bits_round_to_i32(*bits) {
                Some(x) => Ok(x),
                None => Err(IrError::ExceedsVariableRange),
            },
            IrValue::Double(bits) => match f64_bits_round_to_i32(*bits) {
                Some(x) => Ok(x),
                None => Err(IrError::ExceedsVariableRange),
            },
            _ => Err(IrError::TypeError),
        }
    }

    /// This value as a 64-bit integer (the 32-bit conversion, widened).
    pub fn to_i64(&self) -> (r: Result<i64, IrError>)
        ensures
            r == to_i64_spec(*self),
    {
        match self.to_i32() {
            Ok(x) => Ok(x as i64),
            Err(e) => Err(e),
        }
    }

    /// This value as a pointer-sized integer (the 32-bit conversion,
    /// widened).
    pub fn to_isize(&self) -> (r: Result<isize, IrError>)
        ensures
            r == to_isize_spec(*self),
    {
        match self.to_i32() {
            Ok(x) => Ok(x as isize),
            Err(e) => Err(e),
        }
    }

    /// This value as the bit pattern of a single-precision float.
    pub fn to_f32_bits(&self) -> (r: Result<u32, IrError>)
        ensures
            r == to_f32_bits_spec(*self),
    {
        match self {
            IrValue::Int(x) => Ok(i32_to_f32_bits(*x)),
            IrValue::Float(bits) => Ok(*bits),
            _ => Err(IrError::TypeError),
        }
    }

    /// This value as the bit pattern of a double-precision float.
    pub fn to_f64_bits(&self) -> (r: Result<u64, IrError>)
        ensures
            r == to_f64_bits_spec(*self),
    {
        match self {
            IrValue::Int(x) => Ok(i32_to_f64_bits(*x)),
            IrValue::Float(bits) => Ok(f32_bits_to_f64_bits(*bits)),
            IrValue::Double(bits) => Ok(*bits),
            _ => Err(IrError::TypeError),
        }
    }
}

/// Where the car is relative to the track and pits.
#[derive(Debug, Clone, Copy, PartialEq, Eq, Structural)]
pub enum TrackLocation {
    NotInWorld,
    OffTrack,
    InPitStall,
    AproachingPits,
    OnTrack,
}

/// The `TrackLocation` a raw discriminant denotes.
pub open spec fn track_location_from_i32(v: i32) -> Option<TrackLocation> {
    if v == -1 {
        Some(TrackLocation::NotInWorld)
    } else if v == 0 {
        Some(TrackLocation::OffTrack)
    } else if v == 1 {
        Some(TrackLocation::InPitStall)
    } else if v == 2 {
        Some(TrackLocation::AproachingPits)
    } else if v == 3 {
        Some(TrackLocation::OnTrack)
    } else {
        None
    }
}

/// What converting a raw value to `TrackLocation` yields: an `Int` or `BitField`
/// carrying a known discriminant converts, everything else is a `TypeError`.
pub open spec fn track_location_from_value_spec(v: IrValue) -> Result<TrackLocation, IrError> {
    match v {
        IrValue::Int(x) => match track_location_from_i32(x) {
            Some(t) => Ok(t),
            None => Err(IrError::TypeError),
        },
        IrValue::BitField(x) => match track_location_from_i32(x) {
            Some(t) => Ok(t),
            None => Err(IrError::TypeError),
        },
        _ => Err(IrError::TypeError),
    }
}

impl TrackLocation {
    /// The display name of this state.
    pub open spec fn label_spec(&self) -> Seq<char> {
        match self {
            TrackLocation::NotInWorld => "NotInWorld"@,
            TrackLocation::OffTrack => "OffTrack"@,
            TrackLocation::InPitStall => "InPitStall"@,
            TrackLocation::AproachingPits => "AproachingPits"@,
            TrackLocation::OnTrack => "OnTrack"@,
        }
    }

    /// Decodes a raw discriminant.
    pub fn from_i32(v: i32) -> (r: Option<Self>)
        ensures
            r == track_location_from_i32(v),
    {
        if v == -1 {
            Some(TrackLocation::NotInWorld)
        } else if v == 0 {
            Some(TrackLocation::OffTrack)
        } else if v == 1 {
            Some(TrackLocation::InPitStall)
        } else if v == 2 {
            Some(TrackLocation::AproachingPits)
        } else if v == 3 {
            Some(TrackLocation::OnTrack)
        } else {
            None
        }
    }

    /// Converts a raw `Int` or `BitField` value, failing with `TypeError` on
    /// any other variant or an unknown discriminant.
    pub fn from_value(v: &IrValue) -> (r: Result<Self, IrError>)
        ensures
            r == track_location_from_value_spec(*v),
    {
        match v {
            IrValue::Int(x) => match Self::from_i32(*x) {
                Some(t) => Ok(t),
                None => Err(IrError::TypeError),
            },
            IrValue::BitField(x) => match Self::from_i32(*x) {
                Some(t) => Ok(t),
                None => Err(IrError::TypeError),
            },
            _ => Err(IrError::TypeError),
        }
    }

    /// The display name of this state.
    pub fn label(&self) -> (s: String)
        ensures
            s@ == self.label_spec(),
    {
        match self {
            TrackLocation::NotInWorld => String::from_str("NotInWorld"),
            TrackLocation::OffTrack => String::from_str("OffTrack"),
            TrackLocation::InPitStall => String::from_str("InPitStall"),
            TrackLocation::AproachingPits => String::from_str("AproachingPits"),
            TrackLocation::OnTrack => String::from_str("OnTrack"),
        }
    }
}

/// The material under the car.
#[derive(Debug, Clone, Copy, PartialEq, Eq, Structural)]
pub enum TrackSurface {
    SurfaceNotInWorld,
    UndefinedMaterial,
    Asphalt1Material,
    Asphalt2Material,
    Asphalt3Material,
    Asphalt4Material,
    Concrete1Material,
    Concrete2Material,
    RacingDirt1Material,
    RacingDirt2Material,
    Paint1Material,
    Paint2Material,
    Rumble1Material,
    Rumble2Material,
    Rumble3Material,
    Rumble4Material,
    Grass1Material,
    Grass2Material,
    Grass3Material,
    Grass4Material,
    Dirt1Material,
    Dirt2Material,
    Dirt3Material,
    Dirt4Material,
    SandMaterial,
    Gravel1Material,
    Gravel2Material,
    GrasscreteMaterial,
    AstroturfMaterial,
}

/// The `TrackSurface` a raw discriminant denotes.
pub open spec fn track_surface_from_i32(v: i32) -> Option<TrackSurface> {
    if v == -1 {
        Some(TrackSurface::SurfaceNotInWorld)
    } else if v == 0 {
        Some(TrackSurface::UndefinedMaterial)
    } else if v == 1 {
        Some(TrackSurface::Asphalt1Material)
    } else if v == 2 {
        Some(TrackSurface::Asphalt2Material)
    } else if v == 3 {
        Some(TrackSurface::Asphalt3Material)
    } else if v == 4 {
        Some(TrackSurface::Asphalt4Material)
    } else if v == 5 {
        Some(TrackSurface::Concrete1Material)
    } else if v == 6 {
        Some(TrackSurface::Concrete2Material)
    } else if v == 7 {
        Some(TrackSurface::RacingDirt1Material)
    } else if v == 8 {
        Some(TrackSurface::RacingDirt2Material)
    } else if v == 9 {
        Some(TrackSurface::Paint1Material)
    } else if v == 10 {
        Some(TrackSurface::Paint2Material)
    } else if v == 11 {
        Some(TrackSurface::Rumble1Material)
    } else if v == 12 {
        Some(TrackSurface::Rumble2Material)
    } else if v == 13 {
        Some(TrackSurface::Rumble3Material)
    } else if v == 14 {
        Some(TrackSurface::Rumble4Material)
    } else if v == 15 {
        Some(TrackSurface::Grass1Material)
    } else if v == 16 {
        Some(TrackSurface::Grass2Material)
    } else if v == 17 {
        Some(TrackSurface::Grass3Material)
    } else if v == 18 {
        Some(TrackSurface::Grass4Material)
    } else if v == 19 {
        Some(TrackSurface::Dirt1Material)
    } else if v == 20 {
        Some(TrackSurface::Dirt2Material)
    } else if v == 21 {
        Some(TrackSurface::Dirt3Material)
    } else if v == 22 {
        Some(TrackSurface::Dirt4Material)
    } else if v == 23 {
        Some(TrackSurface::SandMaterial)
    } else if v == 24 {
        Some(TrackSurface::Gravel1Material)
    } else if v == 25 {
        Some(TrackSurface::Gravel2Material)
    } else if v == 26 {
        Some(TrackSurface::GrasscreteMaterial)
    } else if v == 27 {
        Some(TrackSurface::AstroturfMaterial)
    } else {
        None
    }
}

/// What converting a raw value to `TrackSurface` yields: an `Int` or `BitField`
/// carrying a known discriminant converts, everything else is a `TypeError`.
pub open spec fn track_surface_from_value_spec(v: IrValue) -> Result<TrackSurface, IrError> {
    match v {
        IrValue::Int(x) => match track_surface_from_i32(x) {
            Some(t) => Ok(t),
            None => Err(IrError::TypeError),
        },
        IrValue::BitField(x) => match track_surface_from_i32(x) {
            Some(t) => Ok(t),
            None => Err(IrError::TypeError),
        },
        _ => Err(IrError::TypeError),
    }
}

impl TrackSurface {
    /// The display name of this state.
    pub open spec fn label_spec(&self) -> Seq<char> {
        match self {
            TrackSurface::SurfaceNotInWorld => "SurfaceNotInWorld"@,
            TrackSurface::UndefinedMaterial => "UndefinedMaterial"@,
            TrackSurface::Asphalt1Material => "Asphalt1Material"@,
            TrackSurface::Asphalt2Material => "Asphalt2Material"@,
            TrackSurface::Asphalt3Material => "Asphalt3Material"@,
            TrackSurface::Asphalt4Material => "Asphalt4Material"@,
            TrackSurface::Concrete1Material => "Concrete1Material"@,
            TrackSurface::Concrete2Material => "Concrete2Material"@,
            TrackSurface::RacingDirt1Material => "RacingDirt1Material"@,
            TrackSurface::RacingDirt2Material => "RacingDirt2Material"@,
            TrackSurface::Paint1Material => "Paint1Material"@,
            TrackSurface::Paint2Material => "Paint2Material"@,
            TrackSurface::Rumble1Material => "Rumble1Material"@,
            TrackSurface::Rumble2Material => "Rumble2Material"@,
            TrackSurface::Rumble3Material => "Rumble3Material"@,
            TrackSurface::Rumble4Material => "Rumble4Material"@,
            TrackSurface::Grass1Material => "Grass1Material"@,
            TrackSurface::Grass2Material => "Grass2Material"@,
            TrackSurface::Grass3Material => "Grass3Material"@,
            TrackSurface::Grass4Material => "Grass4Material"@,
            TrackSurface::Dirt1Material => "Dirt1Material"@,
            TrackSurface::Dirt2Material => "Dirt2Material"@,
            TrackSurface::Dirt3Material => "Dirt3Material"@,
            TrackSurface::Dirt4Material => "Dirt4Material"@,
            TrackSurface::SandMaterial => "SandMaterial"@,
            TrackSurface::Gravel1Material => "Gravel1Material"@,
            TrackSurface::Gravel2Material => "Gravel2Material"@,
            TrackSurface::GrasscreteMaterial => "GrasscreteMaterial"@,
            TrackSurface::AstroturfMaterial => "AstroturfMaterial"@,
        }
    }

    /// Decodes a raw discriminant.
    pub fn from_i32(v: i32) -> (r: Option<Self>)
        ensures
            r == track_surface_from_i32(v),
    {
        if v == -1 {
            Some(TrackSurface::SurfaceNotInWorld)
        } else if v == 0 {
            Some(TrackSurface::UndefinedMaterial)
        } else if v == 1 {
            Some(TrackSurface::Asphalt1Material)
        } else if v == 2 {
            Some(TrackSurface::Asphalt2Material)
        } else if v == 3 {
            Some(TrackSurface::Asphalt3Material)
        } else if v == 4 {
            Some(TrackSurface::Asphalt4Material)
        } else if v == 5 {
            Some(TrackSurface::Concrete1Material)
        } else if v == 6 {
            Some(TrackSurface::Concrete2Material)
        } else if v == 7 {
            Some(TrackSurface::RacingDirt1Material)
        } else if v == 8 {
            Some(TrackSurface::RacingDirt2Material)
        } else if v == 9 {
            Some(TrackSurface::Paint1Material)
        } else if v == 10 {
            Some(TrackSurface::Paint2Material)
        } else if v == 11 {
            Some(TrackSurface::Rumble1Material)
        } else if v == 12 {
            Some(TrackSurface::Rumble2Material)
        } else if v == 13 {
            Some(TrackSurface::Rumble3Material)
        } else if v == 14 {
            Some(TrackSurface::Rumble4Material)
        } else if v == 15 {
            Some(TrackSurface::Grass1Material)
        } else if v == 16 {
            Some(TrackSurface::Grass2Material)
        } else if v == 17 {
            Some(TrackSurface::Grass3Material)
        } else if v == 18 {
            Some(TrackSurface::Grass4Material)
        } else if v == 19 {
            Some(TrackSurface::Dirt1Material)
        } else if v == 20 {
            Some(TrackSurface::Dirt2Material)
        } else if v == 21 {
            Some(TrackSurface::Dirt3Material)
        } else if v == 22 {
            Some(TrackSurface::Dirt4Material)
        } else if v == 23 {
            Some(TrackSurface::SandMaterial)
        } else if v == 24 {
            Some(TrackSurface::Gravel1Material)
        } else if v == 25 {
            Some(TrackSurface::Gravel2Material)
        } else if v == 26 {
            Some(TrackSurface::GrasscreteMaterial)
        } else if v == 27 {
            Some(TrackSurface::AstroturfMaterial)
        } else {
            None
        }
    }

    /// Converts a raw `Int` or `BitField` value, failing with `TypeError` on
    /// any other variant or an unknown discriminant.
    pub fn from_value(v: &IrValue) -> (r: Result<Self, IrError>)
        ensures
            r == track_surface_from_value_spec(*v),
    {
        match v {
            IrValue::Int(x) => match Self::from_i32(*x) {
                Some(t) => Ok(t),
                None => Err(IrError::TypeError),
            },
            IrValue::BitField(x) => match Self::from_i32(*x) {
                Some(t) => Ok(t),
                None => Err(IrError::TypeError),
            },
            _ => Err(IrError::TypeError),
        }
    }

    /// The display name of this state.
    pub fn label(&self) -> (s: String)
        ensures
            s@ == self.label_spec(),
    {
        match self {
            TrackSurface::SurfaceNotInWorld => String::from_str("SurfaceNotInWorld"),
            TrackSurface::UndefinedMaterial => String::from_str("UndefinedMaterial"),
            TrackSurface::Asphalt1Material => String::from_str("Asphalt1Material"),
            TrackSurface::Asphalt2Material => String::from_str("Asphalt2Material"),
            TrackSurface::Asphalt3Material => String::from_str("Asphalt3Material"),
            TrackSurface::Asphalt4Material => String::from_str("Asphalt4Material"),
            TrackSurface::Concrete1Material => String::from_str("Concrete1Material"),
            TrackSurface::Concrete2Material => String::from_str("Concrete2Material"),
            TrackSurface::RacingDirt1Material => String::from_str("RacingDirt1Material"),
            TrackSurface::RacingDirt2Material => String::from_str("RacingDirt2Material"),
            TrackSurface::Paint1Material => String::from_str("Paint1Material"),
            TrackSurface::Paint2Material => String::from_str("Paint2Material"),
            TrackSurface::Rumble1Material => String::from_str("Rumble1Material"),
            TrackSurface::Rumble2Material => String::from_str("Rumble2Material"),
            TrackSurface::Rumble3Material => String::from_str("Rumble3Material"),
            TrackSurface::Rumble4Material => String::from_str("Rumble4Material"),
            TrackSurface::Grass1Material => String::from_str("Grass1Material"),
            TrackSurface::Grass2Material => String::from_str("Grass2Material"),
            TrackSurface::Grass3Material => String::from_str("Grass3Material"),
            TrackSurface::Grass4Material => String::from_str("Grass4Material"),
            TrackSurface::Dirt1Material => String::from_str("Dirt1Material"),
            TrackSurface::Dirt2Material => String::from_str("Dirt2Material"),
            TrackSurface::Dirt3Material => String::from_str("Dirt3Material"),
            TrackSurface::Dirt4Material => String::from_str("Dirt4Material"),
            TrackSurface::SandMaterial => String::from_str("SandMaterial"),
            TrackSurface::Gravel1Material => String::from_str("Gravel1Material"),
            TrackSurface::Gravel2Material => String::from_str("Gravel2Material"),
            TrackSurface::GrasscreteMaterial => String::from_str("GrasscreteMaterial"),
            TrackSurface::AstroturfMaterial => String::from_str("AstroturfMaterial"),
        }
    }
}

/// The phase the session is in.
#[derive(Debug, Clone, Copy, PartialEq, Eq, Structural)]
pub enum SessionState {
    Invalid,
    GetInCar,
    Warmup,
    ParadeLaps,
    Racing,
    Checkered,
    CoolDown,
}

/// The `SessionState` a raw discriminant denotes.
pub open spec fn session_state_from_i32(v: i32) -> Option<SessionState> {
    if v == 0 {
        Some(SessionState::Invalid)
    } else if v == 1 {
        Some(SessionState::GetInCar)
    } else if v == 2 {
        Some(SessionState::Warmup)
    } else if v == 3 {
        Some(SessionState::ParadeLaps)
    } else if v == 4 {
        Some(SessionState::Racing)
    } else if v == 5 {
        Some(SessionState::Checkered)
    } else if v == 6 {
        Some(SessionState::CoolDown)
    } else {
        None
    }
}

/// What converting a raw value to `SessionState` yields: an `Int` or `BitField`
/// carrying a known discriminant converts, everything else is a `TypeError`.
pub open spec fn session_state_from_value_spec(v: IrValue) -> Result<SessionState, IrError> {
    match v {
        IrValue::Int(x) => match session_state_from_i32(x) {
            Some(t) => Ok(t),
            None => Err(IrError::TypeError),
        },
        IrValue::BitField(x) => match session_state_from_i32(x) {
            Some(t) => Ok(t),
            None => Err(IrError::TypeError),
        },
        _ => Err(IrError::TypeError),
    }
}

impl SessionState {
    /// The display name of this state.
    pub open spec fn label_spec(&self) -> Seq<char> {
        match self {
            SessionState::Invalid => "Invalid"@,
            SessionState::GetInCar => "GetInCar"@,
            SessionState::Warmup => "Warmup"@,
            SessionState::ParadeLaps => "ParadeLaps"@,
            SessionState::Racing => "Racing"@,
            SessionState::Checkered => "Checkered"@,
            SessionState::CoolDown => "CoolDown"@,
        }
    }

    /// Decodes a raw discriminant.
    pub fn from_i32(v: i32) -> (r: Option<Self>)
        ensures
            r == session_state_from_i32(v),
    {
        if v == 0 {
            Some(SessionState::Invalid)
        } else if v == 1 {
            Some(SessionState::GetInCar)
        } else if v == 2 {
            Some(SessionState::Warmup)
        } else if v == 3 {
            Some(SessionState::ParadeLaps)
        } else if v == 4 {
            Some(SessionState::Racing)
        } else if v == 5 {
            Some(SessionState::Checkered)
        } else if v == 6 {
            Some(SessionState::CoolDown)
        } else {
            None
        }
    }

    /// Converts a raw `Int` or `BitField` value, failing with `TypeError` on
    /// any other variant or an unknown discriminant.
    pub fn from_value(v: &IrValue) -> (r: Result<Self, IrError>)
        ensures
            r == session_state_from_value_spec(*v),
    {
        match v {
            IrValue::Int(x) => match Self::from_i32(*x) {
                Some(t) => Ok(t),
                None => Err(IrError::TypeError),
            },
            IrValue::BitField(x) => match Self::from_i32(*x) {
                Some(t) => Ok(t),
                None => Err(IrError::TypeError),
            },
            _ => Err(IrError::TypeError),
        }
    }

    /// The display name of this state.
    pub fn label(&self) -> (s: String)
        ensures
            s@ == self.label_spec(),
    {
        match self {
            SessionState::Invalid => String::from_str("Invalid"),
            SessionState::GetInCar => String::from_str("GetInCar"),
            SessionState::Warmup => String::from_str("Warmup"),
            SessionState::ParadeLaps => String::from_str("ParadeLaps"),
            SessionState::Racing => String::from_str("Racing"),
            SessionState::Checkered => String::from_str("Checkered"),
            SessionState::CoolDown => String::from_str("CoolDown"),
        }
    }
}

/// Cars alongside, as reported by the spotter.
#[derive(Debug, Clone, Copy, PartialEq, Eq, Structural)]
pub enum CarLeftRight {
    Off,
    Clear,
    CarLeft,
    CarRight,
    CarLeftRight,
    TwoCarsLeft,
    TwoCarsRight,
}

/// The `CarLeftRight` a raw discriminant denotes.
pub open spec fn car_left_right_from_i32(v: i32) -> Option<CarLeftRight> {
    if v == 0 {
        Some(CarLeftRight::Off)
    } else if v == 1 {
        Some(CarLeftRight::Clear)
    } else if v == 2 {
        Some(CarLeftRight::CarLeft)
    } else if v == 3 {
        Some(CarLeftRight::CarRight)
    } else if v == 4 {
        Some(CarLeftRight::CarLeftRight)
    } else if v == 5 {
        Some(CarLeftRight::TwoCarsLeft)
    } else if v == 6 {
        Some(CarLeftRight::TwoCarsRight)
    } else {
        None
    }
}

/// What converting a raw value to `CarLeftRight` yields: an `Int` or `BitField`
/// carrying a known discriminant converts, everything else is a `TypeError`.
pub open spec fn car_left_right_from_value_spec(v: IrValue) -> Result<CarLeftRight, IrError> {
    match v {
        IrValue::Int(x) => match car_left_right_from_i32(x) {
            Some(t) => Ok(t),
            None => Err(IrError::TypeError),
        },
        IrValue::BitField(x) => match car_left_right_from_i32(x) {
            Some(t) => Ok(t),
            None => Err(IrError::TypeError),
        },
        _ => Err(IrError::TypeError),
    }
}

impl CarLeftRight {
    /// The display name of this state.
    pub open spec fn label_spec(&self) -> Seq<char> {
        match self {
            CarLeftRight::Off => "Off"@,
            CarLeftRight::Clear => "Clear"@,
            CarLeftRight::CarLeft => "CarLeft"@,
            CarLeftRight::CarRight => "CarRight"@,
            CarLeftRight::CarLeftRight => "CarLeftRight"@,
            CarLeftRight::TwoCarsLeft => "TwoCarsLeft"@,
            CarLeftRight::TwoCarsRight => "TwoCarsRight"@,
        }
    }

    /// Decodes a raw discriminant.
    pub fn from_i32(v: i32) -> (r: Option<Self>)
        ensures
            r == car_left_right_from_i32(v),
    {
        if v == 0 {
            Some(CarLeftRight::Off)
        } else if v == 1 {
            Some(CarLeftRight::Clear)
        } else if v == 2 {
            Some(CarLeftRight::CarLeft)
        } else if v == 3 {
            Some(CarLeftRight::CarRight)
        } else if v == 4 {
            Some(CarLeftRight::CarLeftRight)
        } else if v == 5 {
            Some(CarLeftRight::TwoCarsLeft)
        } else if v == 6 {
            Some(CarLeftRight::TwoCarsRight)
        } else {
            None
        }
    }

    /// Converts a raw `Int` or `BitField` value, failing with `TypeError` on
    /// any other variant or an unknown discriminant.
    pub fn from_value(v: &IrValue) -> (r: Result<Self, IrError>)
        ensures
            r == car_left_right_from_value_spec(*v),
    {
        match v {
            IrValue::Int(x) => match Self::from_i32(*x) {
                Some(t) => Ok(t),
                None => Err(IrError::TypeError),
            },
            IrValue::BitField(x) => match Self::from_i32(*x) {
                Some(t) => Ok(t),
                None => Err(IrError::TypeError),
            },
            _ => Err(IrError::TypeError),
        }
    }

    /// The display name of this state.
    pub fn label(&self) -> (s: String)
        ensures
            s@ == self.label_spec(),
    {
        match self {
            CarLeftRight::Off => String::from_str("Off"),
            CarLeftRight::Clear => String::from_str("Clear"),
            CarLeftRight::CarLeft => String::from_str("CarLeft"),
            CarLeftRight::CarRight => String::from_str("CarRight"),
            CarLeftRight::CarLeftRight => String::from_str("CarLeftRight"),
            CarLeftRight::TwoCarsLeft => String::from_str("TwoCarsLeft"),
            CarLeftRight::TwoCarsRight => String::from_str("TwoCarsRight"),
        }
    }
}

/// Progress of the current pit service, or why it cannot proceed.
#[derive(Debug, Clone, Copy, PartialEq, Eq, Structural)]
pub enum PitStatus {
    NoStatus,
    InProgress,
    Complete,
    TooFarLeft,
    TooFarRight,
    TooFarForward,
    TooFarBack,
    BadAngle,
    CantFixThat,
}

/// The `PitStatus` a raw discriminant denotes.
pub open spec fn pit_status_from_i32(v: i32) -> Option<PitStatus> {
    if v == 0 {
        Some(PitStatus::NoStatus)
    } else if v == 1 {
        Some(PitStatus::InProgress)
    } else if v == 2 {
        Some(PitStatus::Complete)
    } else if v == 100 {
        Some(PitStatus::TooFarLeft)
    } else if v == 101 {
        Some(PitStatus::TooFarRight)
    } else if v == 102 {
        Some(PitStatus::TooFarForward)
    } else if v == 103 {
        Some(PitStatus::TooFarBack)
    } else if v == 104 {
        Some(PitStatus::BadAngle)
    } else if v == 105 {
        Some(PitStatus::CantFixThat)
    } else {
        None
    }
}

/// What converting a raw value to `PitStatus` yields: an `Int` or `BitField`
/// carrying a known discriminant converts, everything else is a `TypeError`.
pub open spec fn pit_status_from_value_spec(v: IrValue) -> Result<PitStatus, IrError> {
    match v {
        IrValue::Int(x) => match pit_status_from_i32(x) {
            Some(t) => Ok(t),
            None => Err(IrError::TypeError),
        },
        IrValue::BitField(x) => match pit_status_from_i32(x) {
            Some(t) => Ok(t),
            None => Err(IrError::TypeError),
        },
        _ => Err(IrError::TypeError),
    }
}

impl PitStatus {
    /// The display name of this state.
    pub open spec fn label_spec(&self) -> Seq<char> {
        match self {
            PitStatus::NoStatus => "NoStatus"@,
            PitStatus::InProgress => "InProgress"@,
            PitStatus::Complete => "Complete"@,
            PitStatus::TooFarLeft => "TooFarLeft"@,
            PitStatus::TooFarRight => "TooFarRight"@,
            PitStatus::TooFarForward => "TooFarForward"@,
            PitStatus::TooFarBack => "TooFarBack"@,
            PitStatus::BadAngle => "BadAngle"@,
            PitStatus::CantFixThat => "CantFixThat"@,
        }
    }

    /// Decodes a raw discriminant.
    pub fn from_i32(v: i32) -> (r: Option<Self>)
        ensures
            r == pit_status_from_i32(v),
    {
        if v == 0 {
            Some(PitStatus::NoStatus)
        } else if v == 1 {
            Some(PitStatus::InProgress)
        } else if v == 2 {
            Some(PitStatus::Complete)
        } else if v == 100 {
            Some(PitStatus::TooFarLeft)
        } else if v == 101 {
            Some(PitStatus::TooFarRight)
        } else if v == 102 {
            Some(PitStatus::TooFarForward)
        } else if v == 103 {
            Some(PitStatus::TooFarBack)
        } else if v == 104 {
            Some(PitStatus::BadAngle)
        } else if v == 105 {
            Some(PitStatus::CantFixThat)
        } else {
            None
        }
    }

    /// Converts a raw `Int` or `BitField` value, failing with `TypeError` on
    /// any other variant or an unknown discriminant.
    pub fn from_value(v: &IrValue) -> (r: Result<Self, IrError>)
        ensures
            r == pit_status_from_value_spec(*v),
    {
        match v {
            IrValue::Int(x) => match Self::from_i32(*x) {
                Some(t) => Ok(t),
                None => Err(IrError::TypeError),
            },
            IrValue::BitField(x) => match Self::from_i32(*x) {
                Some(t) => Ok(t),
                None => Err(IrError::TypeError),
            },
            _ => Err(IrError::TypeError),
        }
    }

    /// The display name of this state.
    pub fn label(&self) -> (s: String)
        ensures
            s@ == self.label_spec(),
    {
        match self {
            PitStatus::NoStatus => String::from_str("NoStatus"),
            PitStatus::InProgress => String::from_str("InProgress"),
            PitStatus::Complete => String::from_str("Complete"),
            PitStatus::TooFarLeft => String::from_str("TooFarLeft"),
            PitStatus::TooFarRight => String::from_str("TooFarRight"),
            PitStatus::TooFarForward => String::from_str("TooFarForward"),
            PitStatus::TooFarBack => String::from_str("TooFarBack"),
            PitStatus::BadAngle => String::from_str("BadAngle"),
            PitStatus::CantFixThat => String::from_str("CantFixThat"),
        }
    }
}

/// How the field is being paced.
#[derive(Debug, Clone, Copy, PartialEq, Eq, Structural)]
pub enum PaceMode {
    SingleFileStart,
    DoubleFileStart,
    SingleFileRestart,
    DoubleFileRestart,
    NotPacing,
}

/// The `PaceMode` a raw discriminant denotes.
pub open spec fn pace_mode_from_i32(v: i32) -> Option<PaceMode> {
    if v == 0 {
        Some(PaceMode::SingleFileStart)
    } else if v == 1 {
        Some(PaceMode::DoubleFileStart)
    } else if v == 2 {
        Some(PaceMode::SingleFileRestart)
    } else if v == 3 {
        Some(PaceMode::DoubleFileRestart)
    } else if v == 4 {
        Some(PaceMode::NotPacing)
    } else {
        None
    }
}

/// What converting a raw value to `PaceMode` yields: an `Int` or `BitField`
/// carrying a known discriminant converts, everything else is a `TypeError`.
pub open spec fn pace_mode_from_value_spec(v: IrValue) -> Result<PaceMode, IrError> {
    match v {
        IrValue::Int(x) => match pace_mode_from_i32(x) {
            Some(t) => Ok(t),
            None => Err(IrError::TypeError),
        },
        IrValue::BitField(x) => match pace_mode_from_i32(x) {
            Some(t) => Ok(t),
            None => Err(IrError::TypeError),
        },
        _ => Err(IrError::TypeError),
    }
}

impl PaceMode {
    /// The display name of this state.
    pub open spec fn label_spec(&self) -> Seq<char> {
        match self {
            PaceMode::SingleFileStart => "SingleFileStart"@,
            PaceMode::DoubleFileStart => "DoubleFileStart"@,
            PaceMode::SingleFileRestart => "SingleFileRestart"@,
            PaceMode::DoubleFileRestart => "DoubleFileRestart"@,
            PaceMode::NotPacing => "NotPacing"@,
        }
    }

    /// Decodes a raw discriminant.
    pub fn from_i32(v: i32) -> (r: Option<Self>)
        ensures
            r == pace_mode_from_i32(v),
    {
        if v == 0 {
            Some(PaceMode::SingleFileStart)
        } else if v == 1 {
            Some(PaceMode::DoubleFileStart)
        } else if v == 2 {
            Some(PaceMode::SingleFileRestart)
        } else if v == 3 {
            Some(PaceMode::DoubleFileRestart)
        } else if v == 4 {
            Some(PaceMode::NotPacing)
        } else {
            None
        }
    }

    /// Converts a raw `Int` or `BitField` value, failing with `TypeError` on
    /// any other variant or an unknown discriminant.
    pub fn from_value(v: &IrValue) -> (r: Result<Self, IrError>)
        ensures
            r == pace_mode_from_value_spec(*v),
    {
        match v {
            IrValue::Int(x) => match Self::from_i32(*x) {
                Some(t) => Ok(t),
                None => Err(IrError::TypeError),
            },
            IrValue::BitField(x) => match Self::from_i32(*x) {
                Some(t) => Ok(t),
                None => Err(IrError::TypeError),
            },
            _ => Err(IrError::TypeError),
        }
    }

    /// The display name of this state.
    pub fn label(&self) -> (s: String)
        ensures
            s@ == self.label_spec(),
    {
        match self {
            PaceMode::SingleFileStart => String::from_str("SingleFileStart"),
            PaceMode::DoubleFileStart => String::from_str("DoubleFileStart"),
            PaceMode::SingleFileRestart => String::from_str("SingleFileRestart"),
            PaceMode::DoubleFileRestart => String::from_str("DoubleFileRestart"),
            PaceMode::NotPacing => String::from_str("NotPacing"),
        }
    }
}

/// How wet the track surface is.
#[derive(Debug, Clone, Copy, PartialEq, Eq, Structural)]
pub enum TrackWetness {
    Unknown,
    Dry,
    MostlyDry,
    VeryLightlyWet,
    LightlyWet,
    ModeratelyWet,
    VeryWet,
    ExtremelyWet,
}

/// The `TrackWetness` a raw discriminant denotes.
pub open spec fn track_wetness_from_i32(v: i32) -> Option<TrackWetness> {
    if v == 0 {
        Some(TrackWetness::Unknown)
    } else if v == 1 {
        Some(TrackWetness::Dry)
    } else if v == 2 {
        Some(TrackWetness::MostlyDry)
    } else if v == 3 {
        Some(TrackWetness::VeryLightlyWet)
    } else if v == 4 {
        Some(TrackWetness::LightlyWet)
    } else if v == 5 {
        Some(TrackWetness::ModeratelyWet)
    } else if v == 6 {
        Some(TrackWetness::VeryWet)
    } else if v == 7 {
        Some(TrackWetness::ExtremelyWet)
    } else {
        None
    }
}

/// What converting a raw value to `TrackWetness` yields: an `Int` or `BitField`
/// carrying a known discriminant converts, everything else is a `TypeError`.
pub open spec fn track_wetness_from_value_spec(v: IrValue) -> Result<TrackWetness, IrError> {
    match v {
        IrValue::Int(x) => match track_wetness_from_i32(x) {
            Some(t) => Ok(t),
            None => Err(IrError::TypeError),
        },
        IrValue::BitField(x) => match track_wetness_from_i32(x) {
            Some(t) => Ok(t),
            None => Err(IrError::TypeError),
        },
        _ => Err(IrError::TypeError),
    }
}

impl TrackWetness {
    /// The display name of this state.
    pub open spec fn label_spec(&self) -> Seq<char> {
        match self {
            TrackWetness::Unknown => "Unknown"@,
            TrackWetness::Dry => "Dry"@,
            TrackWetness::MostlyDry => "MostlyDry"@,
            TrackWetness::VeryLightlyWet => "VeryLightlyWet"@,
            TrackWetness::LightlyWet => "LightlyWet"@,
            TrackWetness::ModeratelyWet => "ModeratelyWet"@,
            TrackWetness::VeryWet => "VeryWet"@,
            TrackWetness::ExtremelyWet => "ExtremelyWet"@,
        }
    }

    /// Decodes a raw discriminant.
    pub fn from_i32(v: i32) -> (r: Option<Self>)
        ensures
            r == track_wetness_from_i32(v),
    {
        if v == 0 {
            Some(TrackWetness::Unknown)
        } else if v == 1 {
            Some(TrackWetness::Dry)
        } else if v == 2 {
            Some(TrackWetness::MostlyDry)
        } else if v == 3 {
            Some(TrackWetness::VeryLightlyWet)
        } else if v == 4 {
            Some(TrackWetness::LightlyWet)
        } else if v == 5 {
            Some(TrackWetness::ModeratelyWet)
        } else if v == 6 {
            Some(TrackWetness::VeryWet)
        } else if v == 7 {
            Some(TrackWetness::ExtremelyWet)
        } else {
            None
        }
    }

    /// Converts a raw `Int` or `BitField` value, failing with `TypeError` on
    /// any other variant or an unknown discriminant.
    pub fn from_value(v: &IrValue) -> (r: Result<Self, IrError>)
        ensures
            r == track_wetness_from_value_spec(*v),
    {
        match v {
            IrValue::Int(x) => match Self::from_i32(*x) {
                Some(t) => Ok(t),
                None => Err(IrError::TypeError),
            },
            IrValue::BitField(x) => match Self::from_i32(*x) {
                Some(t) => Ok(t),
                None => Err(IrError::TypeError),
            },
            _ => Err(IrError::TypeError),
        }
    }

    /// The display name of this state.
    pub fn label(&self) -> (s: String)
        ensures
            s@ == self.label_spec(),
    {
        match self {
            TrackWetness::Unknown => String::from_str("Unknown"),
            TrackWetness::Dry => String::from_str("Dry"),
            TrackWetness::MostlyDry => String::from_str("MostlyDry"),
            TrackWetness::VeryLightlyWet => String::from_str("VeryLightlyWet"),
            TrackWetness::LightlyWet => String::from_str("LightlyWet"),
            TrackWetness::ModeratelyWet => String::from_str("ModeratelyWet"),
            TrackWetness::VeryWet => String::from_str("VeryWet"),
            TrackWetness::ExtremelyWet => String::from_str("ExtremelyWet"),
        }
    }
}


/// The comma-joined rendering of a list of text parts.
pub open spec fn join_comma(parts: Seq<Seq<char>>) -> Seq<char>
    decreases parts.len(),
{
    if parts.len() == 0 {
        Seq::empty()
    } else if parts.len() == 1 {
        parts[0]
    } else {
        join_comma(parts.drop_last()) + ", "@ + parts.last()
    }
}

/// The display names of the bits of `bits` that are set, in table order.
pub open spec fn flag_labels(pairs: Seq<(u32, Seq<char>)>, bits: u32) -> Seq<Seq<char>>
    decreases pairs.len(),
{
    if pairs.len() == 0 {
        Seq::empty()
    } else {
        let rest = flag_labels(pairs.drop_last(), bits);
        if bits & pairs.last().0 == pairs.last().0 {
            rest.push(pairs.last().1)
        } else {
            rest
        }
    }
}

/// The canonical text of a flag word over a flag table: the display names of
/// its set bits, joined with a comma.
pub open spec fn flag_text(pairs: Seq<(u32, Seq<char>)>, bits: u32) -> Seq<char> {
    join_comma(flag_labels(pairs, bits))
}

/// Renders the names of the set flag bits, joined with a comma, in table
/// order.
fn join_flag_labels(pairs: &Vec<(u32, &str)>, bits: u32) -> (s: String)
    ensures
        s@ == flag_text(pairs@.map_values(|p: (u32, &str)| (p.0, p.1@)), bits),
{
    let ghost mpairs = pairs@.map_values(|p: (u32, &str)| (p.0, p.1@));
    let mut s = String::new();
    let mut any = false;
    let mut i: usize = 0;
    while i < pairs.len()
        invariant
            0 <= i <= pairs@.len(),
            mpairs == pairs@.map_values(|p: (u32, &str)| (p.0, p.1@)),
            s@ == flag_text(mpairs.take(i as int), bits),
            any == (flag_labels(mpairs.take(i as int), bits).len() > 0),
        decreases pairs@.len() - i,
    {
        let (mask, name) = pairs[i];
        proof {
            assert(mpairs.take(i + 1).drop_last() =~= mpairs.take(i as int));
            assert(mpairs.take(i + 1).last() == mpairs[i as int]);
            assert(mpairs[i as int] == (mask, name@));
        }
        if bits & mask == mask {
            proof {
                let parts = flag_labels(mpairs.take(i as int), bits);
                let parts2 = flag_labels(mpairs.take(i + 1), bits);
                assert(parts2 == parts.push(name@));
                assert(parts2.drop_last() =~= parts);
                assert(parts2.last() == name@);
                if parts.len() == 0 {
                    assert(join_comma(parts2) == name@);
                    assert(s@ + name@ =~= name@);
                }
            }
            if any {
                s.append(", ");
            }
            s.append(name);
            any = true;
        }
        i = i + 1;
    }
    proof {
        assert(mpairs.take(pairs@.len() as int) =~= mpairs);
    }
    s
}

/// Warning lights and limiter state reported by the car.
/// A closed bit-set: unknown bits are truncated on
/// conversion rather than failing, so flags the producer adds later are
/// tolerated.
#[derive(Debug, Clone, Copy, PartialEq, Eq, Structural)]
pub struct EngineWarnings {
    pub bits: u32,
}

/// Every flag bit `EngineWarnings` knows.
pub const ENGINE_WARNINGS_ALL: u32 = 0x7f;

pub const WATER_TEMP: u32 = 0x1;
pub const FUEL_PRESSURE: u32 = 0x2;
pub const OIL_PRESSURE: u32 = 0x4;
pub const ENGINE_STALLED: u32 = 0x8;
pub const PIT_SPEED_LIMITER: u32 = 0x10;
pub const REV_LIMITER_ACTIVE: u32 = 0x20;
pub const OIL_TEMPERATURE: u32 = 0x40;

/// What converting a raw value to `EngineWarnings` yields: the known bits of an
/// `Int` or `BitField`, unknown bits truncated; anything else a `TypeError`.
pub open spec fn engine_warnings_from_value_spec(v: IrValue) -> Result<EngineWarnings, IrError> {
    match v {
        IrValue::BitField(x) => Ok(EngineWarnings { bits: u32_of_i32(x) & ENGINE_WARNINGS_ALL }),
        IrValue::Int(x) => Ok(EngineWarnings { bits: u32_of_i32(x) & ENGINE_WARNINGS_ALL }),
        _ => Err(IrError::TypeError),
    }
}

/// The flag table of `EngineWarnings`: each bit with its display name.
pub open spec fn engine_warnings_table() -> Seq<(u32, Seq<char>)> {
    seq![
        (WATER_TEMP, "Water Temp"@),
        (FUEL_PRESSURE, "Fuel Pressure"@),
        (OIL_PRESSURE, "Oil Pressure"@),
        (ENGINE_STALLED, "Engine Stalled"@),
        (PIT_SPEED_LIMITER, "Pit Speed Limiter"@),
        (REV_LIMITER_ACTIVE, "Rev Limiter Active"@),
        (OIL_TEMPERATURE, "Oil Temperature"@),
    ]
}

impl EngineWarnings {
    /// The given bits, with the bits this type does not know cleared.
    pub fn from_bits_truncate(bits: u32) -> (r: Self)
        ensures
            r.bits == bits & ENGINE_WARNINGS_ALL,
    {
        EngineWarnings { bits: bits & ENGINE_WARNINGS_ALL }
    }

    /// Whether every bit of `mask` is set.
    pub fn contains(&self, mask: u32) -> (r: bool)
        ensures
            r == (self.bits & mask == mask),
    {
        self.bits & mask == mask
    }

    /// Converts a raw `Int` or `BitField` value, truncating unknown bits.
    pub fn from_value(v: &IrValue) -> (r: Result<Self, IrError>)
        ensures
            r == engine_warnings_from_value_spec(*v),
    {
        match v {
            IrValue::BitField(x) => Ok(Self::from_bits_truncate(exec_u32_of_i32(*x))),
            IrValue::Int(x) => Ok(Self::from_bits_truncate(exec_u32_of_i32(*x))),
            _ => Err(IrError::TypeError),
        }
    }

    /// The display names of the set bits, joined with a comma.
    pub fn label(&self) -> (s: String)
        ensures
            s@ == flag_text(engine_warnings_table(), self.bits),
    {
        let pairs: Vec<(u32, &str)> = vec![
            (WATER_TEMP, "Water Temp"),
            (FUEL_PRESSURE, "Fuel Pressure"),
            (OIL_PRESSURE, "Oil Pressure"),
            (ENGINE_STALLED, "Engine Stalled"),
            (PIT_SPEED_LIMITER, "Pit Speed Limiter"),
            (REV_LIMITER_ACTIVE, "Rev Limiter Active"),
            (OIL_TEMPERATURE, "Oil Temperature"),
        ];
        let s = join_flag_labels(&pairs, self.bits);
        proof {
            assert(pairs@.map_values(|p: (u32, &str)| (p.0, p.1@)) =~= engine_warnings_table());
        }
        s
    }
}

/// Race-control flags: global flags, the driver's black
/// flags and the start lights.
/// A closed bit-set: unknown bits are truncated on
/// conversion rather than failing, so flags the producer adds later are
/// tolerated.
#[derive(Debug, Clone, Copy, PartialEq, Eq, Structural)]
pub struct Flags {
    pub bits: u32,
}

/// Every flag bit `Flags` knows.
pub const FLAGS_ALL: u32 = 0xf01fffff;

pub const CHECKERED_FLAG: u32 = 0x1;
pub const WHITE_FLAG: u32 = 0x2;
pub const GREEN_FLAG: u32 = 0x4;
pub const YELLOW_FLAG: u32 = 0x8;
pub const RED_FLAG: u32 = 0x10;
pub const BLUE_FLAG: u32 = 0x20;
pub const DEBRIS: u32 = 0x40;
pub const CROSSED: u32 = 0x80;
pub const YELLOW_WAVING: u32 = 0x100;
pub const ONE_LAP_TO_GREEN: u32 = 0x200;
pub const GREEN_HELD: u32 = 0x400;
pub const TEN_TO_GO: u32 = 0x800;
pub const FIVE_TO_GO: u32 = 0x1000;
pub const RANDOM_WAVING: u32 = 0x2000;
pub const CAUTION: u32 = 0x4000;
pub const CAUTION_WAVING: u32 = 0x8000;
pub const BLACK: u32 = 0x10000;
pub const DISQUALIFY: u32 = 0x20000;
pub const SERVICIBLE: u32 = 0x40000;
pub const FURLED: u32 = 0x80000;
pub const REPAIR: u32 = 0x100000;
pub const START_HIDDEN: u32 = 0x10000000;
pub const START_READY: u32 = 0x20000000;
pub const START_SET: u32 = 0x40000000;
pub const START_GO: u32 = 0x80000000;

/// What converting a raw value to `Flags` yields: the known bits of an
/// `Int` or `BitField`, unknown bits truncated; anything else a `TypeError`.
pub open spec fn session_flags_from_value_spec(v: IrValue) -> Result<Flags, IrError> {
    match v {
        IrValue::BitField(x) => Ok(Flags { bits: u32_of_i32(x) & FLAGS_ALL }),
        IrValue::Int(x) => Ok(Flags { bits: u32_of_i32(x) & FLAGS_ALL }),
        _ => Err(IrError::TypeError),
    }
}

/// The flag table of `Flags`: each bit with its display name.
pub open spec fn session_flags_table() -> Seq<(u32, Seq<char>)> {
    seq![
        (CHECKERED_FLAG, "Checkered Flag"@),
        (WHITE_FLAG, "White Flag"@),
        (GREEN_FLAG, "Green Flag"@),
        (YELLOW_FLAG, "Yellow Flag"@),
        (RED_FLAG, "Red Flag"@),
        (BLUE_FLAG, "Blue Flag"@),
        (DEBRIS, "Debris"@),
        (CROSSED, "Crossed"@),
        (YELLOW_WAVING, "Yellow Waving"@),
        (ONE_LAP_TO_GREEN, "One Lap To Green"@),
        (GREEN_HELD, "Green Held"@),
        (TEN_TO_GO, "Ten To Go"@),
        (FIVE_TO_GO, "Five To Go"@),
        (RANDOM_WAVING, "Random Waving"@),
        (CAUTION, "Caution"@),
        (CAUTION_WAVING, "Caution Waving"@),
        (BLACK, "Black"@),
        (DISQUALIFY, "Disqualify"@),
        (SERVICIBLE, "Servicible"@),
        (FURLED, "Furled"@),
        (REPAIR, "Repair"@),
        (START_HIDDEN, "Start Hidden"@),
        (START_READY, "Start Ready"@),
        (START_SET, "Start Set"@),
        (START_GO, "Start Go"@),
    ]
}

impl Flags {
    /// The given bits, with the bits this type does not know cleared.
    pub fn from_bits_truncate(bits: u32) -> (r: Self)
        ensures
            r.bits == bits & FLAGS_ALL,
    {
        Flags { bits: bits & FLAGS_ALL }
    }

    /// Whether every bit of `mask` is set.
    pub fn contains(&self, mask: u32) -> (r: bool)
        ensures
            r == (self.bits & mask == mask),
    {
        self.bits & mask == mask
    }

    /// Converts a raw `Int` or `BitField` value, truncating unknown bits.
    pub fn from_value(v: &IrValue) -> (r: Result<Self, IrError>)
        ensures
            r == session_flags_from_value_spec(*v),
    {
        match v {
            IrValue::BitField(x) => Ok(Self::from_bits_truncate(exec_u32_of_i32(*x))),
            IrValue::Int(x) => Ok(Self::from_bits_truncate(exec_u32_of_i32(*x))),
            _ => Err(IrError::TypeError),
        }
    }

    /// The display names of the set bits, joined with a comma.
    pub fn label(&self) -> (s: String)
        ensures
            s@ == flag_text(session_flags_table(), self.bits),
    {
        let pairs: Vec<(u32, &str)> = vec![
            (CHECKERED_FLAG, "Checkered Flag"),
            (WHITE_FLAG, "White Flag"),
            (GREEN_FLAG, "Green Flag"),
            (YELLOW_FLAG, "Yellow Flag"),
            (RED_FLAG, "Red Flag"),
            (BLUE_FLAG, "Blue Flag"),
            (DEBRIS, "Debris"),
            (CROSSED, "Crossed"),
            (YELLOW_WAVING, "Yellow Waving"),
            (ONE_LAP_TO_GREEN, "One Lap To Green"),
            (GREEN_HELD, "Green Held"),
            (TEN_TO_GO, "Ten To Go"),
            (FIVE_TO_GO, "Five To Go"),
            (RANDOM_WAVING, "Random Waving"),
            (CAUTION, "Caution"),
            (CAUTION_WAVING, "Caution Waving"),
            (BLACK, "Black"),
            (DISQUALIFY, "Disqualify"),
            (SERVICIBLE, "Servicible"),
            (FURLED, "Furled"),
            (REPAIR, "Repair"),
            (START_HIDDEN, "Start Hidden"),
            (START_READY, "Start Ready"),
            (START_SET, "Start Set"),
            (START_GO, "Start Go"),
        ];
        let s = join_flag_labels(&pairs, self.bits);
        proof {
            assert(pairs@.map_values(|p: (u32, &str)| (p.0, p.1@)) =~= session_flags_table());
        }
        s
    }
}

/// State of the camera tool.
/// A closed bit-set: unknown bits are truncated on
/// conversion rather than failing, so flags the producer adds later are
/// tolerated.
#[derive(Debug, Clone, Copy, PartialEq, Eq, Structural)]
pub struct CameraState {
    pub bits: u32,
}

/// Every flag bit `CameraState` knows.
pub const CAMERA_STATE_ALL: u32 = 0x1ff;

pub const IS_SESSION_SCREEN: u32 = 0x1;
pub const IS_SCENIC_ACTIVE: u32 = 0x2;
pub const CAM_TOOL_ACTIVE: u32 = 0x4;
pub const UI_HIDDEN: u32 = 0x8;
pub const USE_AUTO_SHOT_SELECT: u32 = 0x10;
pub const USE_TEMPORARY_EDITS: u32 = 0x20;
pub const USE_KEY_ACCELERATION: u32 = 0x40;
pub const USE_KEY_10X_ACCELERATION: u32 = 0x80;
pub const USE_MOUSE_AIM_MODE: u32 = 0x100;

/// What converting a raw value to `CameraState` yields: the known bits of an
/// `Int` or `BitField`, unknown bits truncated; anything else a `TypeError`.
pub open spec fn camera_state_from_value_spec(v: IrValue) -> Result<CameraState, IrError> {
    match v {
        IrValue::BitField(x) => Ok(CameraState { bits: u32_of_i32(x) & CAMERA_STATE_ALL }),
        IrValue::Int(x) => Ok(CameraState { bits: u32_of_i32(x) & CAMERA_STATE_ALL }),
        _ => Err(IrError::TypeError),
    }
}

/// The flag table of `CameraState`: each bit with its display name.
pub open spec fn camera_state_table() -> Seq<(u32, Seq<char>)> {
    seq![
        (IS_SESSION_SCREEN, "Session Screen"@),
        (IS_SCENIC_ACTIVE, "Scenic Active"@),
        (CAM_TOOL_ACTIVE, "Cam Tool Active"@),
        (UI_HIDDEN, "UI Hidden"@),
        (USE_AUTO_SHOT_SELECT, "Use Auto Shot Select"@),
        (USE_TEMPORARY_EDITS, "Use Temporary Edits"@),
        (USE_KEY_ACCELERATION, "Use Key Acceleration"@),
        (USE_KEY_10X_ACCELERATION, "Use Key 10X Acceleration"@),
        (USE_MOUSE_AIM_MODE, "Use Mouse Aim Mode"@),
    ]
}

impl CameraState {
    /// The given bits, with the bits this type does not know cleared.
    pub fn from_bits_truncate(bits: u32) -> (r: Self)
        ensures
            r.bits == bits & CAMERA_STATE_ALL,
    {
        CameraState { bits: bits & CAMERA_STATE_ALL }
    }

    /// Whether every bit of `mask` is set.
    pub fn contains(&self, mask: u32) -> (r: bool)
        ensures
            r == (self.bits & mask == mask),
    {
        self.bits & mask == mask
    }

    /// Converts a raw `Int` or `BitField` value, truncating unknown bits.
    pub fn from_value(v: &IrValue) -> (r: Result<Self, IrError>)
        ensures
            r == camera_state_from_value_spec(*v),
    {
        match v {
            IrValue::BitField(x) => Ok(Self::from_bits_truncate(exec_u32_of_i32(*x))),
            IrValue::Int(x) => Ok(Self::from_bits_truncate(exec_u32_of_i32(*x))),
            _ => Err(IrError::TypeError),
        }
    }

    /// The display names of the set bits, joined with a comma.
    pub fn label(&self) -> (s: String)
        ensures
            s@ == flag_text(camera_state_table(), self.bits),
    {
        let pairs: Vec<(u32, &str)> = vec![
            (IS_SESSION_SCREEN, "Session Screen"),
            (IS_SCENIC_ACTIVE, "Scenic Active"),
            (CAM_TOOL_ACTIVE, "Cam Tool Active"),
            (UI_HIDDEN, "UI Hidden"),
            (USE_AUTO_SHOT_SELECT, "Use Auto Shot Select"),
            (USE_TEMPORARY_EDITS, "Use Temporary Edits"),
            (USE_KEY_ACCELERATION, "Use Key Acceleration"),
            (USE_KEY_10X_ACCELERATION, "Use Key 10X Acceleration"),
            (USE_MOUSE_AIM_MODE, "Use Mouse Aim Mode"),
        ];
        let s = join_flag_labels(&pairs, self.bits);
        proof {
            assert(pairs@.map_values(|p: (u32, &str)| (p.0, p.1@)) =~= camera_state_table());
        }
        s
    }
}

/// Which pit services are requested.
/// A closed bit-set: unknown bits are truncated on
/// conversion rather than failing, so flags the producer adds later are
/// tolerated.
#[derive(Debug, Clone, Copy, PartialEq, Eq, Structural)]
pub struct PitServiceFlags {
    pub bits: u32,
}

/// Every flag bit `PitServiceFlags` knows.
pub const PIT_SERVICE_FLAGS_ALL: u32 = 0x7f;

pub const LF_TIRE_CHANGE: u32 = 0x1;
pub const RF_TIRE_CHANGE: u32 = 0x2;
pub const LR_TIRE_CHANGE: u32 = 0x4;
pub const RR_TIRE_CHANGE: u32 = 0x8;
pub const FUEL_FILL: u32 = 0x10;
pub const WINDSHIELD_TEAROFF: u32 = 0x20;
pub const FAST_REPAIR: u32 = 0x40;

/// What converting a raw value to `PitServiceFlags` yields: the known bits of an
/// `Int` or `BitField`, unknown bits truncated; anything else a `TypeError`.
pub open spec fn pit_service_flags_from_value_spec(v: IrValue) -> Result<PitServiceFlags, IrError> {
    match v {
        IrValue::BitField(x) => Ok(PitServiceFlags { bits: u32_of_i32(x) & PIT_SERVICE_FLAGS_ALL }),
        IrValue::Int(x) => Ok(PitServiceFlags { bits: u32_of_i32(x) & PIT_SERVICE_FLAGS_ALL }),
        _ => Err(IrError::TypeError),
    }
}

/// The flag table of `PitServiceFlags`: each bit with its display name.
pub open spec fn pit_service_flags_table() -> Seq<(u32, Seq<char>)> {
    seq![
        (LF_TIRE_CHANGE, "LF Tire Change"@),
        (RF_TIRE_CHANGE, "RF Tire Change"@),
        (LR_TIRE_CHANGE, "LR Tire Change"@),
        (RR_TIRE_CHANGE, "RR Tire Change"@),
        (FUEL_FILL, "Fuel Fill"@),
        (WINDSHIELD_TEAROFF, "Windshield Tearoff"@),
        (FAST_REPAIR, "Fast Repair"@),
    ]
}

impl PitServiceFlags {
    /// The given bits, with the bits this type does not know cleared.
    pub fn from_bits_truncate(bits: u32) -> (r: Self)
        ensures
            r.bits == bits & PIT_SERVICE_FLAGS_ALL,
    {
        PitServiceFlags { bits: bits & PIT_SERVICE_FLAGS_ALL }
    }

    /// Whether every bit of `mask` is set.
    pub fn contains(&self, mask: u32) -> (r: bool)
        ensures
            r == (self.bits & mask == mask),
    {
        self.bits & mask == mask
    }

    /// Converts a raw `Int` or `BitField` value, truncating unknown bits.
    pub fn from_value(v: &IrValue) -> (r: Result<Self, IrError>)
        ensures
            r == pit_service_flags_from_value_spec(*v),
    {
        match v {
            IrValue::BitField(x) => Ok(Self::from_bits_truncate(exec_u32_of_i32(*x))),
            IrValue::Int(x) => Ok(Self::from_bits_truncate(exec_u32_of_i32(*x))),
            _ => Err(IrError::TypeError),
        }
    }

    /// The display names of the set bits, joined with a comma.
    pub fn label(&self) -> (s: String)
        ensures
            s@ == flag_text(pit_service_flags_table(), self.bits),
    {
        let pairs: Vec<(u32, &str)> = vec![
            (LF_TIRE_CHANGE, "LF Tire Change"),
            (RF_TIRE_CHANGE, "RF Tire Change"),
            (LR_TIRE_CHANGE, "LR Tire Change"),
            (RR_TIRE_CHANGE, "RR Tire Change"),
            (FUEL_FILL, "Fuel Fill"),
            (WINDSHIELD_TEAROFF, "Windshield Tearoff"),
            (FAST_REPAIR, "Fast Repair"),
        ];
        let s = join_flag_labels(&pairs, self.bits);
        proof {
            assert(pairs@.map_values(|p: (u32, &str)| (p.0, p.1@)) =~= pit_service_flags_table());
        }
        s
    }
}

/// Per-car pacing state.
/// A closed bit-set: unknown bits are truncated on
/// conversion rather than failing, so flags the producer adds later are
/// tolerated.
#[derive(Debug, Clone, Copy, PartialEq, Eq, Structural)]
pub struct PaceFlags {
    pub bits: u32,
}

/// Every flag bit `PaceFlags` knows.
pub const PACE_FLAGS_ALL: u32 = 0x7;

pub const END_OF_LINE: u32 = 0x1;
pub const FREE_PASS: u32 = 0x2;
pub const WAVE_AROUND: u32 = 0x4;

/// What converting a raw value to `PaceFlags` yields: the known bits of an
/// `Int` or `BitField`, unknown bits truncated; anything else a `TypeError`.
pub open spec fn pace_flags_from_value_spec(v: IrValue) -> Result<PaceFlags, IrError> {
    match v {
        IrValue::BitField(x) => Ok(PaceFlags { bits: u32_of_i32(x) & PACE_FLAGS_ALL }),
        IrValue::Int(x) => Ok(PaceFlags { bits: u32_of_i32(x) & PACE_FLAGS_ALL }),
        _ => Err(IrError::TypeError),
    }
}

/// The flag table of `PaceFlags`: each bit with its display name.
pub open spec fn pace_flags_table() -> Seq<(u32, Seq<char>)> {
    seq![
        (END_OF_LINE, "End Of Line"@),
        (FREE_PASS, "Free Pass"@),
        (WAVE_AROUND, "Wave Around"@),
    ]
}

impl PaceFlags {
    /// The given bits, with the bits this type does not know cleared.
    pub fn from_bits_truncate(bits: u32) -> (r: Self)
        ensures
            r.bits == bits & PACE_FLAGS_ALL,
    {
        PaceFlags { bits: bits & PACE_FLAGS_ALL }
    }

    /// Whether every bit of `mask` is set.
    pub fn contains(&self, mask: u32) -> (r: bool)
        ensures
            r == (self.bits & mask == mask),
    {
        self.bits & mask == mask
    }

    /// Converts a raw `Int` or `BitField` value, truncating unknown bits.
    pub fn from_value(v: &IrValue) -> (r: Result<Self, IrError>)
        ensures
            r == pace_flags_from_value_spec(*v),
    {
        match v {
            IrValue::BitField(x) => Ok(Self::from_bits_truncate(exec_u32_of_i32(*x))),
            IrValue::Int(x) => Ok(Self::from_bits_truncate(exec_u32_of_i32(*x))),
            _ => Err(IrError::TypeError),
        }
    }

    /// The display names of the set bits, joined with a comma.
    pub fn label(&self) -> (s: String)
        ensures
            s@ == flag_text(pace_flags_table(), self.bits),
    {
        let pairs: Vec<(u32, &str)> = vec![
            (END_OF_LINE, "End Of Line"),
            (FREE_PASS, "Free Pass"),
            (WAVE_AROUND, "Wave Around"),
        ];
        let s = join_flag_labels(&pairs, self.bits);
        proof {
            assert(pairs@.map_values(|p: (u32, &str)| (p.0, p.1@)) =~= pace_flags_table());
        }
        s
    }
}


/// A loosely-typed decoded value, for handing to generic consumers such as
/// serializers. Semantic enumeration and flag values are rendered to their
/// display text rather than their numeric discriminants; floating-point
/// values stay bit patterns.
#[derive(Debug, PartialEq)]
pub enum LooseValue {
    Int(i32),
    Float(u32),
    Double(u64),
    Bool(bool),
    Text(String),
    IntList(Vec<i32>),
    FloatList(Vec<u32>),
    DoubleList(Vec<u64>),
    BoolList(Vec<bool>),
    TextList(Vec<String>),
}

/// The subsequence of the images of `f` over `s`, keeping order and dropping
/// the elements `f` rejects.
pub open spec fn filter_map<A, B>(s: Seq<A>, f: spec_fn(A) -> Option<B>) -> Seq<B>
    decreases s.len(),
{
    if s.len() == 0 {
        Seq::empty()
    } else {
        let rest = filter_map(s.drop_last(), f);
        match f(s.last()) {
            Some(b) => rest.push(b),
            None => rest,
        }
    }
}

/// The `i32` conversion as a partial function.
pub open spec fn ok_i32(v: IrValue) -> Option<i32> {
    match to_i32_spec(v) {
        Ok(x) => Some(x),
        Err(_) => None,
    }
}

/// The `bool` conversion as a partial function.
pub open spec fn ok_bool(v: IrValue) -> Option<bool> {
    match to_bool_spec(v) {
        Ok(x) => Some(x),
        Err(_) => None,
    }
}

/// The single-precision conversion as a partial function.
pub open spec fn ok_f32_bits(v: IrValue) -> Option<u32> {
    match to_f32_bits_spec(v) {
        Ok(x) => Some(x),
        Err(_) => None,
    }
}

/// The double-precision conversion as a partial function.
pub open spec fn ok_f64_bits(v: IrValue) -> Option<u64> {
    match to_f64_bits_spec(v) {
        Ok(x) => Some(x),
        Err(_) => None,
    }
}

/// The display text the loosely-typed conversion renders one element of a
/// semantic type to: the raw value converted through the semantic lookup,
/// then that value's display name. `None` when the conversion fails or the
/// element type is not a semantic one.
pub open spec fn loose_label_spec(st: SingleVarType, v: IrValue) -> Option<Seq<char>> {
    match st {
        SingleVarType::TrackLocation => match track_location_from_value_spec(v) {
            Ok(t) => Some(t.label_spec()),
            Err(_) => None,
        },
        SingleVarType::TrackSurface => match track_surface_from_value_spec(v) {
            Ok(t) => Some(t.label_spec()),
            Err(_) => None,
        },
        SingleVarType::SessionState => match session_state_from_value_spec(v) {
            Ok(t) => Some(t.label_spec()),
            Err(_) => None,
        },
        SingleVarType::CarLeftRight => match car_left_right_from_value_spec(v) {
            Ok(t) => Some(t.label_spec()),
            Err(_) => None,
        },
        SingleVarType::PitStatus => match pit_status_from_value_spec(v) {
            Ok(t) => Some(t.label_spec()),
            Err(_) => None,
        },
        SingleVarType::PaceMode => match pace_mode_from_value_spec(v) {
            Ok(t) => Some(t.label_spec()),
            Err(_) => None,
        },
        SingleVarType::TrackWetness => match track_wetness_from_value_spec(v) {
            Ok(t) => Some(t.label_spec()),
            Err(_) => None,
        },
        SingleVarType::EngineWarnings => match engine_warnings_from_value_spec(v) {
            Ok(f) => Some(flag_text(engine_warnings_table(), f.bits)),
            Err(_) => None,
        },
        SingleVarType::Flags => match session_flags_from_value_spec(v) {
            Ok(f) => Some(flag_text(session_flags_table(), f.bits)),
            Err(_) => None,
        },
        SingleVarType::CameraState => match camera_state_from_value_spec(v) {
            Ok(f) => Some(flag_text(camera_state_table(), f.bits)),
            Err(_) => None,
        },
        SingleVarType::PitServiceFlags => match pit_service_flags_from_value_spec(v) {
            Ok(f) => Some(flag_text(pit_service_flags_table(), f.bits)),
            Err(_) => None,
        },
        SingleVarType::PaceFlags => match pace_flags_from_value_spec(v) {
            Ok(f) => Some(flag_text(pace_flags_table(), f.bits)),
            Err(_) => None,
        },
        _ => None,
    }
}

/// Renders one raw element of a semantic type to its display text.
pub fn semantic_label(st: SingleVarType, v: &IrValue) -> (r: Option<String>)
    ensures
        match r {
            Some(s) => loose_label_spec(st, *v) == Some(s@),
            None => loose_label_spec(st, *v) is None,
        },
{
    match st {
        SingleVarType::TrackLocation => match TrackLocation::from_value(v) {
            Ok(t) => Some(t.label()),
            Err(_) => None,
        },
        SingleVarType::TrackSurface => match TrackSurface::from_value(v) {
            Ok(t) => Some(t.label()),
            Err(_) => None,
        },
        SingleVarType::SessionState => match SessionState::from_value(v) {
            Ok(t) => Some(t.label()),
            Err(_) => None,
        },
        SingleVarType::CarLeftRight => match CarLeftRight::from_value(v) {
            Ok(t) => Some(t.label()),
            Err(_) => None,
        },
        SingleVarType::PitStatus => match PitStatus::from_value(v) {
            Ok(t) => Some(t.label()),
            Err(_) => None,
        },
        SingleVarType::PaceMode => match PaceMode::from_value(v) {
            Ok(t) => Some(t.label()),
            Err(_) => None,
        },
        SingleVarType::TrackWetness => match TrackWetness::from_value(v) {
            Ok(t) => Some(t.label()),
            Err(_) => None,
        },
        SingleVarType::EngineWarnings => match EngineWarnings::from_value(v) {
            Ok(f) => Some(f.label()),
            Err(_) => None,
        },
        SingleVarType::Flags => match Flags::from_value(v) {
            Ok(f) => Some(f.label()),
            Err(_) => None,
        },
        SingleVarType::CameraState => match CameraState::from_value(v) {
            Ok(f) => Some(f.label()),
            Err(_) => None,
        },
        SingleVarType::PitServiceFlags => match PitServiceFlags::from_value(v) {
            Ok(f) => Some(f.label()),
            Err(_) => None,
        },
        SingleVarType::PaceFlags => match PaceFlags::from_value(v) {
            Ok(f) => Some(f.label()),
            Err(_) => None,
        },
        _ => None,
    }
}

/// What the loosely-typed conversion yields for one scalar element of
/// semantic type `st`: integer-like types through the checked `i32`
/// conversion, booleans and floats through theirs, semantic types through
/// their display text; `None` whenever the conversion fails.
pub open spec fn scalar_loose_matches(r: Option<LooseValue>, st: SingleVarType, v: IrValue) -> bool {
    match st {
        SingleVarType::Char | SingleVarType::Int => match ok_i32(v) {
            Some(x) => r == Some(LooseValue::Int(x)),
            None => r is None,
        },
        SingleVarType::Bool => match ok_bool(v) {
            Some(b) => r == Some(LooseValue::Bool(b)),
            None => r is None,
        },
        SingleVarType::Float => match ok_f32_bits(v) {
            Some(x) => r == Some(LooseValue::Float(x)),
            None => r is None,
        },
        SingleVarType::Double => match ok_f64_bits(v) {
            Some(x) => r == Some(LooseValue::Double(x)),
            None => r is None,
        },
        _ => match loose_label_spec(st, v) {
            Some(txt) => r matches Some(LooseValue::Text(s)) && s@ == txt,
            None => r is None,
        },
    }
}

/// What the loosely-typed conversion yields for an array of elements of
/// semantic type `st`: the element-wise conversion, with elements whose
/// conversion fails dropped.

/// The checked `i32` conversion of each element, failures dropped.
pub open spec fn i32s_of(vs: Seq<IrValue>) -> Seq<i32> {
    filter_map(vs, |v: IrValue| ok_i32(v))
}

/// The `bool` conversion of each element, failures dropped.
pub open spec fn bools_of(vs: Seq<IrValue>) -> Seq<bool> {
    filter_map(vs, |v: IrValue| ok_bool(v))
}

/// The single-precision conversion of each element, failures dropped.
pub open spec fn f32bits_of(vs: Seq<IrValue>) -> Seq<u32> {
    filter_map(vs, |v: IrValue| ok_f32_bits(v))
}

/// The double-precision conversion of each element, failures dropped.
pub open spec fn f64bits_of(vs: Seq<IrValue>) -> Seq<u64> {
    filter_map(vs, |v: IrValue| ok_f64_bits(v))
}

/// The display text of each element of a semantic type, failures dropped.
pub open spec fn labels_of(st: SingleVarType, vs: Seq<IrValue>) -> Seq<Seq<char>> {
    filter_map(vs, |v: IrValue| loose_label_spec(st, v))
}

/// The views of a list of strings.
pub open spec fn views_of(ss: Seq<String>) -> Seq<Seq<char>> {
    ss.map_values(|s: String| s@)
}

pub open spec fn array_loose_matches(r: LooseValue, st: SingleVarType, vs: Seq<IrValue>) -> bool {
    match st {
        SingleVarType::Char | SingleVarType::Int => r matches LooseValue::IntList(xs) && xs@
            == i32s_of(vs),
        SingleVarType::Bool => r matches LooseValue::BoolList(xs) && xs@ == bools_of(vs),
        SingleVarType::Float => r matches LooseValue::FloatList(xs) && xs@ == f32bits_of(vs),
        SingleVarType::Double => r matches LooseValue::DoubleList(xs) && xs@ == f64bits_of(vs),
        _ => r matches LooseValue::TextList(ss) && views_of(ss@) == labels_of(st, vs),
    }
}

} // verus!
