//! Semantic variable types.
//!
//! The wire format only distinguishes six physical types; several of them are
//! semantically overloaded. A variable's name refines its physical type into
//! one of these semantic types at catalog-build time.

use vstd::prelude::*;

verus! {

/// Semantic type of one element of a variable.
#[derive(Debug, Clone, Copy, PartialEq, Eq, Structural)]
pub enum SingleVarType {
    Char,
    Bool,
    Int,
    Float,
    Double,
    TrackLocation,
    TrackSurface,
    SessionState,
    CarLeftRight,
    PitStatus,
    PaceMode,
    TrackWetness,
    EngineWarnings,
    Flags,
    CameraState,
    PitServiceFlags,
    PaceFlags,
}

/// Whether a variable holds one element or an array of them, orthogonal to
/// the semantic element type.
#[derive(Debug, Clone, Copy, PartialEq, Eq, Structural)]
pub enum VarType {
    Single(SingleVarType),
    Array(SingleVarType),
}

} // verus!
