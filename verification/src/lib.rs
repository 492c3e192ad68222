//! Live telemetry reader for a simulator's shared-memory region.
//!
//! The simulator publishes a fixed-layout control block, a self-describing
//! variable catalog, a session document, and a set of rotating data buffers
//! inside one shared-memory region. This crate contains the verified core:
//! decoding those layouts from raw bytes, selecting the freshest buffer,
//! classifying variables into semantic types, converting raw values into
//! typed ones, and the state machine that drives the polling loop.
//!
//! Opening the shared-memory mapping, waiting on the update event, threads
//! and channels are platform work that lives outside this library; it hands
//! raw bytes in and takes owned values out.

pub mod client;
pub mod error;
pub mod float_bits;
pub mod full_value;
pub mod header;
pub mod ir_data;
pub mod session_info;
pub mod types;
pub mod utils;
pub mod values;
pub mod var_header;

pub use client::{catalog_map, Client, PollCommand, Poller, SampleOutcome, UpdatePacket};
pub use error::IrError;
pub use types::{
    CameraState, CarLeftRight, EngineWarnings, Flags, IrValue, LooseValue, PaceFlags, PaceMode,
    PitServiceFlags, PitStatus, SessionState, TrackLocation, TrackSurface, TrackWetness,
};
pub use full_value::{SingleVarType, VarType};
pub use header::{Buffer, Header};
pub use ir_data::{IrData, IrDataInner};
pub use session_info::{
    CameraData, CameraGroup, CameraInfo, InfoBool, Measurement, RadioData, RadioFrequencyData,
    RadioInfo, TelemetryOptions,
};
pub use utils::byte_array_to_rust_string;
pub use values::DataVarType;
pub use var_header::{find_var, parse_catalog, VarHeader, VarHeaderGeneric};
