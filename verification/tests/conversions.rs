//! Typed conversions: integer/float round-tripping at the bit level,
//! range checks, semantic enumerations and flag sets.

use ir_telemetry::float_bits::{f32_bits_to_f64_bits, i32_to_f32_bits, i32_to_f64_bits};
use ir_telemetry::types::{
    LF_TIRE_CHANGE, LR_TIRE_CHANGE, OIL_PRESSURE, PIT_SERVICE_FLAGS_ALL, WATER_TEMP,
};
use ir_telemetry::{
    CarLeftRight, EngineWarnings, Flags, IrError, IrValue, PaceMode, PitServiceFlags, PitStatus,
    SessionState, TrackLocation, TrackSurface, TrackWetness,
};

#[test]
fn int_five_converts_to_float_five() {
    let bits = IrValue::Int(5).to_f32_bits().unwrap();
    assert_eq!(f32::from_bits(bits), 5.0);
    let bits64 = IrValue::Int(5).to_f64_bits().unwrap();
    assert_eq!(f64::from_bits(bits64), 5.0);
}

#[test]
fn double_rounds_first_then_range_checks() {
    // The rounded value decides: failures come exactly when it leaves the
    // 32-bit range.
    let v = IrValue::Double(2147483648.5f64.to_bits());
    assert_eq!(v.to_i32(), Err(IrError::ExceedsVariableRange));
    let v = IrValue::Double(2147483647.5f64.to_bits());
    assert_eq!(v.to_i32(), Err(IrError::ExceedsVariableRange));
    let v = IrValue::Double(2147483647.25f64.to_bits());
    assert_eq!(v.to_i32(), Ok(2147483647));
    let v = IrValue::Double(2147483646.5f64.to_bits());
    assert_eq!(v.to_i32(), Ok(2147483647));
    let v = IrValue::Double((-2147483648.5f64).to_bits());
    assert_eq!(v.to_i32(), Err(IrError::ExceedsVariableRange));
    let v = IrValue::Double((-2147483648.25f64).to_bits());
    assert_eq!(v.to_i32(), Ok(i32::MIN));
    let v = IrValue::Double((-2147483648.0f64).to_bits());
    assert_eq!(v.to_i32(), Ok(i32::MIN));
}

#[test]
fn bitfield_five_is_exactly_the_two_tire_changes() {
    let flags = PitServiceFlags::from_value(&IrValue::BitField(0x0000_0005)).unwrap();
    assert!(flags.contains(LF_TIRE_CHANGE));
    assert!(flags.contains(LR_TIRE_CHANGE));
    assert_eq!(flags.bits, LF_TIRE_CHANGE | LR_TIRE_CHANGE);
}

#[test]
fn unknown_flag_bits_are_truncated_not_fatal() {
    let raw = 0x0000_0005u32 | !PIT_SERVICE_FLAGS_ALL;
    let flags = PitServiceFlags::from_bits_truncate(raw);
    assert_eq!(flags.bits, 0x0000_0005);
    assert_eq!(
        PitServiceFlags::from_value(&IrValue::BitField(raw as i32)).unwrap().bits,
        0x0000_0005
    );
}

#[test]
fn int_to_f32_matches_the_native_cast() {
    for v in [
        0,
        1,
        -1,
        5,
        255,
        -4096,
        16777215,
        16777216,
        16777217, // rounds to nearest even
        16777219,
        33554430,
        2147483521,
        2147483646,
        i32::MAX,
        i32::MIN,
        i32::MIN + 1,
    ] {
        assert_eq!(i32_to_f32_bits(v), (v as f32).to_bits(), "value {v}");
    }
}

#[test]
fn int_to_f64_matches_the_native_cast() {
    for v in [0, 1, -1, 5, 16777217, i32::MAX, i32::MIN] {
        assert_eq!(i32_to_f64_bits(v), (v as f64).to_bits(), "value {v}");
    }
}

#[test]
fn f32_widening_matches_the_native_cast() {
    for f in [
        0.0f32,
        -0.0,
        1.5,
        -2.25,
        f32::MIN_POSITIVE,
        1.0e-40, // subnormal
        f32::MAX,
        f32::INFINITY,
        f32::NEG_INFINITY,
    ] {
        assert_eq!(
            f32_bits_to_f64_bits(f.to_bits()),
            (f as f64).to_bits(),
            "value {f}"
        );
    }
    let widened = f32_bits_to_f64_bits(f32::NAN.to_bits());
    assert!(f64::from_bits(widened).is_nan());
}

#[test]
fn float_to_i32_rounds_halves_away_from_zero() {
    for (f, expected) in [
        (2.5f32, 3),
        (-2.5, -3),
        (2.4, 2),
        (-0.5, -1),
        (0.49, 0),
        (1.0e9, 1_000_000_000),
    ] {
        assert_eq!(IrValue::Float(f.to_bits()).to_i32(), Ok(expected), "value {f}");
    }
    assert_eq!(IrValue::Float(f32::NAN.to_bits()).to_i32(), Ok(0));
    assert_eq!(
        IrValue::Float(f32::INFINITY.to_bits()).to_i32(),
        Err(IrError::ExceedsVariableRange)
    );
    assert_eq!(
        IrValue::Float(3.0e9f32.to_bits()).to_i32(),
        Err(IrError::ExceedsVariableRange)
    );
    // The nearest single to 2147483648.5 is 2^31 itself, which rounds to
    // 2^31 and therefore exceeds the positive range; its negation is the
    // smallest 32-bit integer and converts.
    assert_eq!(
        IrValue::Float(2147483648.5f32.to_bits()).to_i32(),
        Err(IrError::ExceedsVariableRange)
    );
    assert_eq!(
        IrValue::Float(2147483648.0f32.to_bits()).to_i32(),
        Err(IrError::ExceedsVariableRange)
    );
    assert_eq!(IrValue::Float((-2147483648.0f32).to_bits()).to_i32(), Ok(i32::MIN));
}

#[test]
fn mismatched_targets_are_type_errors() {
    assert_eq!(IrValue::Int(1).to_bool(), Err(IrError::TypeError));
    assert_eq!(IrValue::Bool(true).to_i32(), Err(IrError::TypeError));
    assert_eq!(IrValue::Double(0).to_f32_bits(), Err(IrError::TypeError));
    assert_eq!(IrValue::ETCount.to_f32_bits(), Err(IrError::TypeError));
    assert_eq!(IrValue::Char(7).to_u8(), Ok(7));
    assert_eq!(IrValue::Bool(true).to_bool(), Ok(true));
    assert_eq!(IrValue::Char(7).to_i32(), Ok(7));
    assert_eq!(IrValue::Int(-3).to_i64(), Ok(-3i64));
    assert_eq!(IrValue::Int(-3).to_isize(), Ok(-3isize));
}

#[test]
fn semantic_enums_decode_known_discriminants_only() {
    assert_eq!(
        TrackLocation::from_value(&IrValue::Int(-1)),
        Ok(TrackLocation::NotInWorld)
    );
    assert_eq!(
        TrackLocation::from_value(&IrValue::Int(4)),
        Err(IrError::TypeError)
    );
    assert_eq!(
        TrackLocation::from_value(&IrValue::Float(0)),
        Err(IrError::TypeError)
    );
    assert_eq!(
        SessionState::from_value(&IrValue::Int(4)),
        Ok(SessionState::Racing)
    );
    assert_eq!(
        PitStatus::from_value(&IrValue::Int(100)),
        Ok(PitStatus::TooFarLeft)
    );
    assert_eq!(PitStatus::from_value(&IrValue::Int(3)), Err(IrError::TypeError));
    assert_eq!(
        CarLeftRight::from_value(&IrValue::Int(2)),
        Ok(CarLeftRight::CarLeft)
    );
    assert_eq!(PaceMode::from_value(&IrValue::Int(4)), Ok(PaceMode::NotPacing));
    assert_eq!(
        TrackWetness::from_value(&IrValue::Int(7)),
        Ok(TrackWetness::ExtremelyWet)
    );
    assert_eq!(
        TrackSurface::from_value(&IrValue::Int(27)),
        Ok(TrackSurface::AstroturfMaterial)
    );
}

#[test]
fn labels_render_the_display_names() {
    assert_eq!(TrackLocation::OnTrack.label(), "OnTrack");
    assert_eq!(SessionState::CoolDown.label(), "CoolDown");
    assert_eq!(TrackWetness::VeryLightlyWet.label(), "VeryLightlyWet");
    assert_eq!(
        EngineWarnings { bits: WATER_TEMP | OIL_PRESSURE }.label(),
        "Water Temp, Oil Pressure"
    );
    assert_eq!(EngineWarnings { bits: 0 }.label(), "");
    assert_eq!(
        PitServiceFlags { bits: LF_TIRE_CHANGE }.label(),
        "LF Tire Change"
    );
    let everything = Flags::from_bits_truncate(u32::MAX);
    let text = everything.label();
    assert!(text.starts_with("Checkered Flag, White Flag"));
    assert!(text.ends_with("Start Go"));
    assert_eq!(
        ir_telemetry::CameraState { bits: 0x0001 | 0x0008 }.label(),
        "Session Screen, UI Hidden"
    );
    assert_eq!(
        ir_telemetry::PaceFlags { bits: 0x0002 | 0x0004 }.label(),
        "Free Pass, Wave Around"
    );
}

#[test]
fn error_messages_name_the_failure() {
    assert_eq!(
        IrError::TypeError.message(),
        "Could not convert value to requested type"
    );
    assert_eq!(
        IrError::ExceedsVariableRange.message(),
        "Variable exceeds range for type"
    );
    assert_eq!(
        IrError::VariableNotFound("Speed".to_string()).message(),
        "Variable Speed not found in data"
    );
    assert_eq!(
        IrError::MemMappingError("no producer".to_string()).message(),
        "Failure to access memory-mapped file: no producer"
    );
}
