//! Frames end to end: classification by name, raw extraction and the
//! loosely-typed conversion.

use ir_telemetry::header::{Buffer, Header};
use ir_telemetry::{
    DataVarType, IrData, IrDataInner, IrValue, LooseValue, SingleVarType, VarHeader,
    VarHeaderGeneric, VarType,
};

fn descriptor(t: DataVarType, offset: i32, count: i32, name: &str) -> VarHeader {
    VarHeaderGeneric {
        _type: t,
        offset,
        count,
        count_as_time: 0,
        name: name.to_string(),
        desc: String::new(),
        unit: String::new(),
    }
}

fn frame_of(bytes: Vec<u8>) -> IrData {
    let header = Header {
        ver: 2,
        status: 1,
        tick_rate: 60,
        session_info_update: 0,
        session_info_len: 0,
        session_info_offset: 0,
        num_vars: 1,
        var_header_offset: 0,
        num_buf: 1,
        buf_len: bytes.len() as i32,
        buffers: vec![Buffer { tick_count: 41, offset: 0 }],
    };
    IrData::new(IrDataInner::new(bytes, header, 41))
}

#[test]
fn classification_follows_the_name_table() {
    let vt = descriptor(DataVarType::Int, 0, 1, "CarIdxTrackSurface").var_type();
    assert!(matches!(vt, VarType::Single(SingleVarType::TrackLocation)));
    let vt = descriptor(DataVarType::Int, 0, 3, "CarIdxTrackSurface").var_type();
    assert!(matches!(vt, VarType::Array(SingleVarType::TrackLocation)));
    let vt = descriptor(DataVarType::Int, 0, 1, "SessionState").var_type();
    assert!(matches!(vt, VarType::Single(SingleVarType::SessionState)));
    let vt = descriptor(DataVarType::Int, 0, 1, "Gear").var_type();
    assert!(matches!(vt, VarType::Single(SingleVarType::Int)));
    let vt = descriptor(DataVarType::BitField, 0, 1, "PitSvFlags").var_type();
    assert!(matches!(vt, VarType::Single(SingleVarType::PitServiceFlags)));
    let vt = descriptor(DataVarType::BitField, 0, 1, "SomethingNew").var_type();
    assert!(matches!(vt, VarType::Single(SingleVarType::Int)));
    let vt = descriptor(DataVarType::ETCount, 0, 1, "whatever").var_type();
    assert!(matches!(vt, VarType::Single(SingleVarType::Float)));
}

#[test]
fn get_reads_the_declared_elements() {
    let data = frame_of(vec![0x39, 0x30, 0x00, 0x00, 0x01, 0x02]);
    let speed = descriptor(DataVarType::Int, 0, 1, "RPM");
    assert_eq!(data.get(Some(&speed)), Some(IrValue::Int(12345)));
    let pair = descriptor(DataVarType::Char, 4, 2, "Pair");
    assert_eq!(
        data.get(Some(&pair)),
        Some(IrValue::Array(vec![IrValue::Char(1), IrValue::Char(2)]))
    );
    assert_eq!(data.get(None), None);
    let beyond = descriptor(DataVarType::Double, 0, 1, "Beyond");
    assert_eq!(data.get(Some(&beyond)), None);
}

#[test]
fn tick_and_bytes_are_the_snapshot() {
    let data = frame_of(vec![1, 2, 3]);
    assert_eq!(data.tick(), 41);
    assert_eq!(data.data().to_vec(), vec![1, 2, 3]);
}

#[test]
fn get_into_renders_semantic_values_as_text() {
    let mut bytes = Vec::new();
    bytes.extend(0i32.to_le_bytes()); // OffTrack
    bytes.extend(3i32.to_le_bytes()); // OnTrack
    bytes.extend((-1i32).to_le_bytes()); // NotInWorld
    let data = frame_of(bytes);
    let vh = descriptor(DataVarType::Int, 0, 3, "CarIdxTrackSurface");
    let got = data.get_into(Some(&vh));
    assert_eq!(
        got,
        Some(LooseValue::TextList(vec![
            "OffTrack".to_string(),
            "OnTrack".to_string(),
            "NotInWorld".to_string(),
        ]))
    );
    let scalar = descriptor(DataVarType::Int, 4, 1, "CarIdxTrackSurface");
    assert_eq!(
        data.get_into(Some(&scalar)),
        Some(LooseValue::Text("OnTrack".to_string()))
    );
}

#[test]
fn get_into_keeps_plain_numbers_numeric() {
    let mut bytes = Vec::new();
    bytes.extend(7i32.to_le_bytes());
    bytes.extend(2.5f32.to_bits().to_le_bytes());
    bytes.push(1);
    let data = frame_of(bytes);
    assert_eq!(
        data.get_into(Some(&descriptor(DataVarType::Int, 0, 1, "Gear"))),
        Some(LooseValue::Int(7))
    );
    assert_eq!(
        data.get_into(Some(&descriptor(DataVarType::Float, 4, 1, "Speed"))),
        Some(LooseValue::Float(2.5f32.to_bits()))
    );
    assert_eq!(
        data.get_into(Some(&descriptor(DataVarType::Bool, 8, 1, "OnPitRoad"))),
        Some(LooseValue::Bool(true))
    );
    assert_eq!(data.get_into(None), None);
}

#[test]
fn get_into_drops_unconvertible_array_elements() {
    let mut bytes = Vec::new();
    bytes.extend(3i32.to_le_bytes()); // OnTrack
    bytes.extend(99i32.to_le_bytes()); // unknown discriminant: dropped
    let data = frame_of(bytes);
    let vh = descriptor(DataVarType::Int, 0, 2, "CarIdxTrackSurface");
    assert_eq!(
        data.get_into(Some(&vh)),
        Some(LooseValue::TextList(vec!["OnTrack".to_string()]))
    );
}
