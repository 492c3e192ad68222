//! Byte-level decoding: little-endian reads, text trimming, the control
//! block, the variable catalog, and the decode/encode round trip.

use ir_telemetry::byte_array_to_rust_string;
use ir_telemetry::header::{Buffer, Header, HEADER_SIZE, MAX_BUFFERS};
use ir_telemetry::utils::{read_i32_le, read_u32_le, read_u64_le};
use ir_telemetry::values::{decode_one, encode_value};
use ir_telemetry::var_header::{parse_catalog, VAR_HEADER_SIZE};
use ir_telemetry::{find_var, DataVarType, IrValue, VarHeader, VarHeaderGeneric};

fn plain_header(buffers: Vec<Buffer>) -> Header {
    Header {
        ver: 2,
        status: 1,
        tick_rate: 60,
        session_info_update: 0,
        session_info_len: 0,
        session_info_offset: 0,
        num_vars: 1,
        var_header_offset: 0,
        num_buf: buffers.len() as i32,
        buf_len: 64,
        buffers,
    }
}

fn descriptor(t: DataVarType, offset: i32, count: i32, name: &str) -> VarHeader {
    VarHeaderGeneric {
        _type: t,
        offset,
        count,
        count_as_time: 0,
        name: name.to_string(),
        desc: String::new(),
        unit: String::new(),
    }
}

#[test]
fn test_byte_array_to_rust_string_with_multiple_zero_bytes_at_end() {
    let input = vec![104, 101, 108, 108, 111, 0, 0, 0]; // "hello" with three zero bytes at the end
    let expected = "hello".to_string();
    assert_eq!(byte_array_to_rust_string(&input), expected);
}

#[test]
fn test_value_from_bytes() {
    let numbers: [u8; 4] = [0x78, 0x56, 0x34, 0x12];
    let value: u32 = read_u32_le(&numbers, 0);
    assert_eq!(value, 0x12345678);
}

#[test]
fn test_value_from_bytes_ptr_offset_count() {
    let numbers: Vec<u8> = vec![
        0, 0, 0, 0, // padding
        0x78, 0x56, 0x34, 0x12,
    ]; // target u32
    let value: u32 = read_u32_le(&numbers, 1 + 3);
    assert_eq!(value, 0x12345678);
}

#[test]
fn reads_are_little_endian_and_signed() {
    let bytes = [0xff, 0xff, 0xff, 0xff, 0x01, 0x00, 0x00, 0x00];
    assert_eq!(read_i32_le(&bytes, 0), -1);
    assert_eq!(read_i32_le(&bytes, 4), 1);
    assert_eq!(read_u64_le(&bytes, 0), 0x0000_0001_ffff_ffff);
}

#[test]
fn trimming_stops_at_first_null_only() {
    let mut field = vec![0u8; 32];
    field[..5].copy_from_slice(b"Speed");
    field[6] = 0x41; // garbage after the first null byte is ignored
    assert_eq!(byte_array_to_rust_string(&field), "Speed");
}

#[test]
fn trimming_without_null_keeps_everything() {
    assert_eq!(byte_array_to_rust_string(b"kg/m^2"), "kg/m^2");
}

#[test]
fn invalid_utf8_is_replaced_not_passed_through() {
    let input = [0xff, 0x41, 0x00];
    assert_eq!(byte_array_to_rust_string(&input), "\u{fffd}A");
}

#[test]
fn control_block_decodes_every_field() {
    let mut bytes = vec![0u8; HEADER_SIZE];
    let fields: [(usize, i32); 10] = [
        (0, 2),    // ver
        (4, 1),    // status: connected
        (8, 60),   // tick rate
        (12, 7),   // session info update
        (16, 512), // session info len
        (20, 4096), // session info offset
        (24, 3),   // num vars
        (28, 144), // var header offset
        (32, 3),   // num buf
        (36, 64),  // buf len
    ];
    for (off, v) in fields {
        bytes[off..off + 4].copy_from_slice(&v.to_le_bytes());
    }
    for i in 0..MAX_BUFFERS {
        let tick = (10 + i as i32).to_le_bytes();
        let offset = (1000 + 64 * i as i32).to_le_bytes();
        bytes[48 + 16 * i..52 + 16 * i].copy_from_slice(&tick);
        bytes[52 + 16 * i..56 + 16 * i].copy_from_slice(&offset);
    }
    let h = Header::from_bytes(&bytes);
    assert_eq!(h.ver, 2);
    assert!(h.is_connected());
    assert_eq!(h.tick_rate, 60);
    assert_eq!(h.session_info_update(), 7);
    assert_eq!(h.session_info_len, 512);
    assert_eq!(h.session_info_offset, 4096);
    assert_eq!(h.num_vars, 3);
    assert_eq!(h.var_header_offset, 144);
    assert_eq!(h.num_buf, 3);
    assert_eq!(h.buf_len, 64);
    assert_eq!(h.buffers.len(), MAX_BUFFERS);
    assert_eq!(h.buffers[3], Buffer { tick_count: 13, offset: 1192 });
}

#[test]
fn disconnected_status_bit() {
    let bytes = vec![0u8; HEADER_SIZE];
    let h = Header::from_bytes(&bytes);
    assert!(!h.is_connected());
}

#[test]
fn freshest_buffer_takes_strict_maximum_tick() {
    let h = plain_header(vec![
        Buffer { tick_count: 5, offset: 0 },
        Buffer { tick_count: 9, offset: 64 },
        Buffer { tick_count: 8, offset: 128 },
        Buffer { tick_count: 3, offset: 192 },
    ]);
    let b = h.most_recent_buffer().unwrap();
    assert_eq!(b, Buffer { tick_count: 9, offset: 64 });
}

#[test]
fn freshest_buffer_tie_resolves_to_first_in_order() {
    let h = plain_header(vec![
        Buffer { tick_count: 5, offset: 0 },
        Buffer { tick_count: 9, offset: 64 },
        Buffer { tick_count: 9, offset: 128 },
        Buffer { tick_count: 9, offset: 192 },
    ]);
    let b = h.most_recent_buffer().unwrap();
    assert_eq!(b.offset, 64);
}

#[test]
fn undeclared_trailing_slots_are_ignored() {
    let mut h = plain_header(vec![
        Buffer { tick_count: 5, offset: 0 },
        Buffer { tick_count: 9, offset: 64 },
        Buffer { tick_count: 77, offset: 128 }, // stale slot beyond num_buf
        Buffer { tick_count: 99, offset: 192 },
    ]);
    h.num_buf = 2;
    let b = h.most_recent_buffer().unwrap();
    assert_eq!(b, Buffer { tick_count: 9, offset: 64 });
}

#[test]
fn freshest_buffer_of_no_buffers_fails() {
    let h = plain_header(vec![]);
    assert!(h.most_recent_buffer().is_none());
}

fn record(name: &str, type_code: i32, offset: i32, count: i32) -> Vec<u8> {
    let mut r = vec![0u8; VAR_HEADER_SIZE];
    r[0..4].copy_from_slice(&type_code.to_le_bytes());
    r[4..8].copy_from_slice(&offset.to_le_bytes());
    r[8..12].copy_from_slice(&count.to_le_bytes());
    r[16..16 + name.len()].copy_from_slice(name.as_bytes());
    r[48..48 + 4].copy_from_slice(b"desc");
    r[112..112 + 3].copy_from_slice(b"m/s");
    r
}

#[test]
fn catalog_reads_all_but_the_sentinel_slot() {
    let mut bytes = record("Speed", 4, 0, 1);
    bytes.extend(record("CarIdxTrackSurface", 2, 4, 3));
    bytes.extend(record("sentinel", 6, 0, 0)); // excluded by the format's convention
    let headers = parse_catalog(&bytes, 3);
    assert_eq!(headers.len(), 2);
    assert_eq!(headers[0].name(), "Speed");
    assert_eq!(headers[0].description(), "desc");
    assert_eq!(headers[0].units(), "m/s");
    assert_eq!(headers[0]._type, DataVarType::Float);
    assert_eq!(headers[1].name(), "CarIdxTrackSurface");
    assert_eq!(headers[1].count, 3);
}

#[test]
fn unknown_type_code_fails_closed() {
    let bytes = [record("Mystery", 42, 0, 1), record("pad", 0, 0, 0)].concat();
    let headers = parse_catalog(&bytes, 2);
    assert_eq!(headers[0]._type, DataVarType::ETCount);
}

#[test]
fn lookup_by_name_lets_the_last_duplicate_win() {
    let headers = vec![
        descriptor(DataVarType::Int, 0, 1, "RPM"),
        descriptor(DataVarType::Float, 4, 1, "Speed"),
        descriptor(DataVarType::Double, 8, 1, "RPM"),
    ];
    assert_eq!(find_var(&headers, "RPM"), Some(2));
    assert_eq!(find_var(&headers, "Speed"), Some(1));
    assert_eq!(find_var(&headers, "Gear"), None);
}

#[test]
fn decode_then_encode_reproduces_the_bytes() {
    let bytes: Vec<u8> = vec![0x01, 0x00, 0x78, 0x56, 0x34, 0x12, 0xde, 0xad, 0xbe, 0xef, 0x11, 0x22];
    for (t, off) in [
        (DataVarType::Char, 2usize),
        (DataVarType::Bool, 0),
        (DataVarType::Int, 2),
        (DataVarType::BitField, 3),
        (DataVarType::Float, 4),
        (DataVarType::Double, 1),
    ] {
        let size = t.amount_of_bytes();
        let v = decode_one(t, &bytes, off);
        assert_eq!(encode_value(&v), &bytes[off..off + size], "type {t:?}");
    }
}

#[test]
fn array_elements_round_trip_too() {
    let bytes: Vec<u8> = (1..=12).collect();
    let vh = descriptor(DataVarType::Int, 0, 3, "ints");
    let decoded = vh.extract_value(&bytes).unwrap();
    let IrValue::Array(elems) = decoded else {
        panic!("expected an array")
    };
    let mut rebuilt = Vec::new();
    for e in &elems {
        rebuilt.extend(encode_value(e));
    }
    assert_eq!(rebuilt, bytes);
}

#[test]
fn out_of_bounds_descriptor_is_rejected_not_fatal() {
    let bytes = vec![0u8; 8];
    assert!(descriptor(DataVarType::Double, 4, 1, "x").extract_value(&bytes).is_none());
    assert!(descriptor(DataVarType::Int, -4, 1, "x").extract_value(&bytes).is_none());
    assert!(descriptor(DataVarType::Int, 0, 0, "x").extract_value(&bytes).is_none());
    assert!(descriptor(DataVarType::Int, 0, 2, "x").extract_value(&bytes).is_some());
}
