//! The typed session-document values the library defines.

use ir_telemetry::{CameraData, CameraGroup, CameraInfo, InfoBool, Measurement};

#[test]
fn info_bool_accepts_only_zero_and_one() {
    assert_eq!(InfoBool::from_u8(0), Some(InfoBool(false)));
    assert_eq!(InfoBool::from_u8(1), Some(InfoBool(true)));
    assert_eq!(InfoBool::from_u8(2), None);
    assert_eq!(InfoBool::from_u8(255), None);
    assert!(InfoBool(true).value());
}

#[test]
fn session_shapes_hold_their_fields() {
    let m = Measurement { value: 42i32, unit: Some("kph".to_string()) };
    assert_eq!(m.value, 42);
    assert_eq!(m.unit.as_deref(), Some("kph"));
    let info = CameraInfo {
        groups: vec![CameraGroup {
            group_name: "Chase".to_string(),
            group_num: 1,
            is_scenic: None,
            cameras: vec![CameraData { camera_name: "Far".to_string(), camera_num: 2 }],
        }],
    };
    assert_eq!(info.groups[0].cameras[0].camera_num, 2);
}
