use starryos_rk3588::can_driver_rk::{Can, CanError, CanFrame, CanFrameType};
use starryos_rk3588::i2c_embedded_hal::{I2c, I2cError, I2C0_BASE, I2C1_BASE};
use starryos_rk3588::integration::{ComponentInfo, ComponentStatus, HealthCheckReport, SubsystemType};
use starryos_rk3588::rknn_model::{HeaderError, RknnModelHeader};
use starryos_rk3588::scenarios::{ActuatorCommand, ScenarioStats};

#[test]
fn test_can_frame_new() {
    let frame = CanFrame::new(0x123, 8);
    assert_eq!(frame.id, 0x123);
    assert_eq!(frame.dlc, 8);
    assert!(!frame.is_rtr);
}

#[test]
fn test_can_frame_set_data() {
    let mut frame = CanFrame::new(0x456, 0);
    let data = [1, 2, 3, 4];
    frame.set_data(&data);
    assert_eq!(frame.dlc, 4);
    assert_eq!(frame.data[0], 1);
    assert_eq!(frame.data[3], 4);
}

#[test]
fn can_frame_caps_length_at_eight() {
    let mut frame = CanFrame::new(1, 12);
    assert_eq!(frame.dlc, 8);
    assert!(matches!(frame.frame_type, CanFrameType::Standard));
    frame.set_data(&[9u8; 11]);
    assert_eq!(frame.dlc, 8);
    assert_eq!(frame.data, [9u8; 8]);
    frame.set_data(&[5]);
    assert_eq!(frame.dlc, 1);
    assert_eq!(frame.data, [5, 9, 9, 9, 9, 9, 9, 9]);
    let can = Can::new(0xfea50000, 1000);
    assert_eq!(can.bitrate, 1000);
    assert_eq!(CanError::BusOff.message(), "CAN Bus Off");
}

#[test]
fn test_component_info() {
    let comp = ComponentInfo::new("test_component", SubsystemType::Drivers);
    assert_eq!(comp.name, "test_component");
    assert!(!comp.is_healthy());
}

#[test]
fn test_health_check() {
    let mut report = HealthCheckReport::new();
    report.update(8, 1, 10);
    assert_eq!(report.overall_health, 80);
}

#[test]
fn readiness_needs_health_and_no_errors() {
    let mut report = HealthCheckReport::new();
    report.update(8, 1, 10);
    assert!(!report.is_system_ready());
    report.update(8, 0, 10);
    assert!(report.is_system_ready());
    report.update(7, 0, 10);
    assert!(!report.is_system_ready());
    report.update(0, 0, 0);
    assert_eq!(report.overall_health, 70);
    let mut comp = ComponentInfo::new("npu", SubsystemType::Npu);
    comp.status = ComponentStatus::Running;
    assert!(comp.is_healthy());
    assert_eq!(SubsystemType::Npu.name(), "NPU");
}

#[test]
fn test_actuator_command() {
    let cmd = ActuatorCommand::new(0x01, 0, 255);
    assert_eq!(cmd.actuator_id, 0x01);
}

#[test]
fn scenario_stats_mean_time() {
    let mut stats = ScenarioStats::new();
    stats.update_execution(true, 70);
    stats.update_execution(true, 71);
    stats.update_execution(false, 10);
    assert_eq!(stats.successful, 2);
    assert_eq!(stats.failed, 1);
    assert_eq!(stats.avg_time_ms, 50);
}

fn valid_header() -> Vec<u8> {
    let mut model_data = vec![0u8; 64];
    model_data[0..4].copy_from_slice(b"RKNN");
    model_data[4] = 1;
    model_data[5] = 4;
    model_data[6] = 0;
    model_data[7] = 0;
    let size_bytes = 10u32 * 1024 * 1024;
    model_data[8..12].copy_from_slice(&size_bytes.to_be_bytes());
    model_data[12..14].copy_from_slice(&1u16.to_be_bytes());
    model_data[14..16].copy_from_slice(&3u16.to_be_bytes());
    model_data[16] = 0;
    model_data[20..24].copy_from_slice(&(256u32 * 1024 * 1024).to_be_bytes());
    model_data[24..28].copy_from_slice(&(256u32 * 1024 * 1024).to_be_bytes());
    model_data
}

#[test]
fn test_rknn_model_header_parse() {
    let model_data = valid_header();
    let header = RknnModelHeader::parse(&model_data);
    assert!(header.is_ok());

    let h = header.unwrap();
    assert_eq!(h.version[0], 1);
    assert_eq!(h.version[1], 4);
    assert_eq!(h.input_count, 1);
    assert_eq!(h.output_count, 3);
    assert_eq!(h.model_size, 10 * 1024 * 1024);
    assert_eq!(&h.magic, b"RKNN");
}

#[test]
fn test_rknn_model_header_invalid_magic() {
    let model_data = vec![0xFFu8; 64];
    let header = RknnModelHeader::parse(&model_data);
    assert!(header.is_err());
}

#[test]
fn test_rknn_model_header_too_small() {
    let model_data = vec![0u8; 16];
    let header = RknnModelHeader::parse(&model_data);
    assert!(header.is_err());
}

#[test]
fn header_errors_in_rule_order() {
    assert_eq!(RknnModelHeader::parse(&[0u8; 31]).unwrap_err(), HeaderError::TooSmall);
    let mut d = valid_header();
    d[4] = 3;
    assert_eq!(RknnModelHeader::parse(&d).unwrap_err(), HeaderError::UnsupportedVersion);
    let mut d = valid_header();
    d[7] = 2;
    assert_eq!(RknnModelHeader::parse(&d).unwrap_err(), HeaderError::InvalidModelType);
    let mut d = valid_header();
    d[12..14].copy_from_slice(&257u16.to_be_bytes());
    assert_eq!(RknnModelHeader::parse(&d).unwrap_err(), HeaderError::InvalidInputCount);
    let mut d = valid_header();
    d[14..16].copy_from_slice(&0u16.to_be_bytes());
    assert_eq!(RknnModelHeader::parse(&d).unwrap_err(), HeaderError::InvalidOutputCount);
    let mut d = valid_header();
    d[8..12].copy_from_slice(&(128u32 * 1024 * 1024 + 1).to_be_bytes());
    assert_eq!(RknnModelHeader::parse(&d).unwrap_err(), HeaderError::InvalidModelSize);
    let mut d = valid_header();
    d[20..24].copy_from_slice(&0u32.to_be_bytes());
    assert_eq!(RknnModelHeader::parse(&d).unwrap_err(), HeaderError::InvalidMaxInputSize);
    let mut d = valid_header();
    d[24..28].copy_from_slice(&(256u32 * 1024 * 1024 + 1).to_be_bytes());
    assert_eq!(RknnModelHeader::parse(&d).unwrap_err(), HeaderError::InvalidMaxOutputSize);
    let mut d = valid_header();
    d[16] = 7;
    assert!(RknnModelHeader::parse(&d).unwrap().support_dynamic);
}

#[test]
fn integrity_checks_length_and_body_sum() {
    let mut d = valid_header();
    d[8..12].copy_from_slice(&40u32.to_be_bytes());
    let h = RknnModelHeader::parse(&d).unwrap();
    assert_eq!(h.validate_integrity(&d[..39]).unwrap_err(), HeaderError::Incomplete);
    assert_eq!(h.validate_integrity(&d).unwrap_err(), HeaderError::ZeroChecksum);
    d[35] = 1;
    assert!(h.validate_integrity(&d).is_ok());
    d[40] = 0;
    assert_eq!(HeaderError::Incomplete.message(), "Model data incomplete");
}

#[test]
fn test_i2c_new() {
    let i2c = I2c::new(I2C0_BASE, 100);
    assert_eq!(i2c.base, I2C0_BASE);
    assert_eq!(i2c.freq_khz, 100);
}

#[test]
fn test_clock_div_calculation() {
    let div = ((24 * 1000) / (2 * 100)) - 1;
    assert_eq!(div, 119);
    assert_eq!(I2c::new(I2C0_BASE, 100).clock_div(24), Ok(119));
}

#[test]
fn clock_div_out_of_register_range_is_refused() {
    let slow = I2c::new(I2C1_BASE, 1);
    assert_eq!(slow.clock_div(200), Err(I2cError::InvalidAddr));
    let fast = I2c::new(I2C1_BASE, 400);
    assert_eq!(fast.clock_div(200), Ok(249));
    assert_eq!(I2cError::NoAck.message(), "No ACK from slave");
}
