//! Driver core for the RPLIDAR family of spinning laser range finders:
//! request/answer framing, measurement decoding and scan assembly.

mod answers;
mod capsuled_parser;
mod channel;
mod checksum;
mod commands;
mod crc;
mod device;
mod errors;
mod internals;
mod message;
mod prelude;
mod protocol;
mod ring_byte_buffer;
mod ultra_capsuled_parser;
mod utils;
mod wire;

pub use answers::{
    cabin_of, node_hq_of, RplidarResponseCabinNodes, RplidarResponseCapsuleMeasurementNodes,
    RplidarResponseDeviceHealth, RplidarResponseDeviceInfo,
    RplidarResponseHqCapsuledMeasurementNodes, RplidarResponseMeasurementNode,
    RplidarResponseMeasurementNodeHq, RplidarResponseUltraCapsuleMeasurementNodes,
    RPLIDAR_ANS_TYPE_ACC_BOARD_FLAG, RPLIDAR_ANS_TYPE_DEVHEALTH, RPLIDAR_ANS_TYPE_DEVINFO,
    RPLIDAR_ANS_TYPE_GET_LIDAR_CONF, RPLIDAR_ANS_TYPE_MEASUREMENT,
    RPLIDAR_ANS_TYPE_MEASUREMENT_CAPSULED, RPLIDAR_ANS_TYPE_MEASUREMENT_CAPSULED_ULTRA,
    RPLIDAR_ANS_TYPE_MEASUREMENT_HQ,
};
pub use capsuled_parser::{
    angle_diff_q8, cabin_point, capsuled_point, capsuled_points, check_sync, generate_flag,
    generate_quality, parse_capsuled, running_angle, spec_angle_diff_q8, spec_check_sync,
    spec_generate_flag, spec_generate_quality, spec_to_hq, start_angle_q8, to_hq, ParsedNode,
    ANGLE_360_Q16, ANGLE_360_Q8,
};
pub use channel::{
    channel_read, Channel, ChannelView, ReadOutcome, DEFAULT_CHANNEL_READ_BUFFER_SIZE,
};
pub use checksum::{lemma_xor_all_concat, lemma_xor_all_update, xor_all, Checksum};
pub use commands::{
    health_of, is_start_scan_request, le_bytes_u16, le_bytes_u32, lidar_conf_request,
    motor_ctrl_support_request, motor_pwm_request, parse_conf_u16, parse_conf_u32,
    parse_conf_u8, parse_device_health, parse_device_info, parse_lidar_conf,
    parse_motor_ctrl_support, scan_mode_conf_request, start_scan_request,
    typical_scan_mode_without_conf, RplidarPayloadExpressScan, RPLIDAR_CMD_EXPRESS_SCAN,
    RPLIDAR_CMD_FORCE_SCAN, RPLIDAR_CMD_GET_ACC_BOARD_FLAG, RPLIDAR_CMD_GET_DEVICE_HEALTH,
    RPLIDAR_CMD_GET_DEVICE_INFO, RPLIDAR_CMD_GET_LIDAR_CONF, RPLIDAR_CMD_RESET,
    RPLIDAR_CMD_SCAN, RPLIDAR_CMD_SET_MOTOR_PWM, RPLIDAR_CMD_STOP,
    RPLIDAR_CONF_SCAN_MODE_ANS_TYPE, RPLIDAR_CONF_SCAN_MODE_COUNT,
    RPLIDAR_CONF_SCAN_MODE_MAX_DISTANCE, RPLIDAR_CONF_SCAN_MODE_NAME,
    RPLIDAR_CONF_SCAN_MODE_TYPICAL, RPLIDAR_CONF_SCAN_MODE_US_PER_SAMPLE,
    RPLIDAR_GET_LIDAR_CONF_START_VERSION,
};
pub use crate::crc::crc32_ieee;
pub use device::{
    capsule_check_ok, capsuled_output, check_hq_frame, check_sync_and_checksum,
    check_sync_and_checksum_hq, hq_check_ok, hq_points, is_scan_end, legacy_node_of,
    legacy_point, lemma_capsule_corruption_detected, points_of, ultra_capsuled_output,
    RplidarDevice, ScanProgress,
};
pub use errors::{operation_fail, protocol_error, Result, RposError};
pub use internals::{CachedPrevCapsule, RPLIDAR_DEFAULT_CACHE_DEPTH, RPLIDAR_DEFAULT_MOTOR_PWM};
pub use message::{frame_of, Message, ProtocolDecoder, ProtocolEncoder};
pub use prelude::{point_of, point_sync, point_valid, Health, LaserScan, ScanOptions, ScanPoint};
pub use protocol::{
    ans_sync_byte, answer_bytes, decode_spec, header_flag, header_size, is_loop,
    lemma_decode_answer_round_trip, lemma_decode_consumes_all, lemma_step_wf, min_nat,
    request_bytes, step, DecodeResult, DecodeStatus, DecoderView, RplidarHostProtocol,
};
pub use ring_byte_buffer::{advance, RingByteBuffer};
pub use ultra_capsuled_parser::{
    parse_ultra_capsuled, spec_calc_angle_offset_q16, spec_generate_nodes, spec_parse_cabin,
    spec_predict, spec_rad_q16_to_deg_q16, spec_ultra_to_hq, spec_varbit_scale_decode,
    ultra_capsuled_point, ultra_capsuled_points, varbit_scale_decode,
};
pub use utils::{
    angle_class, angle_step, first_valid, has_valid, is_first_valid, is_last_valid, last_valid,
    same_but_angle, sort_scan, sorted_by_angle, steps_back, steps_forward, tuned, tuned_angle,
    wrap_circle, FULL_CIRCLE_Q14,
};
pub use wire::{le_u16, le_u32};
