use vstd::prelude::*;
use crate::answers::{
    RplidarResponseDeviceHealth, RplidarResponseDeviceInfo, RPLIDAR_ANS_TYPE_ACC_BOARD_FLAG,
    RPLIDAR_ANS_TYPE_DEVHEALTH, RPLIDAR_ANS_TYPE_DEVINFO, RPLIDAR_ANS_TYPE_GET_LIDAR_CONF,
    RPLIDAR_HEALTH_STATUS_ERROR, RPLIDAR_HEALTH_STATUS_OK, RPLIDAR_HEALTH_STATUS_WARNING,
    RPLIDAR_RESP_ACC_BOARD_FLAG_MOTOR_CTRL_SUPPORT_MASK,
};
use crate::errors::{operation_fail, Result};
use crate::message::Message;
use crate::prelude::{Health, ScanOptions};
use crate::wire::{le_u16, le_u32, read_le_u16, read_le_u32};

verus! {

/// Stop measuring.
pub const RPLIDAR_CMD_STOP: u8 = 0x25;

/// Start a scan in the default (legacy) mode.
pub const RPLIDAR_CMD_SCAN: u8 = 0x20;

/// Start a scan whether the LIDAR spins or not.
pub const RPLIDAR_CMD_FORCE_SCAN: u8 = 0x21;

/// Reset the LIDAR core.
pub const RPLIDAR_CMD_RESET: u8 = 0x40;

/// Get device information.
pub const RPLIDAR_CMD_GET_DEVICE_INFO: u8 = 0x50;

/// Get device health.
pub const RPLIDAR_CMD_GET_DEVICE_HEALTH: u8 = 0x52;

/// Start an express scan (legacy and extended modes).
pub const RPLIDAR_CMD_EXPRESS_SCAN: u8 = 0x82;

/// Get LIDAR configuration.
pub const RPLIDAR_CMD_GET_LIDAR_CONF: u8 = 0x84;

/// Set the motor PWM on the accessory board.
pub const RPLIDAR_CMD_SET_MOTOR_PWM: u8 = 0xF0;

/// Get the capabilities of the accessory board.
pub const RPLIDAR_CMD_GET_ACC_BOARD_FLAG: u8 = 0xFF;

/// Configuration entry: number of scan modes.
pub const RPLIDAR_CONF_SCAN_MODE_COUNT: u32 = 0x70;

/// Configuration entry: microseconds per sample of a scan mode.
pub const RPLIDAR_CONF_SCAN_MODE_US_PER_SAMPLE: u32 = 0x71;

/// Configuration entry: maximum distance of a scan mode.
pub const RPLIDAR_CONF_SCAN_MODE_MAX_DISTANCE: u32 = 0x74;

/// Configuration entry: answer type of a scan mode.
pub const RPLIDAR_CONF_SCAN_MODE_ANS_TYPE: u32 = 0x75;

/// Configuration entry: typical scan mode.
pub const RPLIDAR_CONF_SCAN_MODE_TYPICAL: u32 = 0x7C;

/// Configuration entry: name of a scan mode.
pub const RPLIDAR_CONF_SCAN_MODE_NAME: u32 = 0x7F;

/// First firmware version (1.24) that answers configuration queries.
pub const RPLIDAR_GET_LIDAR_CONF_START_VERSION: u16 = 0x118;

/// The two bytes of `x`, least significant first.
pub fn le_bytes_u16(x: u16) -> (r: [u8; 2])
    ensures
        le_u16(r@) == x,
{
    let r = [(x & 0xff) as u8, (x >> 8u16) as u8];
    assert((x & 0xff) as u8 as int + 256 * ((x >> 8u16) as u8 as int) == x as int) by {
        assert((x & 0xff) as u8 as u16 + 256u16 * ((x >> 8u16) as u8 as u16) == x) by (bit_vector);
    }
    r
}

/// The four bytes of `x`, least significant first.
pub fn le_bytes_u32(x: u32) -> (r: [u8; 4])
    ensures
        le_u32(r@) == x,
{
    let r = [(x & 0xff) as u8, ((x >> 8u32) & 0xff) as u8, ((x >> 16u32) & 0xff) as u8, (x >> 24u32) as u8];
    assert(r@[0] as u32 + 256u32 * (r@[1] as u32) + 65536u32 * (r@[2] as u32) + 16777216u32 * (r@[3] as u32) == x) by {
        let b0 = (x & 0xff) as u8;
        let b1 = ((x >> 8u32) & 0xff) as u8;
        let b2 = ((x >> 16u32) & 0xff) as u8;
        let b3 = (x >> 24u32) as u8;
        assert(b0 as u32 + 256u32 * (b1 as u32) + 65536u32 * (b2 as u32) + 16777216u32 * (b3 as u32) == x)
            by (bit_vector)
            requires
                b0 == (x & 0xff) as u8,
                b1 == ((x >> 8u32) & 0xff) as u8,
                b2 == ((x >> 16u32) & 0xff) as u8,
                b3 == (x >> 24u32) as u8,
        ;
    }
    r
}

/// Payload of an express scan request.
#[derive(Debug, Clone, Copy, PartialEq, Eq, Structural)]
pub struct RplidarPayloadExpressScan {
    /// 0 for the legacy express scan, otherwise the scan mode.
    pub work_mode: u8,
    /// Reserved, keep 0.
    pub work_flags: u16,
    /// Reserved, keep 0.
    pub param: u16,
}

impl RplidarPayloadExpressScan {
    /// The five payload bytes: the mode, then both words little-endian.
    pub fn to_bytes(&self) -> (r: Vec<u8>)
        ensures
            r@.len() == 5,
            r@[0] == self.work_mode,
            le_u16(r@.skip(1)) == self.work_flags,
            le_u16(r@.skip(3)) == self.param,
    {
        let flags = le_bytes_u16(self.work_flags);
        let param = le_bytes_u16(self.param);
        let r = vec![self.work_mode, flags[0], flags[1], param[0], param[1]];
        r
    }
}

/// Whether `r` is the request that starts a scan in `scan_mode` with `options`.
pub open spec fn is_start_scan_request(scan_mode: u16, options: ScanOptions, r: Message) -> bool {
    &&& scan_mode == 0 ==> r@ == (
        if options.force_scan {
            RPLIDAR_CMD_FORCE_SCAN
        } else {
            RPLIDAR_CMD_SCAN
        },
        Seq::<u8>::empty(),
    )
    &&& scan_mode != 0 ==> {
        &&& r.cmd == RPLIDAR_CMD_EXPRESS_SCAN
        &&& r.data@.len() == 5
        &&& r.data@[0] == scan_mode as u8
        &&& le_u16(r.data@.skip(1)) == options.options as u16
        &&& le_u16(r.data@.skip(3)) == 0
    }
}

/// The request that starts a scan in `scan_mode`: the legacy (or forced)
/// scan command for mode 0, an express scan with the mode otherwise.
pub fn start_scan_request(scan_mode: u16, options: &ScanOptions) -> (r: Message)
    ensures
        is_start_scan_request(scan_mode, *options, r),
{
    if scan_mode == 0 {
        Message::new(
            if options.force_scan {
                RPLIDAR_CMD_FORCE_SCAN
            } else {
                RPLIDAR_CMD_SCAN
            },
        )
    } else {
        let payload = RplidarPayloadExpressScan {
            work_mode: scan_mode as u8,
            work_flags: options.options as u16,
            param: 0,
        };
        let data = payload.to_bytes();
        Message::with_data(RPLIDAR_CMD_EXPRESS_SCAN, data.as_slice())
    }
}

/// The request that sets the motor PWM.
pub fn motor_pwm_request(pwm: u16) -> (r: Message)
    ensures
        r.cmd == RPLIDAR_CMD_SET_MOTOR_PWM,
        r.data@.len() == 2,
        le_u16(r.data@) == pwm,
{
    let payload = le_bytes_u16(pwm);
    Message::with_data(RPLIDAR_CMD_SET_MOTOR_PWM, &payload)
}

/// The request for the accessory board capabilities.
pub fn motor_ctrl_support_request() -> (r: Message)
    ensures
        r@ == (RPLIDAR_CMD_GET_ACC_BOARD_FLAG, seq![0u8, 0u8, 0u8, 0u8]),
{
    let data = le_bytes_u32(0);
    let r = Message::with_data(RPLIDAR_CMD_GET_ACC_BOARD_FLAG, &data);
    assert(r.data@ =~= seq![0u8, 0u8, 0u8, 0u8]);
    r
}

/// The request for configuration entry `config_type`, with a parameter.
pub fn lidar_conf_request(config_type: u32, param: &[u8]) -> (r: Message)
    ensures
        r.cmd == RPLIDAR_CMD_GET_LIDAR_CONF,
        r.data@.len() == 4 + param@.len(),
        le_u32(r.data@) == config_type,
        r.data@.skip(4) == param@,
{
    let key = le_bytes_u32(config_type);
    let mut msg = Message::with_data(RPLIDAR_CMD_GET_LIDAR_CONF, &key);
    msg.data.extend_from_slice(param);
    assert(msg.data@.skip(4) =~= param@);
    msg
}

/// The request for a configuration entry of scan mode `scan_mode`.
pub fn scan_mode_conf_request(config_type: u32, scan_mode: u16) -> (r: Message)
    ensures
        r.cmd == RPLIDAR_CMD_GET_LIDAR_CONF,
        r.data@.len() == 6,
        le_u32(r.data@) == config_type,
        le_u16(r.data@.skip(4)) == scan_mode,
{
    let param = le_bytes_u16(scan_mode);
    let r = lidar_conf_request(config_type, &param);
    assert(r.data@.skip(4) =~= param@);
    r
}

fn answer_type_mismatch() -> (r: crate::errors::RposError)
    ensures
        r is OperationFail,
{
    operation_fail("answer type mismatch")
}

/// Device info from its answer.
pub fn parse_device_info(msg: &Message) -> (r: Result<RplidarResponseDeviceInfo>)
    ensures
        r is Ok <==> msg.cmd == RPLIDAR_ANS_TYPE_DEVINFO && msg.data@.len() == 20,
        r is Err ==> r->Err_0 is OperationFail,
        r is Ok ==> ({
            let v = r->Ok_0;
            &&& v.model == msg.data@[0]
            &&& v.firmware_version as int == le_u16(msg.data@.skip(1))
            &&& v.hardware_version == msg.data@[3]
            &&& v.serialnum@ == msg.data@.subrange(4, 20)
        }),
{
    if msg.cmd != RPLIDAR_ANS_TYPE_DEVINFO {
        return Err(answer_type_mismatch());
    }
    RplidarResponseDeviceInfo::parse(msg.data.as_slice())
}

/// The health a status byte and error code stand for; unknown statuses
/// count as healthy.
pub open spec fn health_of(status: u8, error_code: u16) -> Health {
    if status == RPLIDAR_HEALTH_STATUS_WARNING {
        Health::Warning(error_code)
    } else if status == RPLIDAR_HEALTH_STATUS_ERROR {
        Health::Error(error_code)
    } else {
        Health::Healthy
    }
}

/// Device health from its answer.
pub fn parse_device_health(msg: &Message) -> (r: Result<Health>)
    ensures
        r is Ok <==> msg.cmd == RPLIDAR_ANS_TYPE_DEVHEALTH && msg.data@.len() == 3,
        r is Err ==> r->Err_0 is OperationFail,
        r is Ok ==> r->Ok_0 == health_of(msg.data@[0], le_u16(msg.data@.skip(1)) as u16),
{
    if msg.cmd != RPLIDAR_ANS_TYPE_DEVHEALTH {
        return Err(answer_type_mismatch());
    }
    let resp = RplidarResponseDeviceHealth::parse(msg.data.as_slice())?;
    Ok(
        if resp.status == RPLIDAR_HEALTH_STATUS_OK {
            Health::Healthy
        } else if resp.status == RPLIDAR_HEALTH_STATUS_WARNING {
            Health::Warning(resp.error_code)
        } else if resp.status == RPLIDAR_HEALTH_STATUS_ERROR {
            Health::Error(resp.error_code)
        } else {
            Health::Healthy
        },
    )
}

/// Whether the accessory board answer announces motor control.
pub fn parse_motor_ctrl_support(msg: &Message) -> (r: Result<bool>)
    ensures
        r is Ok <==> msg.cmd == RPLIDAR_ANS_TYPE_ACC_BOARD_FLAG && msg.data@.len() == 4,
        r is Err ==> r->Err_0 is OperationFail,
        r is Ok ==> r->Ok_0 == (le_u32(msg.data@) % 2 == 1),
{
    if msg.cmd != RPLIDAR_ANS_TYPE_ACC_BOARD_FLAG || msg.data.len() != 4 {
        return Err(answer_type_mismatch());
    }
    let support_flag = read_le_u32(msg.data.as_slice());
    assert((support_flag & 1u32 == 1u32) == (support_flag % 2 == 1)) by (bit_vector);
    Ok(
        (support_flag & RPLIDAR_RESP_ACC_BOARD_FLAG_MOTOR_CTRL_SUPPORT_MASK)
            == RPLIDAR_RESP_ACC_BOARD_FLAG_MOTOR_CTRL_SUPPORT_MASK,
    )
}

/// The value of configuration entry `config_type` from its answer: the
/// bytes after the echoed entry key.
pub fn parse_lidar_conf(msg: &Message, config_type: u32) -> (r: Result<Vec<u8>>)
    ensures
        r is Ok <==> msg.cmd == RPLIDAR_ANS_TYPE_GET_LIDAR_CONF && msg.data@.len() >= 4 && le_u32(
            msg.data@,
        ) == config_type,
        r is Err ==> r->Err_0 is OperationFail,
        r is Ok ==> r->Ok_0@ == msg.data@.skip(4),
{
    if msg.cmd != RPLIDAR_ANS_TYPE_GET_LIDAR_CONF {
        return Err(answer_type_mismatch());
    }
    if msg.data.len() < 4 || read_le_u32(msg.data.as_slice()) != config_type {
        return Err(operation_fail("answer config type mismatch"));
    }
    let data = msg.data.as_slice();
    let rest = &data[4..data.len()];
    let mut out: Vec<u8> = Vec::new();
    out.extend_from_slice(rest);
    assert(out@ =~= msg.data@.skip(4));
    Ok(out)
}

/// A configuration value that must be exactly two bytes.
pub fn parse_conf_u16(data: &[u8]) -> (r: Result<u16>)
    ensures
        r is Ok <==> data@.len() == 2,
        r is Err ==> r->Err_0 is OperationFail,
        r is Ok ==> r->Ok_0 as int == le_u16(data@),
{
    if data.len() != 2 {
        return Err(answer_type_mismatch());
    }
    Ok(read_le_u16(data))
}

/// A configuration value that must be exactly four bytes.
pub fn parse_conf_u32(data: &[u8]) -> (r: Result<u32>)
    ensures
        r is Ok <==> data@.len() == 4,
        r is Err ==> r->Err_0 is OperationFail,
        r is Ok ==> r->Ok_0 as int == le_u32(data@),
{
    if data.len() != 4 {
        return Err(answer_type_mismatch());
    }
    Ok(read_le_u32(data))
}

/// A configuration value that must be exactly one byte.
pub fn parse_conf_u8(data: &[u8]) -> (r: Result<u8>)
    ensures
        r is Ok <==> data@.len() == 1,
        r is Err ==> r->Err_0 is OperationFail,
        r is Ok ==> r->Ok_0 == data@[0],
{
    if data.len() != 1 {
        return Err(answer_type_mismatch());
    }
    Ok(data[0])
}

/// The typical scan mode of a device whose firmware predates configuration
/// queries (1 for models from 0x20 on, 0 before); `None` when the device
/// must be asked.
pub fn typical_scan_mode_without_conf(device_info: &RplidarResponseDeviceInfo) -> (r: Option<u16>)
    ensures
        device_info.firmware_version < RPLIDAR_GET_LIDAR_CONF_START_VERSION ==> r == Some(
            if device_info.model >= 0x20 {
                1u16
            } else {
                0u16
            },
        ),
        device_info.firmware_version >= RPLIDAR_GET_LIDAR_CONF_START_VERSION ==> r is None,
{
    if device_info.firmware_version < RPLIDAR_GET_LIDAR_CONF_START_VERSION {
        Some(
            if device_info.model >= 0x20u8 {
                1u16
            } else {
                0u16
            },
        )
    } else {
        None
    }
}

} // verus!
