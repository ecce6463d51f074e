use vstd::prelude::*;
use crate::errors::{operation_fail, Result};
use crate::wire::{le_u16, le_u32, read_le_u16, read_le_u32};

verus! {

/// Device info answer.
pub const RPLIDAR_ANS_TYPE_DEVINFO: u8 = 0x4;

/// Device health answer.
pub const RPLIDAR_ANS_TYPE_DEVHEALTH: u8 = 0x6;

/// The LIDAR is healthy.
pub const RPLIDAR_HEALTH_STATUS_OK: u8 = 0;

/// Some warning occurs with the device, but it still works.
pub const RPLIDAR_HEALTH_STATUS_WARNING: u8 = 1;

/// A fatal error occurs; the device does not work anymore.
pub const RPLIDAR_HEALTH_STATUS_ERROR: u8 = 2;

/// Legacy measurement answer (one point per answer).
pub const RPLIDAR_ANS_TYPE_MEASUREMENT: u8 = 0x81;

pub const RPLIDAR_RESP_MEASUREMENT_SYNCBIT: u8 = 1;

pub const RPLIDAR_RESP_MEASUREMENT_QUALITY_SHIFT: u8 = 2;

pub const RPLIDAR_RESP_MEASUREMENT_ANGLE_SHIFT: u32 = 1;

/// Capsuled measurement answer (32 points per answer).
pub const RPLIDAR_ANS_TYPE_MEASUREMENT_CAPSULED: u8 = 0x82;

pub const RPLIDAR_RESP_MEASUREMENT_EXP_SYNC_1: u8 = 0xA;

pub const RPLIDAR_RESP_MEASUREMENT_EXP_SYNC_2: u8 = 0x5;

/// HQ capsuled measurement answer (16 points per answer).
pub const RPLIDAR_ANS_TYPE_MEASUREMENT_HQ: u8 = 0x83;

pub const RPLIDAR_RESP_HQ_FLAG_SYNCBIT: u8 = 1;

pub const RPLIDAR_RESP_MEASUREMENT_HQ_SYNC: u8 = 0xA5;

/// Ultra capsuled measurement answer (96 points per answer).
pub const RPLIDAR_ANS_TYPE_MEASUREMENT_CAPSULED_ULTRA: u8 = 0x84;

/// Answer to a configuration query.
pub const RPLIDAR_ANS_TYPE_GET_LIDAR_CONF: u8 = 0x20;

/// Answer to an accessory board capability query.
pub const RPLIDAR_ANS_TYPE_ACC_BOARD_FLAG: u8 = 0xFF;

/// The accessory board supports motor control.
pub const RPLIDAR_RESP_ACC_BOARD_FLAG_MOTOR_CTRL_SUPPORT_MASK: u32 = 0x1;

/// Wire sizes of the answer records.
pub const DEVICE_INFO_SIZE: usize = 20;

pub const DEVICE_HEALTH_SIZE: usize = 3;

pub const MEASUREMENT_NODE_SIZE: usize = 5;

pub const CABIN_SIZE: usize = 5;

pub const CAPSULE_SIZE: usize = 84;

pub const NODE_HQ_SIZE: usize = 8;

pub const HQ_CAPSULE_SIZE: usize = 141;

pub const ULTRA_CAPSULE_SIZE: usize = 132;

fn answer_mismatch() -> (r: crate::errors::RposError)
    ensures
        r is OperationFail,
{
    operation_fail("answer type mismatch")
}

/// Device info.
#[derive(Debug, Clone, Copy, PartialEq, Eq)]
pub struct RplidarResponseDeviceInfo {
    pub model: u8,
    pub firmware_version: u16,
    pub hardware_version: u8,
    pub serialnum: [u8; 16],
}

impl RplidarResponseDeviceInfo {
    /// Decodes the 20-byte record.
    pub fn parse(b: &[u8]) -> (r: Result<RplidarResponseDeviceInfo>)
        ensures
            r is Err <==> b@.len() != DEVICE_INFO_SIZE,
            r is Err ==> r->Err_0 is OperationFail,
            r is Ok ==> ({
                let v = r->Ok_0;
                &&& v.model == b@[0]
                &&& v.firmware_version as int == le_u16(b@.skip(1))
                &&& v.hardware_version == b@[3]
                &&& v.serialnum@ == b@.subrange(4, 20)
            }),
    {
        if b.len() != DEVICE_INFO_SIZE {
            return Err(answer_mismatch());
        }
        let mut serialnum = [0u8; 16];
        let mut i: usize = 0;
        while i < 16
            invariant
                b@.len() == 20,
                i <= 16,
                forall|t: int| 0 <= t < i ==> serialnum@[t] == b@[4 + t],
            decreases 16 - i,
        {
            serialnum[i] = b[4 + i];
            i = i + 1;
        }
        assert(serialnum@ =~= b@.subrange(4, 20));
        Ok(
            RplidarResponseDeviceInfo {
                model: b[0],
                firmware_version: read_le_u16(&b[1..3]),
                hardware_version: b[3],
                serialnum: serialnum,
            },
        )
    }
}

/// Device health.
#[derive(Debug, Clone, Copy, PartialEq, Eq, Structural)]
pub struct RplidarResponseDeviceHealth {
    pub status: u8,
    pub error_code: u16,
}

impl RplidarResponseDeviceHealth {
    /// Decodes the 3-byte record.
    pub fn parse(b: &[u8]) -> (r: Result<RplidarResponseDeviceHealth>)
        ensures
            r is Err <==> b@.len() != DEVICE_HEALTH_SIZE,
            r is Err ==> r->Err_0 is OperationFail,
            r is Ok ==> r->Ok_0.status == b@[0] && r->Ok_0.error_code as int == le_u16(
                b@.skip(1),
            ),
    {
        if b.len() != DEVICE_HEALTH_SIZE {
            return Err(answer_mismatch());
        }
        Ok(RplidarResponseDeviceHealth { status: b[0], error_code: read_le_u16(&b[1..3]) })
    }
}

/// Legacy measurement record.
#[derive(Debug, Clone, Copy, PartialEq, Eq, Structural)]
pub struct RplidarResponseMeasurementNode {
    pub sync_quality: u8,
    pub angle_q6_checkbit: u16,
    pub distance_q2: u16,
}

impl RplidarResponseMeasurementNode {
    /// Decodes the 5-byte record.
    pub fn parse(b: &[u8]) -> (r: Result<RplidarResponseMeasurementNode>)
        ensures
            r is Err <==> b@.len() != MEASUREMENT_NODE_SIZE,
            r is Err ==> r->Err_0 is OperationFail,
            r is Ok ==> ({
                let v = r->Ok_0;
                &&& v.sync_quality == b@[0]
                &&& v.angle_q6_checkbit as int == le_u16(b@.skip(1))
                &&& v.distance_q2 as int == le_u16(b@.skip(3))
            }),
    {
        if b.len() != MEASUREMENT_NODE_SIZE {
            return Err(answer_mismatch());
        }
        Ok(
            RplidarResponseMeasurementNode {
                sync_quality: b[0],
                angle_q6_checkbit: read_le_u16(&b[1..3]),
                distance_q2: read_le_u16(&b[3..5]),
            },
        )
    }
}

/// One cabin of a capsuled answer: two distances sharing an offset byte.
#[derive(Debug, Clone, Copy, PartialEq, Eq, Structural)]
pub struct RplidarResponseCabinNodes {
    pub distance_angle_1: u16,
    pub distance_angle_2: u16,
    pub offset_angles_q3: u8,
}

/// The cabin stored in the first five bytes of `b`.
pub open spec fn cabin_of(b: Seq<u8>) -> RplidarResponseCabinNodes {
    RplidarResponseCabinNodes {
        distance_angle_1: le_u16(b) as u16,
        distance_angle_2: le_u16(b.skip(2)) as u16,
        offset_angles_q3: b[4],
    }
}

impl RplidarResponseCabinNodes {
    fn parse(b: &[u8]) -> (r: RplidarResponseCabinNodes)
        requires
            b@.len() == CABIN_SIZE,
        ensures
            r == cabin_of(b@),
    {
        RplidarResponseCabinNodes {
            distance_angle_1: read_le_u16(&b[0..2]),
            distance_angle_2: read_le_u16(&b[2..4]),
            offset_angles_q3: b[4],
        }
    }
}

/// A capsuled measurement answer.
#[derive(Debug, Clone, Copy, PartialEq, Eq)]
pub struct RplidarResponseCapsuleMeasurementNodes {
    pub s_checksum_1: u8,
    pub s_checksum_2: u8,
    pub start_angle_sync_q6: u16,
    pub cabins: [RplidarResponseCabinNodes; 16],
}

impl RplidarResponseCapsuleMeasurementNodes {
    /// Whether this record is the decoding of the 84 bytes `b`.
    pub open spec fn decodes(&self, b: Seq<u8>) -> bool {
        &&& b.len() == CAPSULE_SIZE
        &&& self.s_checksum_1 == b[0]
        &&& self.s_checksum_2 == b[1]
        &&& self.start_angle_sync_q6 as int == le_u16(b.skip(2))
        &&& forall|i: int|
            0 <= i < 16 ==> #[trigger] self.cabins@[i] == cabin_of(b.subrange(4 + 5 * i, 9 + 5 * i))
    }

    /// Decodes the 84-byte record.
    pub fn parse(b: &[u8]) -> (r: Result<RplidarResponseCapsuleMeasurementNodes>)
        ensures
            r is Err <==> b@.len() != CAPSULE_SIZE,
            r is Err ==> r->Err_0 is OperationFail,
            r is Ok ==> r->Ok_0.decodes(b@),
    {
        if b.len() != CAPSULE_SIZE {
            return Err(answer_mismatch());
        }
        let empty = RplidarResponseCabinNodes {
            distance_angle_1: 0,
            distance_angle_2: 0,
            offset_angles_q3: 0,
        };
        let mut cabins = [empty; 16];
        let mut i: usize = 0;
        while i < 16
            invariant
                b@.len() == CAPSULE_SIZE,
                i <= 16,
                forall|t: int|
                    0 <= t < i ==> #[trigger] cabins@[t] == cabin_of(
                        b@.subrange(4 + 5 * t, 9 + 5 * t),
                    ),
            decreases 16 - i,
        {
            cabins[i] = RplidarResponseCabinNodes::parse(&b[4 + 5 * i..9 + 5 * i]);
            i = i + 1;
        }
        Ok(
            RplidarResponseCapsuleMeasurementNodes {
                s_checksum_1: b[0],
                s_checksum_2: b[1],
                start_angle_sync_q6: read_le_u16(&b[2..4]),
                cabins: cabins,
            },
        )
    }
}

/// A measurement point in the HQ format, which every decoder produces.
#[derive(Debug, Clone, Copy, PartialEq, Eq, Structural)]
pub struct RplidarResponseMeasurementNodeHq {
    pub angle_z_q14: u16,
    pub dist_mm_q2: u32,
    pub quality: u8,
    pub flag: u8,
}

/// The HQ point stored in the first eight bytes of `b`.
pub open spec fn node_hq_of(b: Seq<u8>) -> RplidarResponseMeasurementNodeHq {
    RplidarResponseMeasurementNodeHq {
        angle_z_q14: le_u16(b) as u16,
        dist_mm_q2: le_u32(b.skip(2)) as u32,
        quality: b[6],
        flag: b[7],
    }
}

impl RplidarResponseMeasurementNodeHq {
    fn parse(b: &[u8]) -> (r: RplidarResponseMeasurementNodeHq)
        requires
            b@.len() == NODE_HQ_SIZE,
        ensures
            r == node_hq_of(b@),
    {
        RplidarResponseMeasurementNodeHq {
            angle_z_q14: read_le_u16(&b[0..2]),
            dist_mm_q2: read_le_u32(&b[2..6]),
            quality: b[6],
            flag: b[7],
        }
    }
}

/// An HQ capsuled measurement answer.
#[derive(Debug, Clone, Copy, PartialEq, Eq)]
pub struct RplidarResponseHqCapsuledMeasurementNodes {
    pub sync_byte: u8,
    pub timestamp: u64,
    pub nodes: [RplidarResponseMeasurementNodeHq; 16],
    pub crc32: u32,
}

impl RplidarResponseHqCapsuledMeasurementNodes {
    /// Whether this record is the decoding of the 141 bytes `b`.
    pub open spec fn decodes(&self, b: Seq<u8>) -> bool {
        &&& b.len() == HQ_CAPSULE_SIZE
        &&& self.sync_byte == b[0]
        &&& self.timestamp as int == le_u32(b.skip(1)) + 0x1_0000_0000 * le_u32(b.skip(5))
        &&& forall|i: int|
            0 <= i < 16 ==> #[trigger] self.nodes@[i] == node_hq_of(b.subrange(9 + 8 * i, 17 + 8 * i))
        &&& self.crc32 as int == le_u32(b.skip(137))
    }

    /// Decodes the 141-byte record.
    pub fn parse(b: &[u8]) -> (r: Result<RplidarResponseHqCapsuledMeasurementNodes>)
        ensures
            r is Err <==> b@.len() != HQ_CAPSULE_SIZE,
            r is Err ==> r->Err_0 is OperationFail,
            r is Ok ==> r->Ok_0.decodes(b@),
    {
        if b.len() != HQ_CAPSULE_SIZE {
            return Err(answer_mismatch());
        }
        let empty = RplidarResponseMeasurementNodeHq {
            angle_z_q14: 0,
            dist_mm_q2: 0,
            quality: 0,
            flag: 0,
        };
        let mut nodes = [empty; 16];
        let mut i: usize = 0;
        while i < 16
            invariant
                b@.len() == HQ_CAPSULE_SIZE,
                i <= 16,
                forall|t: int|
                    0 <= t < i ==> #[trigger] nodes@[t] == node_hq_of(
                        b@.subrange(9 + 8 * t, 17 + 8 * t),
                    ),
            decreases 16 - i,
        {
            nodes[i] = RplidarResponseMeasurementNodeHq::parse(&b[9 + 8 * i..17 + 8 * i]);
            i = i + 1;
        }
        let low = read_le_u32(&b[1..5]);
        let high = read_le_u32(&b[5..9]);
        let crc = read_le_u32(&b[137..141]);
        assert(b@.subrange(1, 5) =~= b@.skip(1).take(4));
        Ok(
            RplidarResponseHqCapsuledMeasurementNodes {
                sync_byte: b[0],
                timestamp: (low as u64) + (high as u64) * 0x1_0000_0000,
                nodes: nodes,
                crc32: crc,
            },
        )
    }
}

/// An ultra capsuled measurement answer.
#[derive(Debug, Clone, Copy, PartialEq, Eq)]
pub struct RplidarResponseUltraCapsuleMeasurementNodes {
    pub s_checksum_1: u8,
    pub s_checksum_2: u8,
    pub start_angle_sync_q6: u16,
    pub ultra_cabins: [u32; 32],
}

impl RplidarResponseUltraCapsuleMeasurementNodes {
    /// Whether this record is the decoding of the 132 bytes `b`.
    pub open spec fn decodes(&self, b: Seq<u8>) -> bool {
        &&& b.len() == ULTRA_CAPSULE_SIZE
        &&& self.s_checksum_1 == b[0]
        &&& self.s_checksum_2 == b[1]
        &&& self.start_angle_sync_q6 as int == le_u16(b.skip(2))
        &&& forall|i: int|
            0 <= i < 32 ==> #[trigger] self.ultra_cabins@[i] as int == le_u32(
                b.subrange(4 + 4 * i, 8 + 4 * i),
            )
    }

    /// Decodes the 132-byte record.
    pub fn parse(b: &[u8]) -> (r: Result<RplidarResponseUltraCapsuleMeasurementNodes>)
        ensures
            r is Err <==> b@.len() != ULTRA_CAPSULE_SIZE,
            r is Err ==> r->Err_0 is OperationFail,
            r is Ok ==> r->Ok_0.decodes(b@),
    {
        if b.len() != ULTRA_CAPSULE_SIZE {
            return Err(answer_mismatch());
        }
        let mut cabins = [0u32; 32];
        let mut i: usize = 0;
        while i < 32
            invariant
                b@.len() == ULTRA_CAPSULE_SIZE,
                i <= 32,
                forall|t: int|
                    0 <= t < i ==> #[trigger] cabins@[t] as int == le_u32(
                        b@.subrange(4 + 4 * t, 8 + 4 * t),
                    ),
            decreases 32 - i,
        {
            cabins[i] = read_le_u32(&b[4 + 4 * i..8 + 4 * i]);
            i = i + 1;
        }
        Ok(
            RplidarResponseUltraCapsuleMeasurementNodes {
                s_checksum_1: b[0],
                s_checksum_2: b[1],
                start_angle_sync_q6: read_le_u16(&b[2..4]),
                ultra_cabins: cabins,
            },
        )
    }
}

} // verus!
