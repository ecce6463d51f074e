use vstd::prelude::*;
use crate::answers::{RplidarResponseMeasurementNodeHq, RPLIDAR_RESP_HQ_FLAG_SYNCBIT};

verus! {

/// A point of a laser scan: angle in q14 quarter-turns (65536 is a full
/// circle), distance in q2 millimeters, signal quality and flags.
#[derive(Debug, Clone, Copy, PartialEq, Eq, Structural)]
pub struct ScanPoint {
    pub angle_z_q14: u16,
    pub dist_mm_q2: u32,
    pub quality: u8,
    pub flag: u8,
}

/// Whether a point carries a measurement: nonzero quality and distance.
pub open spec fn point_valid(p: ScanPoint) -> bool {
    p.quality != 0 && p.dist_mm_q2 != 0
}

/// Whether a point starts a new revolution.
pub open spec fn point_sync(p: ScanPoint) -> bool {
    p.flag & RPLIDAR_RESP_HQ_FLAG_SYNCBIT == RPLIDAR_RESP_HQ_FLAG_SYNCBIT
}

impl ScanPoint {
    /// Whether this point starts a new revolution.
    pub fn is_sync(&self) -> (r: bool)
        ensures
            r == point_sync(*self),
    {
        (self.flag & RPLIDAR_RESP_HQ_FLAG_SYNCBIT) == RPLIDAR_RESP_HQ_FLAG_SYNCBIT
    }

    /// Whether this point carries a measurement.
    pub fn is_valid(&self) -> (r: bool)
        ensures
            r == point_valid(*self),
    {
        self.quality != 0 && self.dist_mm_q2 != 0
    }
}

impl From<RplidarResponseMeasurementNodeHq> for ScanPoint {
    fn from(p: RplidarResponseMeasurementNodeHq) -> (r: ScanPoint) {
        ScanPoint {
            angle_z_q14: p.angle_z_q14,
            dist_mm_q2: p.dist_mm_q2,
            quality: p.quality,
            flag: p.flag,
        }
    }
}

impl vstd::std_specs::convert::FromSpecImpl<RplidarResponseMeasurementNodeHq> for ScanPoint {
    open spec fn obeys_from_spec() -> bool {
        true
    }

    open spec fn from_spec(p: RplidarResponseMeasurementNodeHq) -> ScanPoint {
        ScanPoint {
            angle_z_q14: p.angle_z_q14,
            dist_mm_q2: p.dist_mm_q2,
            quality: p.quality,
            flag: p.flag,
        }
    }
}

/// The point a decoded HQ node stands for.
pub open spec fn point_of(p: RplidarResponseMeasurementNodeHq) -> ScanPoint {
    ScanPoint {
        angle_z_q14: p.angle_z_q14,
        dist_mm_q2: p.dist_mm_q2,
        quality: p.quality,
        flag: p.flag,
    }
}

/// A laser scan.
#[derive(Debug, Clone, PartialEq)]
pub struct LaserScan {
    pub points: Vec<ScanPoint>,
}

/// Scan options.
#[derive(Debug, Clone, Copy, PartialEq, Eq, Structural)]
pub struct ScanOptions {
    /// Use this scan mode rather than the typical one.
    pub scan_mode: Option<u16>,
    /// Make the LIDAR scan whether it spins or not.
    pub force_scan: bool,
    /// Parameters sent to the LIDAR; 0 for now.
    pub options: u32,
}

impl ScanOptions {
    /// Typical mode, no forcing.
    pub fn default() -> (r: ScanOptions)
        ensures
            r == (ScanOptions { scan_mode: None, force_scan: false, options: 0 }),
    {
        ScanOptions { scan_mode: None, force_scan: false, options: 0 }
    }

    /// A given mode, no forcing.
    pub fn with_mode(scan_mode: u16) -> (r: ScanOptions)
        ensures
            r == (ScanOptions { scan_mode: Some(scan_mode), force_scan: false, options: 0 }),
    {
        ScanOptions { scan_mode: Some(scan_mode), force_scan: false, options: 0 }
    }

    /// Typical mode, forced.
    pub fn force_scan() -> (r: ScanOptions)
        ensures
            r == (ScanOptions { scan_mode: None, force_scan: true, options: 0 }),
    {
        ScanOptions { scan_mode: None, force_scan: true, options: 0 }
    }

    /// A given mode, forced.
    pub fn force_scan_with_mode(scan_mode: u16) -> (r: ScanOptions)
        ensures
            r == (ScanOptions { scan_mode: Some(scan_mode), force_scan: true, options: 0 }),
    {
        ScanOptions { scan_mode: Some(scan_mode), force_scan: true, options: 0 }
    }
}

/// Health status of a device.
#[derive(Debug, Clone, Copy, PartialEq, Eq, Structural)]
pub enum Health {
    Healthy,
    Warning(u16),
    Error(u16),
}

} // verus!
