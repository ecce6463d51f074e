use vstd::prelude::*;
use crate::answers::{RplidarResponseCapsuleMeasurementNodes, RplidarResponseUltraCapsuleMeasurementNodes};

verus! {

/// Default cache depth of scan points.
pub const RPLIDAR_DEFAULT_CACHE_DEPTH: usize = 8192;

/// Default motor PWM.
pub const RPLIDAR_DEFAULT_MOTOR_PWM: u16 = 600;

/// The previous capsule answer, which the next one of the same kind is
/// decoded against.
#[derive(Debug, Clone, Copy, PartialEq, Eq)]
pub enum CachedPrevCapsule {
    Empty,
    Capsuled(RplidarResponseCapsuleMeasurementNodes),
    UltraCapsuled(RplidarResponseUltraCapsuleMeasurementNodes),
}

} // verus!
