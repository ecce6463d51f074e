use vstd::prelude::*;
use vstd::wrapping::u32_specs::{wrapping_add, wrapping_sub};
use crate::answers::{
    RplidarResponseCabinNodes, RplidarResponseCapsuleMeasurementNodes,
    RplidarResponseMeasurementNodeHq, RPLIDAR_RESP_MEASUREMENT_QUALITY_SHIFT,
};
use crate::internals::CachedPrevCapsule;

verus! {

/// A full circle in q8 degrees (360 << 8).
pub const ANGLE_360_Q8: u32 = 92160;

/// A full circle in q16 degrees (360 << 16).
pub const ANGLE_360_Q16: u32 = 23592960;

/// The start angle of a capsule in q8 degrees: the low 15 bits of the
/// q6 field.
pub open spec fn start_angle_q8(start_angle_sync_q6: u16) -> u32 {
    ((start_angle_sync_q6 & 0x7fff) as u32) << 2
}

/// Angle from `prev_q8` forward to `cur_q8`, crossing 0 when `cur_q8` is
/// smaller, in 32-bit wrapping arithmetic.
pub open spec fn spec_angle_diff_q8(prev_q8: u32, cur_q8: u32) -> u32 {
    if prev_q8 > cur_q8 {
        wrapping_sub(wrapping_add(ANGLE_360_Q8, cur_q8), prev_q8)
    } else {
        (cur_q8 - prev_q8) as u32
    }
}

/// The angle of the `i`-th point of a run that starts at `start` and steps
/// by `inc`, in 32-bit wrapping arithmetic.
pub open spec fn running_angle(start: u32, inc: u32, i: nat) -> u32
    decreases i,
{
    if i == 0 {
        start
    } else {
        wrapping_add(running_angle(start, inc, (i - 1) as nat), inc)
    }
}

/// Whether the step after the point at `cur_angle_q16` crosses 0 degrees.
pub open spec fn spec_check_sync(cur_angle_q16: u32, angle_inc_q16: u32) -> bool {
    (wrapping_add(cur_angle_q16, angle_inc_q16) % ANGLE_360_Q16) < angle_inc_q16
}

/// The quality given to a capsuled point: a fixed value when it has a
/// distance, 0 otherwise.
pub open spec fn spec_generate_quality(dist_q2: u32) -> u8 {
    if dist_q2 != 0 {
        0x2fu8 << RPLIDAR_RESP_MEASUREMENT_QUALITY_SHIFT
    } else {
        0
    }
}

pub open spec fn spec_generate_flag(sync: bool) -> u8 {
    if sync {
        1
    } else {
        0
    }
}

/// A distance and its angle correction, as a cabin carries them.
#[derive(Debug, Clone, Copy, PartialEq, Eq, Structural)]
pub struct ParsedNode {
    pub dist_q2: u32,
    pub angle_offset_q3: u32,
}

/// The `k`-th point (0 or 1) of a cabin: the distance without its two low
/// bits, and a correction angle made of four offset bits and those two bits.
pub open spec fn cabin_point(c: RplidarResponseCabinNodes, k: int) -> ParsedNode {
    if k == 0 {
        ParsedNode {
            dist_q2: (c.distance_angle_1 & 0xfffc) as u32,
            angle_offset_q3: ((c.offset_angles_q3 & 0xf) as u16 | ((c.distance_angle_1 & 0x3)
                << 4u16)) as u32,
        }
    } else {
        ParsedNode {
            dist_q2: (c.distance_angle_2 & 0xfffc) as u32,
            angle_offset_q3: ((c.offset_angles_q3 >> 4u8) as u16 | ((c.distance_angle_2 & 0x3)
                << 4u16)) as u32,
        }
    }
}

pub open spec fn spec_angle_q6_to_angle_z_q14(angle_q6: u32) -> u16 {
    ((angle_q6 << 8u32) / 90) as u16
}

/// The HQ point for a parsed capsule point at the running angle
/// `cur_angle_raw_q16` (q16 degrees), less its correction (q3 degrees,
/// brought to q16), taken down to q6 degrees and then to q14 quarter-turns.
pub open spec fn spec_to_hq(node: ParsedNode, cur_angle_raw_q16: u32, angle_inc_q16: u32) -> RplidarResponseMeasurementNodeHq {
    let angle_q6 = wrapping_sub(cur_angle_raw_q16, node.angle_offset_q3 << 13u32) >> 10u32;
    RplidarResponseMeasurementNodeHq {
        angle_z_q14: spec_angle_q6_to_angle_z_q14(angle_q6),
        dist_mm_q2: node.dist_q2,
        quality: spec_generate_quality(node.dist_q2),
        flag: spec_generate_flag(spec_check_sync(cur_angle_raw_q16, angle_inc_q16)),
    }
}

/// The `i`-th point decoded from the capsule `prev`, given the capsule
/// `cur` that follows it.
pub open spec fn capsuled_point(
    prev: RplidarResponseCapsuleMeasurementNodes,
    cur: RplidarResponseCapsuleMeasurementNodes,
    i: int,
) -> RplidarResponseMeasurementNodeHq {
    let start = start_angle_q8(prev.start_angle_sync_q6);
    let inc = spec_angle_diff_q8(start, start_angle_q8(cur.start_angle_sync_q6)) << 3u32;
    spec_to_hq(cabin_point(prev.cabins@[i / 2], i % 2), running_angle(start << 8u32, inc, i as nat), inc)
}

/// The 32 points decoded from `prev` once `cur` has arrived.
pub open spec fn capsuled_points(
    prev: RplidarResponseCapsuleMeasurementNodes,
    cur: RplidarResponseCapsuleMeasurementNodes,
) -> Seq<RplidarResponseMeasurementNodeHq> {
    Seq::new(32, |i: int| capsuled_point(prev, cur, i))
}

fn get_start_angle_q8(nodes: &RplidarResponseCapsuleMeasurementNodes) -> (r: u32)
    ensures
        r == start_angle_q8(nodes.start_angle_sync_q6),
{
    ((nodes.start_angle_sync_q6 & 0x7fff) as u32) << 2
}

/// Angle from `prev_q8` forward to `cur_q8` in q8 degrees.
pub fn angle_diff_q8(prev_q8: u32, cur_q8: u32) -> (r: u32)
    ensures
        r == spec_angle_diff_q8(prev_q8, cur_q8),
{
    if prev_q8 > cur_q8 {
        ANGLE_360_Q8.wrapping_add(cur_q8).wrapping_sub(prev_q8)
    } else {
        cur_q8 - prev_q8
    }
}

fn parse_cabin(cabin: &RplidarResponseCabinNodes) -> (r: [ParsedNode; 2])
    ensures
        r@[0] == cabin_point(*cabin, 0),
        r@[1] == cabin_point(*cabin, 1),
{
    let dist_q2_1 = cabin.distance_angle_1 & 0xfffc;
    let dist_q2_2 = cabin.distance_angle_2 & 0xfffc;
    let angle_offset_q3_1 = (cabin.offset_angles_q3 & 0xf) as u16 | ((cabin.distance_angle_1 & 0x3)
        << 4u16);
    let angle_offset_q3_2 = (cabin.offset_angles_q3 >> 4u8) as u16 | ((cabin.distance_angle_2 & 0x3)
        << 4u16);
    [
        ParsedNode { dist_q2: dist_q2_1 as u32, angle_offset_q3: angle_offset_q3_1 as u32 },
        ParsedNode { dist_q2: dist_q2_2 as u32, angle_offset_q3: angle_offset_q3_2 as u32 },
    ]
}

/// Whether the step after the point at `cur_angle_q16` crosses 0 degrees.
pub fn check_sync(cur_angle_q16: u32, angle_inc_q16: u32) -> (r: bool)
    ensures
        r == spec_check_sync(cur_angle_q16, angle_inc_q16),
{
    (cur_angle_q16.wrapping_add(angle_inc_q16) % ANGLE_360_Q16) < angle_inc_q16
}

fn angle_q6_to_angle_z_q14(angle_q6: u32) -> (r: u16)
    ensures
        r == spec_angle_q6_to_angle_z_q14(angle_q6),
{
    ((angle_q6 << 8u32) / 90) as u16
}

/// The quality of a capsuled point with distance `dist_q2`.
pub fn generate_quality(dist_q2: u32) -> (r: u8)
    ensures
        r == spec_generate_quality(dist_q2),
{
    if dist_q2 != 0 {
        0x2fu8 << RPLIDAR_RESP_MEASUREMENT_QUALITY_SHIFT
    } else {
        0u8
    }
}

/// The flag byte for a point: 1 when it starts a revolution.
pub fn generate_flag(sync: bool) -> (r: u8)
    ensures
        r == spec_generate_flag(sync),
{
    if sync {
        1u8
    } else {
        0u8
    }
}

/// The HQ point for a parsed capsule point at the running angle.
pub fn to_hq(node: &ParsedNode, cur_angle_raw_q16: u32, angle_inc_q16: u32) -> (r: RplidarResponseMeasurementNodeHq)
    ensures
        r == spec_to_hq(*node, cur_angle_raw_q16, angle_inc_q16),
{
    let angle_q6 = cur_angle_raw_q16.wrapping_sub(node.angle_offset_q3 << 13u32) >> 10u32;
    let sync = check_sync(cur_angle_raw_q16, angle_inc_q16);
    RplidarResponseMeasurementNodeHq {
        angle_z_q14: angle_q6_to_angle_z_q14(angle_q6),
        dist_mm_q2: node.dist_q2,
        quality: generate_quality(node.dist_q2),
        flag: generate_flag(sync),
    }
}

/// Decodes the capsule held in `cached_prev` now that `nodes` follows it,
/// and returns the points with `nodes` as the new cached capsule. Without a
/// cached capsule of this kind there are no points.
pub fn parse_capsuled(
    cached_prev: &CachedPrevCapsule,
    nodes: RplidarResponseCapsuleMeasurementNodes,
) -> (r: (Vec<RplidarResponseMeasurementNodeHq>, CachedPrevCapsule))
    ensures
        r.1 == CachedPrevCapsule::Capsuled(nodes),
        match *cached_prev {
            CachedPrevCapsule::Capsuled(prev) => r.0@ == capsuled_points(prev, nodes),
            _ => r.0@ == Seq::<RplidarResponseMeasurementNodeHq>::empty(),
        },
        cached_prev is Capsuled ==> r.0@.len() == 32,
{
    if let CachedPrevCapsule::Capsuled(prev_capsule) = cached_prev {
        let mut output_nodes: Vec<RplidarResponseMeasurementNodeHq> = Vec::with_capacity(32);
        let cur_start_angle_q8 = get_start_angle_q8(&nodes);
        let prev_start_angle_q8 = get_start_angle_q8(prev_capsule);
        let diff_angle_q8 = angle_diff_q8(prev_start_angle_q8, cur_start_angle_q8);
        let angle_inc_q16 = diff_angle_q8 << 3u32;
        let mut cur_angle_raw_q16 = prev_start_angle_q8 << 8u32;
        let ghost start = prev_start_angle_q8 << 8u32;
        let mut c: usize = 0;
        while c < 16
            invariant
                c <= 16,
                output_nodes@.len() == 2 * c,
                cur_angle_raw_q16 == running_angle(start, angle_inc_q16, 2 * c as nat),
                forall|i: int|
                    0 <= i < 2 * c ==> #[trigger] output_nodes@[i] == capsuled_point(
                        *prev_capsule,
                        nodes,
                        i,
                    ),
                start == start_angle_q8(prev_capsule.start_angle_sync_q6) << 8u32,
                angle_inc_q16 == spec_angle_diff_q8(
                    start_angle_q8(prev_capsule.start_angle_sync_q6),
                    start_angle_q8(nodes.start_angle_sync_q6),
                ) << 3u32,
            decreases 16 - c,
        {
            let parsed_nodes = parse_cabin(&prev_capsule.cabins[c]);
            output_nodes.push(to_hq(&parsed_nodes[0], cur_angle_raw_q16, angle_inc_q16));
            cur_angle_raw_q16 = cur_angle_raw_q16.wrapping_add(angle_inc_q16);
            output_nodes.push(to_hq(&parsed_nodes[1], cur_angle_raw_q16, angle_inc_q16));
            cur_angle_raw_q16 = cur_angle_raw_q16.wrapping_add(angle_inc_q16);
            proof {
                let i0 = 2 * c as int;
                assert(i0 / 2 == c as int && i0 % 2 == 0);
                assert((i0 + 1) / 2 == c as int && (i0 + 1) % 2 == 1);
                assert(running_angle(start, angle_inc_q16, (i0 + 1) as nat) == wrapping_add(
                    running_angle(start, angle_inc_q16, i0 as nat),
                    angle_inc_q16,
                ));
                assert(running_angle(start, angle_inc_q16, (i0 + 2) as nat) == wrapping_add(
                    running_angle(start, angle_inc_q16, (i0 + 1) as nat),
                    angle_inc_q16,
                ));
            }
            c = c + 1;
        }
        assert(output_nodes@ =~= capsuled_points(*prev_capsule, nodes));
        (output_nodes, CachedPrevCapsule::Capsuled(nodes))
    } else {
        (Vec::new(), CachedPrevCapsule::Capsuled(nodes))
    }
}

} // verus!
