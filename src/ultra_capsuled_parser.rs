use vstd::prelude::*;
use vstd::wrapping::u32_specs::{wrapping_add, wrapping_sub};
use crate::answers::{RplidarResponseMeasurementNodeHq, RplidarResponseUltraCapsuleMeasurementNodes};
use crate::capsuled_parser::{
    angle_diff_q8, check_sync, generate_flag, generate_quality, running_angle,
    spec_angle_diff_q8, spec_check_sync, spec_generate_flag, spec_generate_quality,
    start_angle_q8,
};
use crate::internals::CachedPrevCapsule;

verus! {

/// A distance and its angle correction in q16 radians.
#[derive(Debug, Clone, Copy, PartialEq, Eq, Structural)]
pub struct ParsedNode {
    pub dist_q2: u32,
    pub angle_offset_q16: i32,
}

/// The variable-bit-scale decoding of a 12-bit major value: the first of
/// the tuples (3328, 1 << 14, 4), (1792, 1 << 12, 3), (1280, 1 << 11, 2),
/// (512, 1 << 9, 1), (0, 0, 0) whose scale base the value reaches gives
/// the flat distance `target + ((value - base) << level)` and the level.
pub open spec fn spec_varbit_scale_decode(scaled: u32) -> (u32, u32) {
    if scaled >= 3328 {
        ((16384 + (scaled - 3328) * 16) as u32, 4)
    } else if scaled >= 1792 {
        ((4096 + (scaled - 1792) * 8) as u32, 3)
    } else if scaled >= 1280 {
        ((2048 + (scaled - 1280) * 4) as u32, 2)
    } else if scaled >= 512 {
        ((512 + (scaled - 512) * 2) as u32, 1)
    } else {
        (scaled, 0)
    }
}

/// An ultra cabin split into its 12-bit major value and its two signed
/// 10-bit predictions.
pub open spec fn spec_parse_cabin(cabin: u32) -> (u32, i32, i32) {
    (cabin & 0xfff, ((cabin << 10u32) as i32) >> 22u32, (cabin as i32) >> 22u32)
}

/// The distance predicted from `base`: 0 for the two "no data" codes.
pub open spec fn spec_predict(base: u32, predict: i32, scale_lvl: u32) -> u32 {
    if (predict as u32) == 0xfffffe00u32 || predict == 0x1ff {
        0
    } else {
        (((predict << scale_lvl) + (base as i32)) as u32) << 2u32
    }
}

/// The angle correction, in q16 radians, of a point at distance `dist`
/// (q2 millimeters): from 200 on, `8 deg - k * 64 - k^3 / 98304` with
/// `k = 98361 / dist`, truncated toward zero (8 deg is 9150.55 in q16
/// radians); below, 7.5 deg (8578.64, truncated).
pub open spec fn spec_calc_angle_offset_q16(dist: u32) -> i32 {
    if dist >= 200 {
        let k = 98361int / (dist as int);
        let x = k * 64 + (k * k * k) / 98304;
        if x <= 9150 {
            (9150 - x) as i32
        } else {
            (9151 - x) as i32
        }
    } else {
        8578
    }
}

/// An angle in q16 radians converted to q16 degrees, truncated toward zero,
/// with pi taken as 3.1415926535.
pub open spec fn spec_rad_q16_to_deg_q16(offset: i32) -> i32 {
    let m = if offset < 0 {
        -offset
    } else {
        offset as int
    };
    let q = m * 1_800_000_000_000 / 31_415_926_535;
    if offset < 0 {
        (-q) as i32
    } else {
        q as i32
    }
}

pub open spec fn spec_angle_q16_to_angle_z_q14(angle_q16: u32) -> u16 {
    ((angle_q16 / 90) >> 2u32) as u16
}

/// The three points of a cabin, given its major value and predictions and
/// the major value of the next cabin.
pub open spec fn spec_generate_nodes(
    dist_major: u32,
    next_major: u32,
    dist_predict1: i32,
    dist_predict2: i32,
    k: int,
) -> ParsedNode {
    let (dist_major, scale_lvl_1) = spec_varbit_scale_decode(dist_major);
    let (next_major, scale_lvl_2) = spec_varbit_scale_decode(next_major);
    let borrow = dist_major == 0 && next_major != 0;
    let dist_base1 = if borrow {
        next_major
    } else {
        dist_major
    };
    let scale_lvl_1 = if borrow {
        scale_lvl_2
    } else {
        scale_lvl_1
    };
    let dist = if k == 0 {
        dist_major << 2u32
    } else if k == 1 {
        spec_predict(dist_base1, dist_predict1, scale_lvl_1)
    } else {
        spec_predict(next_major, dist_predict2, scale_lvl_2)
    };
    ParsedNode { dist_q2: dist, angle_offset_q16: spec_calc_angle_offset_q16(dist) }
}

pub open spec fn spec_ultra_to_hq(node: ParsedNode, cur_angle_raw_q16: u32, angle_inc_q16: u32) -> RplidarResponseMeasurementNodeHq {
    let angle_q16 = wrapping_sub(
        cur_angle_raw_q16,
        spec_rad_q16_to_deg_q16(node.angle_offset_q16) as u32,
    );
    RplidarResponseMeasurementNodeHq {
        angle_z_q14: spec_angle_q16_to_angle_z_q14(angle_q16),
        dist_mm_q2: node.dist_q2,
        quality: spec_generate_quality(node.dist_q2),
        flag: spec_generate_flag(spec_check_sync(cur_angle_raw_q16, angle_inc_q16)),
    }
}

/// The `i`-th point decoded from the ultra capsule `prev`, given the ultra
/// capsule `cur` that follows it.
pub open spec fn ultra_capsuled_point(
    prev: RplidarResponseUltraCapsuleMeasurementNodes,
    cur: RplidarResponseUltraCapsuleMeasurementNodes,
    i: int,
) -> RplidarResponseMeasurementNodeHq {
    let start = start_angle_q8(prev.start_angle_sync_q6);
    let inc = (spec_angle_diff_q8(start, start_angle_q8(cur.start_angle_sync_q6)) << 3u32) / 3;
    let c = i / 3;
    let next = if c == 31 {
        cur.ultra_cabins@[0]
    } else {
        prev.ultra_cabins@[c + 1]
    };
    let (major, predict1, predict2) = spec_parse_cabin(prev.ultra_cabins@[c]);
    let node = spec_generate_nodes(major, spec_parse_cabin(next).0, predict1, predict2, i % 3);
    spec_ultra_to_hq(node, running_angle(start << 8u32, inc, i as nat), inc)
}

/// The 96 points decoded from `prev` once `cur` has arrived.
pub open spec fn ultra_capsuled_points(
    prev: RplidarResponseUltraCapsuleMeasurementNodes,
    cur: RplidarResponseUltraCapsuleMeasurementNodes,
) -> Seq<RplidarResponseMeasurementNodeHq> {
    Seq::new(96, |i: int| ultra_capsuled_point(prev, cur, i))
}

fn get_start_angle_q8(nodes: &RplidarResponseUltraCapsuleMeasurementNodes) -> (r: u32)
    ensures
        r == start_angle_q8(nodes.start_angle_sync_q6),
{
    ((nodes.start_angle_sync_q6 & 0x7fff) as u32) << 2
}

fn calc_angle_offset_q16(dist: u32) -> (r: i32)
    ensures
        r == spec_calc_angle_offset_q16(dist),
{
    if dist >= 200 {
        let k2 = 98361 / dist;
        assert(k2 <= 491) by (nonlinear_arith)
            requires
                k2 == 98361u32 / dist,
                dist >= 200,
        ;
        assert(k2 * k2 <= 491 * 491 && k2 * k2 * k2 <= 491 * 491 * 491) by (nonlinear_arith)
            requires
                k2 <= 491,
        ;
        let x = k2 * 64 + (k2 * k2 * k2) / 98304;
        if x <= 9150 {
            (9150 - x) as i32
        } else {
            (9151 - x as i32)
        }
    } else {
        8578
    }
}

fn rad_q16_to_deg_q16(offset: i32) -> (r: i32)
    ensures
        r == spec_rad_q16_to_deg_q16(offset),
{
    let m: u128 = if offset < 0 {
        (-(offset as i64)) as u128
    } else {
        offset as u128
    };
    assert(m * 1_800_000_000_000 <= 0x8000_0000 * 1_800_000_000_000) by (nonlinear_arith)
        requires
            m <= 0x8000_0000,
    ;
    let q = m * 1_800_000_000_000 / 31_415_926_535;
    if offset < 0 {
        assert(q <= 0x8000_0000 * 1_800_000_000_000 / 31_415_926_535) by (nonlinear_arith)
            requires
                q == m * 1_800_000_000_000 / 31_415_926_535,
                m * 1_800_000_000_000 <= 0x8000_0000 * 1_800_000_000_000,
        ;
        (-(q as i128)) as i32
    } else {
        q as i32
    }
}

/// Decodes a 12-bit major value into its flat distance and scale level.
pub fn varbit_scale_decode(scaled: u32) -> (r: (u32, u32))
    requires
        scaled <= 0xfff,
    ensures
        r == spec_varbit_scale_decode(scaled),
{
    let mut i: usize = 0;
    while i < 5
        invariant
            scaled <= 0xfff,
            i <= 5,
            i >= 1 ==> scaled < 3328,
            i >= 2 ==> scaled < 1792,
            i >= 3 ==> scaled < 1280,
            i >= 4 ==> scaled < 512,
            i >= 5 ==> false,
        decreases 5 - i,
    {
        let (scale_base, target_base, scale_level) = varbit_scale_table(i);
        let remain = (scaled as i32) - scale_base;
        if remain >= 0 {
            let r = remain as u32;
            assert(r << scale_level == r * (1u32 << scale_level)) by (bit_vector)
                requires
                    r <= 0xfff,
                    scale_level <= 4,
            ;
            assert(1u32 << 4u32 == 16 && 1u32 << 3u32 == 8 && 1u32 << 2u32 == 4 && 1u32 << 1u32
                == 2 && 1u32 << 0u32 == 1) by (bit_vector);
            return (target_base + (r << scale_level), scale_level);
        }
        i = i + 1;
    }
    (0, 0)
}

/// The `i`-th (scale base, target base, scale level) tuple.
fn varbit_scale_table(i: usize) -> (r: (i32, u32, u32))
    requires
        i < 5,
    ensures
        i == 0 ==> r == (3328i32, 16384u32, 4u32),
        i == 1 ==> r == (1792i32, 4096u32, 3u32),
        i == 2 ==> r == (1280i32, 2048u32, 2u32),
        i == 3 ==> r == (512i32, 512u32, 1u32),
        i == 4 ==> r == (0i32, 0u32, 0u32),
{
    match i {
        0 => (3328, 16384, 4),
        1 => (1792, 4096, 3),
        2 => (1280, 2048, 2),
        3 => (512, 512, 1),
        _ => (0, 0, 0),
    }
}

fn parse_cabin(cabin: u32) -> (r: (u32, i32, i32))
    ensures
        r == spec_parse_cabin(cabin),
        r.0 <= 0xfff,
        -512 <= r.1 <= 511,
        -512 <= r.2 <= 511,
{
    assert(cabin & 0xfff <= 0xfff) by (bit_vector);
    assert(-512 <= ((cabin << 10u32) as i32) >> 22u32 <= 511) by (bit_vector);
    assert(-512 <= (cabin as i32) >> 22u32 <= 511) by (bit_vector);
    (cabin & 0xfff, ((cabin << 10u32) as i32) >> 22u32, (cabin as i32) >> 22u32)
}

fn predict(base: u32, prediction: i32, scale_lvl: u32) -> (r: u32)
    requires
        base <= 0x10_0000,
        -512 <= prediction <= 511,
        scale_lvl <= 4,
    ensures
        r == spec_predict(base, prediction, scale_lvl),
{
    if (prediction as u32) == 0xfffffe00u32 || prediction == 0x1ff {
        0u32
    } else {
        assert(-8192 <= prediction << scale_lvl <= 8176) by (bit_vector)
            requires
                -512 <= prediction <= 511,
                scale_lvl <= 4,
        ;
        (((prediction << scale_lvl) + (base as i32)) as u32) << 2u32
    }
}

fn generate_nodes(dist_major: u32, next_major: u32, dist_predict1: i32, dist_predict2: i32) -> (r: [ParsedNode; 3])
    requires
        dist_major <= 0xfff,
        next_major <= 0xfff,
        -512 <= dist_predict1 <= 511,
        -512 <= dist_predict2 <= 511,
    ensures
        r@[0] == spec_generate_nodes(dist_major, next_major, dist_predict1, dist_predict2, 0),
        r@[1] == spec_generate_nodes(dist_major, next_major, dist_predict1, dist_predict2, 1),
        r@[2] == spec_generate_nodes(dist_major, next_major, dist_predict1, dist_predict2, 2),
{
    let (dist_major, scale_lvl_1) = varbit_scale_decode(dist_major);
    let (next_major, scale_lvl_2) = varbit_scale_decode(next_major);
    let (dist_base1, dist_base2, scale_lvl_1) = if (dist_major == 0) && (next_major != 0) {
        (next_major, next_major, scale_lvl_2)
    } else {
        (dist_major, next_major, scale_lvl_1)
    };
    let dist0 = dist_major << 2u32;
    let dist1 = predict(dist_base1, dist_predict1, scale_lvl_1);
    let dist2 = predict(dist_base2, dist_predict2, scale_lvl_2);
    [
        ParsedNode { dist_q2: dist0, angle_offset_q16: calc_angle_offset_q16(dist0) },
        ParsedNode { dist_q2: dist1, angle_offset_q16: calc_angle_offset_q16(dist1) },
        ParsedNode { dist_q2: dist2, angle_offset_q16: calc_angle_offset_q16(dist2) },
    ]
}

fn angle_q16_to_angle_z_q14(angle_q16: u32) -> (r: u16)
    ensures
        r == spec_angle_q16_to_angle_z_q14(angle_q16),
{
    ((angle_q16 / 90) >> 2u32) as u16
}

fn to_hq(node: &ParsedNode, cur_angle_raw_q16: u32, angle_inc_q16: u32) -> (r: RplidarResponseMeasurementNodeHq)
    ensures
        r == spec_ultra_to_hq(*node, cur_angle_raw_q16, angle_inc_q16),
{
    let angle_q16 = cur_angle_raw_q16.wrapping_sub(
        rad_q16_to_deg_q16(node.angle_offset_q16) as u32,
    );
    let sync = check_sync(cur_angle_raw_q16, angle_inc_q16);
    RplidarResponseMeasurementNodeHq {
        angle_z_q14: angle_q16_to_angle_z_q14(angle_q16),
        dist_mm_q2: node.dist_q2,
        quality: generate_quality(node.dist_q2),
        flag: generate_flag(sync),
    }
}

/// Decodes the ultra capsule held in `cached_prev` now that `nodes` follows
/// it, and returns the points with `nodes` as the new cached capsule.
/// Without a cached ultra capsule there are no points.
pub fn parse_ultra_capsuled(
    cached_prev: &CachedPrevCapsule,
    nodes: RplidarResponseUltraCapsuleMeasurementNodes,
) -> (r: (Vec<RplidarResponseMeasurementNodeHq>, CachedPrevCapsule))
    ensures
        r.1 == CachedPrevCapsule::UltraCapsuled(nodes),
        match *cached_prev {
            CachedPrevCapsule::UltraCapsuled(prev) => r.0@ == ultra_capsuled_points(prev, nodes),
            _ => r.0@ == Seq::<RplidarResponseMeasurementNodeHq>::empty(),
        },
        cached_prev is UltraCapsuled ==> r.0@.len() == 96,
{
    if let CachedPrevCapsule::UltraCapsuled(prev_capsule) = cached_prev {
        let mut output_nodes: Vec<RplidarResponseMeasurementNodeHq> = Vec::with_capacity(32 * 3);
        let cur_start_angle_q8 = get_start_angle_q8(&nodes);
        let prev_start_angle_q8 = get_start_angle_q8(prev_capsule);
        let diff_angle_q8 = angle_diff_q8(prev_start_angle_q8, cur_start_angle_q8);
        let angle_inc_q16 = (diff_angle_q8 << 3u32) / 3;
        let mut cur_angle_raw_q16 = prev_start_angle_q8 << 8u32;
        let ghost start = prev_start_angle_q8 << 8u32;
        let (mut cur_major, mut cur_predict1, mut cur_predict2) = parse_cabin(
            prev_capsule.ultra_cabins[0],
        );
        let cabin_count: usize = 32;
        let mut i: usize = 0;
        while i < cabin_count
            invariant
                cabin_count == 32,
                i <= 32,
                output_nodes@.len() == 3 * i,
                cur_angle_raw_q16 == running_angle(start, angle_inc_q16, 3 * i as nat),
                i < 32 ==> (cur_major, cur_predict1, cur_predict2) == spec_parse_cabin(
                    prev_capsule.ultra_cabins@[i as int],
                ),
                cur_major <= 0xfff,
                -512 <= cur_predict1 <= 511,
                -512 <= cur_predict2 <= 511,
                forall|t: int|
                    0 <= t < 3 * i ==> #[trigger] output_nodes@[t] == ultra_capsuled_point(
                        *prev_capsule,
                        nodes,
                        t,
                    ),
                start == start_angle_q8(prev_capsule.start_angle_sync_q6) << 8u32,
                angle_inc_q16 == (spec_angle_diff_q8(
                    start_angle_q8(prev_capsule.start_angle_sync_q6),
                    start_angle_q8(nodes.start_angle_sync_q6),
                ) << 3u32) / 3,
            decreases 32 - i,
        {
            let next_cabin = if i == cabin_count - 1 {
                nodes.ultra_cabins[0]
            } else {
                prev_capsule.ultra_cabins[i + 1]
            };
            let (next_major, next_predict1, next_predict2) = parse_cabin(next_cabin);
            let parsed_nodes = generate_nodes(cur_major, next_major, cur_predict1, cur_predict2);
            output_nodes.push(to_hq(&parsed_nodes[0], cur_angle_raw_q16, angle_inc_q16));
            cur_angle_raw_q16 = cur_angle_raw_q16.wrapping_add(angle_inc_q16);
            let ghost a1 = cur_angle_raw_q16;
            output_nodes.push(to_hq(&parsed_nodes[1], cur_angle_raw_q16, angle_inc_q16));
            cur_angle_raw_q16 = cur_angle_raw_q16.wrapping_add(angle_inc_q16);
            output_nodes.push(to_hq(&parsed_nodes[2], cur_angle_raw_q16, angle_inc_q16));
            cur_angle_raw_q16 = cur_angle_raw_q16.wrapping_add(angle_inc_q16);
            proof {
                let i0 = 3 * i as int;
                assert(i0 / 3 == i as int && i0 % 3 == 0);
                assert((i0 + 1) / 3 == i as int && (i0 + 1) % 3 == 1);
                assert((i0 + 2) / 3 == i as int && (i0 + 2) % 3 == 2);
                assert(running_angle(start, angle_inc_q16, (i0 + 1) as nat) == a1);
                assert(running_angle(start, angle_inc_q16, (i0 + 2) as nat) == wrapping_add(
                    a1,
                    angle_inc_q16,
                ));
                assert(running_angle(start, angle_inc_q16, (i0 + 3) as nat)
                    == cur_angle_raw_q16);
            }
            cur_major = next_major;
            cur_predict1 = next_predict1;
            cur_predict2 = next_predict2;
            i = i + 1;
        }
        assert(output_nodes@ =~= ultra_capsuled_points(*prev_capsule, nodes));
        (output_nodes, CachedPrevCapsule::UltraCapsuled(nodes))
    } else {
        (Vec::new(), CachedPrevCapsule::UltraCapsuled(nodes))
    }
}

} // verus!
