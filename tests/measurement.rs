use rplidar_drv::{
    angle_diff_q8, check_hq_frame, check_sync, generate_flag, generate_quality, parse_capsuled,
    parse_ultra_capsuled, sort_scan, varbit_scale_decode, CachedPrevCapsule, Channel, Message,
    RplidarDevice, RplidarHostProtocol, RplidarResponseCapsuleMeasurementNodes,
    RplidarResponseUltraCapsuleMeasurementNodes, RposError, ScanPoint, ScanProgress,
};

fn device() -> RplidarDevice {
    RplidarDevice::new(Channel::new(RplidarHostProtocol::new()))
}

/// Puts the sync nibbles and the XOR of the bytes after the first two in place.
fn seal_capsule(mut b: Vec<u8>) -> Vec<u8> {
    let cs = b[2..].iter().fold(0u8, |a, x| a ^ x);
    b[0] = 0xA0 | (cs & 0xf);
    b[1] = 0x50 | (cs >> 4);
    b
}

fn capsule_bytes(start_q6: u16, dist: u16) -> Vec<u8> {
    let mut b = vec![0u8; 84];
    b[2..4].copy_from_slice(&start_q6.to_le_bytes());
    for c in 0..16 {
        let off = 4 + 5 * c;
        b[off..off + 2].copy_from_slice(&dist.to_le_bytes());
        b[off + 2..off + 4].copy_from_slice(&(dist + 4).to_le_bytes());
        b[off + 4] = 0x21;
    }
    seal_capsule(b)
}

fn ultra_bytes(start_q6: u16, cabin: u32) -> Vec<u8> {
    let mut b = vec![0u8; 132];
    b[2..4].copy_from_slice(&start_q6.to_le_bytes());
    for c in 0..32 {
        let off = 4 + 4 * c;
        b[off..off + 4].copy_from_slice(&cabin.to_le_bytes());
    }
    seal_capsule(b)
}

fn hq_bytes() -> Vec<u8> {
    let mut b = vec![0u8; 141];
    b[0] = 0xA5;
    for i in 0..16u16 {
        let off = 9 + 8 * i as usize;
        b[off..off + 2].copy_from_slice(&(i * 1000).to_le_bytes());
        b[off + 2..off + 6].copy_from_slice(&(4000u32 + i as u32).to_le_bytes());
        b[off + 6] = 50;
        b[off + 7] = if i == 0 { 1 } else { 0 };
    }
    let crc = crc::crc32::checksum_ieee(&b[0..137]);
    b[137..141].copy_from_slice(&crc.to_le_bytes());
    b
}

fn point(angle: u16, dist: u32, quality: u8, flag: u8) -> ScanPoint {
    ScanPoint {
        angle_z_q14: angle,
        dist_mm_q2: dist,
        quality,
        flag,
    }
}

#[test]
fn varbit_scale_decode_examples() {
    assert_eq!(varbit_scale_decode(3328), (1 << 14, 4));
    assert_eq!(varbit_scale_decode(0), (0, 0));
    assert_eq!(varbit_scale_decode(3329), ((1 << 14) + 16, 4));
    assert_eq!(varbit_scale_decode(1792), (1 << 12, 3));
    assert_eq!(varbit_scale_decode(1300), ((1 << 11) + 80, 2));
    assert_eq!(varbit_scale_decode(600), ((1 << 9) + 176, 1));
    assert_eq!(varbit_scale_decode(511), (511, 0));
}

#[test]
fn angle_helpers() {
    assert_eq!(angle_diff_q8(100, 300), 200);
    assert_eq!(angle_diff_q8(92000, 100), 260);
    assert!(check_sync(23592960 - 10, 20));
    assert!(!check_sync(1000, 20));
    assert_eq!(generate_quality(4), 0x2f << 2);
    assert_eq!(generate_quality(0), 0);
    assert_eq!(generate_flag(true), 1);
    assert_eq!(generate_flag(false), 0);
}

#[test]
fn capsuled_needs_previous_frame() {
    let first = RplidarResponseCapsuleMeasurementNodes::parse(&capsule_bytes(64, 1000)).unwrap();
    let second = RplidarResponseCapsuleMeasurementNodes::parse(&capsule_bytes(128, 1000)).unwrap();
    let (points, cache) = parse_capsuled(&CachedPrevCapsule::Empty, first);
    assert!(points.is_empty());
    let (points, cache) = parse_capsuled(&cache, second);
    assert_eq!(points.len(), 32);
    assert_eq!(cache, CachedPrevCapsule::Capsuled(second));
    // distances lose their two correction bits; quality marks a distance
    assert_eq!(points[0].dist_mm_q2, 1000);
    assert_eq!(points[1].dist_mm_q2, 1004);
    assert_eq!(points[0].quality, 0x2f << 2);
    // start 1 degree (q6 64 -> q8 256 -> q16 65536), step (512 - 256) << 3 = 2048;
    // corrections 1 and 2 eighths of a degree (8192 and 16384 in q16)
    let q14 = |q16: u32| (((q16 >> 10) << 8) / 90) as u16;
    assert_eq!(points[0].angle_z_q14, q14(65536 - 8192));
    assert_eq!(points[1].angle_z_q14, q14(65536 + 2048 - 16384));
    // 1 degree is 182 q14 units; less 1/8 degree: 159
    assert_eq!(points[0].angle_z_q14, 159);
}

#[test]
fn capsuled_angle_of_uncorrected_point() {
    // capsules at 90 and 91 degrees, no correction: the first point is at 90 degrees
    let mut a = capsule_bytes(90 * 64, 1000);
    let mut b = capsule_bytes(91 * 64, 1000);
    for bytes in [&mut a, &mut b] {
        for c in 0..16 {
            bytes[4 + 5 * c + 4] = 0;
        }
        let sealed = seal_capsule(bytes.clone());
        bytes.copy_from_slice(&sealed);
    }
    let first = RplidarResponseCapsuleMeasurementNodes::parse(&a).unwrap();
    let second = RplidarResponseCapsuleMeasurementNodes::parse(&b).unwrap();
    let (_, cache) = parse_capsuled(&CachedPrevCapsule::Empty, first);
    let (points, _) = parse_capsuled(&cache, second);
    assert_eq!(points[0].angle_z_q14, 16384);
}

#[test]
fn capsuled_against_ultra_cache_gives_nothing() {
    let ultra = RplidarResponseUltraCapsuleMeasurementNodes::parse(&ultra_bytes(0, 0)).unwrap();
    let caps = RplidarResponseCapsuleMeasurementNodes::parse(&capsule_bytes(64, 1000)).unwrap();
    let (points, cache) = parse_capsuled(&CachedPrevCapsule::UltraCapsuled(ultra), caps);
    assert!(points.is_empty());
    assert_eq!(cache, CachedPrevCapsule::Capsuled(caps));
}

#[test]
fn ultra_capsuled_yields_96_points() {
    // major 3328 + 2 -> 16384 + 32, predictions 0
    let cabin: u32 = 3330;
    let first = RplidarResponseUltraCapsuleMeasurementNodes::parse(&ultra_bytes(64, cabin)).unwrap();
    let second =
        RplidarResponseUltraCapsuleMeasurementNodes::parse(&ultra_bytes(128, cabin)).unwrap();
    let (points, cache) = parse_ultra_capsuled(&CachedPrevCapsule::Empty, first);
    assert!(points.is_empty());
    let (points, _) = parse_ultra_capsuled(&cache, second);
    assert_eq!(points.len(), 96);
    assert_eq!(points[0].dist_mm_q2, (16384 + 32) << 2);
    assert_eq!(points[1].dist_mm_q2, (16384 + 32) << 2);
    assert_eq!(points[2].dist_mm_q2, (16384 + 32) << 2);
}

#[test]
fn ultra_no_data_prediction_is_zero_distance() {
    // predict1 = 0x1ff (bits 12..21), predict2 = 0
    let cabin: u32 = 3330 | (0x1ff << 12);
    let first = RplidarResponseUltraCapsuleMeasurementNodes::parse(&ultra_bytes(64, cabin)).unwrap();
    let second =
        RplidarResponseUltraCapsuleMeasurementNodes::parse(&ultra_bytes(128, cabin)).unwrap();
    let (_, cache) = parse_ultra_capsuled(&CachedPrevCapsule::Empty, first);
    let (points, _) = parse_ultra_capsuled(&cache, second);
    assert_eq!(points[1].dist_mm_q2, 0);
    assert_eq!(points[1].quality, 0);
    assert_eq!(points[2].dist_mm_q2, (16384 + 32) << 2);
}

#[test]
fn device_decodes_two_capsules_into_32_points() {
    let mut dev = device();
    let m1 = Message::with_data(0x82, &capsule_bytes(64, 1000));
    let m2 = Message::with_data(0x82, &capsule_bytes(128, 1000));
    dev.on_scan_data(&m1).unwrap();
    assert_eq!(dev.cached_len(), 0);
    dev.on_scan_data(&m2).unwrap();
    assert_eq!(dev.cached_len(), 32);
}

#[test]
fn device_decodes_two_ultra_capsules_into_96_points() {
    let mut dev = device();
    dev.on_scan_data(&Message::with_data(0x84, &ultra_bytes(64, 3330)))
        .unwrap();
    dev.on_scan_data(&Message::with_data(0x84, &ultra_bytes(128, 3330)))
        .unwrap();
    assert_eq!(dev.cached_len(), 96);
}

#[test]
fn corrupted_capsule_is_a_protocol_error() {
    let mut dev = device();
    let good = capsule_bytes(64, 1000);
    for j in 2..good.len() {
        let mut bad = good.clone();
        bad[j] ^= 0x10;
        let r = dev.on_scan_data(&Message::with_data(0x82, &bad));
        assert!(matches!(r, Err(RposError::ProtocolError { .. })));
    }
    assert_eq!(dev.cached_len(), 0);
}

#[test]
fn capsule_of_wrong_length_is_an_operation_failure() {
    let mut dev = device();
    let short = seal_capsule(vec![0u8; 40]);
    let r = dev.on_scan_data(&Message::with_data(0x82, &short));
    assert!(matches!(r, Err(RposError::OperationFail { .. })));
}

#[test]
fn hq_capsule_is_checked_by_crc() {
    let mut dev = device();
    let good = hq_bytes();
    dev.on_scan_data(&Message::with_data(0x83, &good)).unwrap();
    assert_eq!(dev.cached_len(), 16);
    let p = dev.grab_scan_point().unwrap();
    assert_eq!(p, point(0, 4000, 50, 1));
    let mut bad = good.clone();
    bad[20] ^= 1;
    let r = dev.on_scan_data(&Message::with_data(0x83, &bad));
    assert!(matches!(r, Err(RposError::ProtocolError { .. })));
    assert_eq!(dev.cached_len(), 15);
}

#[test]
fn legacy_node_becomes_a_point() {
    let mut dev = device();
    // sync bit and quality 10 << 2, angle q6 90 degrees = 5760 (shifted by 1), distance 2000
    let angle: u16 = 5760 << 1 | 1;
    let mut data = vec![(10 << 2) | 1];
    data.extend_from_slice(&angle.to_le_bytes());
    data.extend_from_slice(&2000u16.to_le_bytes());
    dev.on_scan_data(&Message::with_data(0x81, &data)).unwrap();
    let p = dev.grab_scan_point().unwrap();
    assert_eq!(p, point(((5760u32 << 8) / 90) as u16, 2000, 40, 1));
    let r = dev.on_scan_data(&Message::with_data(0x81, &data[0..4]));
    assert!(matches!(r, Err(RposError::OperationFail { .. })));
}

#[test]
fn unexpected_answer_is_a_protocol_error() {
    let mut dev = device();
    let r = dev.on_scan_data(&Message::new(0x06));
    assert!(matches!(r, Err(RposError::ProtocolError { .. })));
}

#[test]
fn grab_scan_point_on_empty_queue_times_out() {
    let mut dev = device();
    assert!(matches!(
        dev.grab_scan_point(),
        Err(RposError::OperationTimeout)
    ));
}

#[test]
fn grab_scan_returns_points_before_sync() {
    let mut dev = device();
    for i in 0..10u16 {
        let flag = if i == 5 { 1 } else { 0 };
        dev.push_point(point(i * 100, 400, 10, flag));
    }
    match dev.grab_scan(1) {
        ScanProgress::Complete(points) => {
            assert_eq!(points.len(), 5);
            for (i, p) in points.iter().enumerate() {
                assert_eq!(p.angle_z_q14, i as u16 * 100);
            }
        }
        ScanProgress::Pending(_) => panic!("expected a complete scan"),
    }
    assert_eq!(dev.cached_len(), 5);
    assert_eq!(dev.grab_scan_point().unwrap().angle_z_q14, 500);
}

#[test]
fn grab_scan_waits_without_sync() {
    let mut dev = device();
    dev.push_point(point(0, 400, 10, 1));
    dev.push_point(point(10, 400, 10, 0));
    match dev.grab_scan(1) {
        ScanProgress::Pending(n) => assert_eq!(n, 2),
        ScanProgress::Complete(_) => panic!("no revolution yet"),
    }
    assert_eq!(dev.cached_len(), 2);
}

#[test]
fn sort_scan_keeps_sorted_valid_revolution() {
    let mut scan: Vec<ScanPoint> = (0..8u16).map(|i| point(i * 8000, 100, 10, 0)).collect();
    let before = scan.clone();
    sort_scan(&mut scan).unwrap();
    assert_eq!(scan, before);
}

#[test]
fn sort_scan_on_empty_revolution() {
    let mut scan: Vec<ScanPoint> = Vec::new();
    assert!(sort_scan(&mut scan).is_ok());
    assert!(scan.is_empty());
}

#[test]
fn sort_scan_without_valid_point_fails() {
    let mut scan = vec![point(10, 0, 10, 0), point(20, 100, 0, 0)];
    let before = scan.clone();
    assert!(matches!(
        sort_scan(&mut scan),
        Err(RposError::OperationFail { .. })
    ));
    assert_eq!(scan, before);
}

#[test]
fn sort_scan_places_invalid_points() {
    // four points: step 16384; valid at 1 and 2
    let mut scan = vec![
        point(999, 0, 0, 0),
        point(20000, 100, 10, 0),
        point(30000, 100, 10, 0),
        point(5, 0, 0, 0),
    ];
    sort_scan(&mut scan).unwrap();
    let angles: Vec<u16> = scan.iter().map(|p| p.angle_z_q14).collect();
    assert_eq!(angles, vec![3616, 20000, 30000, 46384]);
}

#[test]
fn sort_scan_wraps_and_sorts() {
    // two points: step 32768; the tail one wraps past a full circle
    let mut scan = vec![point(40000, 100, 10, 0), point(1, 0, 0, 0)];
    sort_scan(&mut scan).unwrap();
    assert_eq!(scan[0], point(7232, 0, 0, 0));
    assert_eq!(scan[1], point(40000, 100, 10, 0));
}

#[test]
fn sort_scan_fills_gap_from_front() {
    // three points: step 21845; the middle one is invalid
    let mut scan = vec![
        point(100, 100, 10, 0),
        point(60000, 0, 0, 0),
        point(50000, 100, 10, 0),
    ];
    sort_scan(&mut scan).unwrap();
    let angles: Vec<u16> = scan.iter().map(|p| p.angle_z_q14).collect();
    assert_eq!(angles, vec![100, 21945, 50000]);
}

#[test]
fn hq_frame_check_takes_the_crc() {
    let b = hq_bytes();
    let crc = u32::from_le_bytes([b[137], b[138], b[139], b[140]]);
    assert!(check_hq_frame(&b, crc).is_ok());
    assert!(matches!(
        check_hq_frame(&b, crc ^ 1),
        Err(RposError::ProtocolError { .. })
    ));
    assert!(matches!(
        check_hq_frame(&b[0..140], crc),
        Err(RposError::ProtocolError { .. })
    ));
    let mut bad_sync = b.clone();
    bad_sync[0] = 0xA4;
    assert!(check_hq_frame(&bad_sync, crc).is_err());
}

#[test]
fn sort_scan_is_stable() {
    let mut scan = vec![
        point(100, 1, 10, 0),
        point(50, 2, 10, 0),
        point(100, 3, 10, 0),
        point(50, 4, 10, 0),
    ];
    sort_scan(&mut scan).unwrap();
    let dists: Vec<u32> = scan.iter().map(|p| p.dist_mm_q2).collect();
    assert_eq!(dists, vec![2, 4, 1, 3]);
}
